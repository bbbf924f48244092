//! The path solver: the closed-form minimal tour on a line.
//!
//! A tour that starts at `start` and visits every point of a non-empty set
//! must reach both extremes of the set; the only real choice is which
//! extreme to reach first.  Going to the nearer one first costs
//! `min(|start - min|, |start - max|)`, and the unavoidable sweep across
//! the whole span costs `max - min` exactly once.  [`spec_best_path`]
//! states that formula; [`find_best_path`] computes it.

use vstd::prelude::*;

use crate::Error;
use crate::valid_position;

verus! {

/// Distance between two positions on the line.
pub open spec fn abs_diff(a: int, b: int) -> int {
    if a <= b {
        b - a
    } else {
        a - b
    }
}

/// Smallest position of a non-empty sequence.
pub open spec fn seq_min(s: Seq<i64>) -> i64
    recommends
        s.len() > 0,
    decreases s.len(),
{
    if s.len() <= 1 {
        s[0]
    } else {
        let rest = seq_min(s.drop_first());
        if s[0] <= rest {
            s[0]
        } else {
            rest
        }
    }
}

/// Largest position of a non-empty sequence.
pub open spec fn seq_max(s: Seq<i64>) -> i64
    recommends
        s.len() > 0,
    decreases s.len(),
{
    if s.len() <= 1 {
        s[0]
    } else {
        let rest = seq_max(s.drop_first());
        if s[0] >= rest {
            s[0]
        } else {
            rest
        }
    }
}

/// Length of the minimal tour that starts at `start` and visits every
/// position of `points`: first the walk to the nearer extreme, then the
/// sweep across the full span.
pub open spec fn spec_best_path(points: Seq<i64>, start: int) -> int
    recommends
        points.len() > 0,
{
    let lo = seq_min(points) as int;
    let hi = seq_max(points) as int;
    let near = if abs_diff(start, lo) <= abs_diff(start, hi) {
        abs_diff(start, lo)
    } else {
        abs_diff(start, hi)
    };
    near + (hi - lo)
}

/// The minimum of a non-empty sequence is one of its elements and bounds
/// them all from below.
pub proof fn lemma_seq_min_props(s: Seq<i64>)
    requires
        s.len() > 0,
    ensures
        s.contains(seq_min(s)),
        forall|i: int| 0 <= i < s.len() ==> seq_min(s) <= #[trigger] s[i],
        forall|x: i64| s.contains(x) ==> seq_min(s) <= x,
    decreases s.len(),
{
    if s.len() > 1 {
        let rest = s.drop_first();
        lemma_seq_min_props(rest);
        assert forall|i: int| 0 <= i < s.len() implies seq_min(s) <= s[i] by {
            if i > 0 {
                assert(s[i] == rest[i - 1]);
            }
        }
        if s[0] <= seq_min(rest) {
            assert(s.contains(seq_min(s))) by {
                assert(s[0] == seq_min(s));
            }
        } else {
            let j = choose|j: int| 0 <= j < rest.len() && rest[j] == seq_min(rest);
            assert(s.contains(seq_min(s))) by {
                assert(s[j + 1] == seq_min(s));
            }
        }
    }
    assert forall|x: i64| s.contains(x) implies seq_min(s) <= x by {
        let i = choose|i: int| 0 <= i < s.len() && s[i] == x;
        assert(seq_min(s) <= s[i]);
    }
}

/// The maximum of a non-empty sequence is one of its elements and bounds
/// them all from above.
pub proof fn lemma_seq_max_props(s: Seq<i64>)
    requires
        s.len() > 0,
    ensures
        s.contains(seq_max(s)),
        forall|i: int| 0 <= i < s.len() ==> #[trigger] s[i] <= seq_max(s),
        forall|x: i64| s.contains(x) ==> x <= seq_max(s),
    decreases s.len(),
{
    if s.len() > 1 {
        let rest = s.drop_first();
        lemma_seq_max_props(rest);
        assert forall|i: int| 0 <= i < s.len() implies s[i] <= seq_max(s) by {
            if i > 0 {
                assert(s[i] == rest[i - 1]);
            }
        }
        if s[0] >= seq_max(rest) {
            assert(s.contains(seq_max(s))) by {
                assert(s[0] == seq_max(s));
            }
        } else {
            let j = choose|j: int| 0 <= j < rest.len() && rest[j] == seq_max(rest);
            assert(s.contains(seq_max(s))) by {
                assert(s[j + 1] == seq_max(s));
            }
        }
    }
    assert forall|x: i64| s.contains(x) implies x <= seq_max(s) by {
        let i = choose|i: int| 0 <= i < s.len() && s[i] == x;
        assert(s[i] <= seq_max(s));
    }
}

/// Minimal total travel distance to visit every point of `points` when
/// travel starts at `starting_position` and is confined to the line.
///
/// Rejects an empty point set: there is nothing to visit and no extreme
/// to define the tour.
pub fn find_best_path(points: &Vec<i64>, starting_position: i64) -> (result: Result<i64, Error>)
    requires
        forall|i: int| 0 <= i < points@.len() ==> valid_position(#[trigger] points@[i]),
        valid_position(starting_position),
    ensures
        result is Ok <==> points@.len() > 0,
        result matches Ok(d) ==> d == spec_best_path(points@, starting_position as int),
        result matches Err(e) ==> e == Error::InvalidInput,
{
    if points.len() == 0 {
        return Err(Error::InvalidInput);
    }
    let mut min_point: i64 = points[0];
    let mut max_point: i64 = points[0];
    let mut idx: usize = 1;
    while idx < points.len()
        invariant
            1 <= idx <= points@.len(),
            forall|i: int| 0 <= i < points@.len() ==> valid_position(#[trigger] points@[i]),
            points@.contains(min_point),
            points@.contains(max_point),
            forall|j: int| 0 <= j < idx ==> min_point <= #[trigger] points@[j],
            forall|j: int| 0 <= j < idx ==> #[trigger] points@[j] <= max_point,
        decreases points@.len() - idx,
    {
        let p = points[idx];
        if p < min_point {
            min_point = p;
            assert(points@.contains(min_point)) by {
                assert(points@[idx as int] == min_point);
            }
        }
        if p > max_point {
            max_point = p;
            assert(points@.contains(max_point)) by {
                assert(points@[idx as int] == max_point);
            }
        }
        idx = idx + 1;
    }
    proof {
        lemma_seq_min_props(points@);
        lemma_seq_max_props(points@);
        let jm = choose|j: int| 0 <= j < points@.len() && points@[j] == seq_min(points@);
        assert(min_point <= points@[jm]);
        let jx = choose|j: int| 0 <= j < points@.len() && points@[j] == seq_max(points@);
        assert(points@[jx] <= max_point);
        assert(min_point == seq_min(points@));
        assert(max_point == seq_max(points@));
    }
    let left_dist = if starting_position >= min_point {
        starting_position - min_point
    } else {
        min_point - starting_position
    };
    let right_dist = if max_point >= starting_position {
        max_point - starting_position
    } else {
        starting_position - max_point
    };
    let first_traversal = if left_dist <= right_dist {
        left_dist
    } else {
        right_dist
    };
    let second_traversal = max_point - min_point;
    Ok(first_traversal + second_traversal)
}

/// With a single point there is no sweep: the tour is the direct walk to
/// that point.
pub proof fn lemma_best_path_single(p: i64, start: int)
    ensures
        spec_best_path(seq![p], start) == abs_diff(start, p as int),
{
    assert(seq![p].len() == 1);
    assert(seq_min(seq![p]) == p);
    assert(seq_max(seq![p]) == p);
}

/// The tour length depends only on which positions occur, not on the
/// order the sequence lists them in: sequences with equal multisets of
/// points get equal answers.
pub proof fn lemma_best_path_permutation(p1: Seq<i64>, p2: Seq<i64>, start: int)
    requires
        p1.len() > 0,
        p1.to_multiset() == p2.to_multiset(),
    ensures
        p2.len() > 0,
        spec_best_path(p1, start) == spec_best_path(p2, start),
{
    broadcast use vstd::seq_lib::group_to_multiset_ensures;

    assert(p1.to_multiset().len() == p1.len());
    assert(p2.to_multiset().len() == p2.len());
    lemma_seq_min_props(p1);
    lemma_seq_min_props(p2);
    lemma_seq_max_props(p1);
    lemma_seq_max_props(p2);
    assert(p2.contains(seq_min(p1))) by {
        assert(p1.to_multiset().contains(seq_min(p1)));
    }
    assert(p1.contains(seq_min(p2))) by {
        assert(p2.to_multiset().contains(seq_min(p2)));
    }
    assert(p2.contains(seq_max(p1))) by {
        assert(p1.to_multiset().contains(seq_max(p1)));
    }
    assert(p1.contains(seq_max(p2))) by {
        assert(p2.to_multiset().contains(seq_max(p2)));
    }
    assert(seq_min(p1) == seq_min(p2));
    assert(seq_max(p1) == seq_max(p2));
}

/// When every point equals `v` the tour collapses to the direct walk to
/// `v`, whatever the sequence's length.
pub proof fn lemma_best_path_uniform(points: Seq<i64>, v: i64, start: int)
    requires
        points.len() > 0,
        forall|i: int| 0 <= i < points.len() ==> #[trigger] points[i] == v,
    ensures
        spec_best_path(points, start) == abs_diff(start, v as int),
{
    lemma_seq_min_props(points);
    lemma_seq_max_props(points);
    let jm = choose|j: int| 0 <= j < points.len() && points[j] == seq_min(points);
    let jx = choose|j: int| 0 <= j < points.len() && points[j] == seq_max(points);
    assert(seq_min(points) == v);
    assert(seq_max(points) == v);
}

/// Starting to the left of every point degenerates the tour into a single
/// rightward walk that ends at the maximum.
pub proof fn lemma_best_path_left_start(points: Seq<i64>, start: int)
    requires
        points.len() > 0,
        start < seq_min(points),
    ensures
        spec_best_path(points, start) == seq_max(points) - start,
{
    lemma_seq_min_props(points);
    lemma_seq_max_props(points);
    assert(seq_min(points) <= seq_max(points)) by {
        let j = choose|j: int| 0 <= j < points.len() && points[j] == seq_min(points);
        assert(points[j] <= seq_max(points));
    }
}

} // verus!

