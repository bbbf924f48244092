//! The scenario generator: random point sets fed to the solver.
//!
//! [`generate_data`] draws `count` uniform samples from a half-open range
//! and returns them together with the minimal tour length the solver
//! computes for them — the two are never allowed to diverge.
//! [`NumberLine`] keeps the sampling configuration as a mutable record so
//! a caller can adjust the starting position and re-run without repeating
//! the range and count.

use rand::Rng;
use vstd::prelude::*;

use crate::Error;
use crate::solver::find_best_path;
use crate::solver::spec_best_path;
use crate::valid_position;

verus! {

/// Relies on `rand::thread_rng` and `rand::Rng::gen_range`: a sample from
/// the half-open range `lo..hi`, which panics when the range is empty and
/// otherwise returns a value of that range.
#[verifier::external_body]
fn sample_position(lo: i64, hi: i64) -> (r: i64)
    requires
        lo < hi,
    ensures
        lo <= r < hi,
{
    rand::thread_rng().gen_range(lo..hi)
}

/// Draws `n` points uniformly at random from `[range_start, range_end)`
/// and solves the traversal problem on them from `starting_position`.
///
/// Returns the sampled points together with the distance; the distance is
/// exactly what [`find_best_path`] answers on those points.  Rejects a
/// zero count and a range whose start does not precede its end.
pub fn generate_data(range_start: i64, range_end: i64, n: usize, starting_position: i64) -> (result:
    Result<(Vec<i64>, i64), Error>)
    requires
        valid_position(range_start),
        valid_position(range_end),
        valid_position(starting_position),
    ensures
        result is Ok <==> (n > 0 && range_start < range_end),
        result matches Ok(pair) ==> {
            &&& pair.0@.len() == n
            &&& forall|i: int|
                0 <= i < pair.0@.len() ==> range_start <= #[trigger] pair.0@[i] < range_end
            &&& pair.1 == spec_best_path(pair.0@, starting_position as int)
        },
        result matches Err(e) ==> e == Error::InvalidInput,
{
    if n == 0 || range_start >= range_end {
        return Err(Error::InvalidInput);
    }
    let mut points: Vec<i64> = Vec::new();
    let mut i: usize = 0;
    while i < n
        invariant
            i <= n,
            points@.len() == i,
            range_start < range_end,
            forall|j: int|
                0 <= j < points@.len() ==> range_start <= #[trigger] points@[j] < range_end,
        decreases n - i,
    {
        let p = sample_position(range_start, range_end);
        points.push(p);
        i = i + 1;
    }
    match find_best_path(&points, starting_position) {
        Ok(distance) => Ok((points, distance)),
        Err(e) => {
            proof {
                assert(false);
            }
            Err(e)
        },
    }
}

/// Mutable scenario configuration: a sampling range, a point count and a
/// starting position, kept so that fresh scenarios can be generated on
/// demand.  The record owns only the configuration, never a generated
/// point set.
pub struct NumberLine {
    /// Inclusive lower end of the sampling range.
    pub start: i64,
    /// Exclusive upper end of the sampling range.
    pub end: i64,
    /// Where each generated tour begins.
    pub starting_position: i64,
    /// How many points each scenario draws.
    pub number_of_points: usize,
}

impl NumberLine {
    /// All coordinates of the configuration are small enough to do
    /// arithmetic on.
    pub open spec fn wf(self) -> bool {
        &&& valid_position(self.start)
        &&& valid_position(self.end)
        &&& valid_position(self.starting_position)
    }

    /// Records a configuration exactly as given; nothing is validated
    /// here, a degenerate range or zero count surfaces as an error from
    /// [`NumberLine::regenerate_data`].
    pub fn new(start: i64, end: i64, starting_position: i64, number_of_points: usize) -> (line:
        NumberLine)
        requires
            valid_position(start),
            valid_position(end),
            valid_position(starting_position),
        ensures
            line.start == start,
            line.end == end,
            line.starting_position == starting_position,
            line.number_of_points == number_of_points,
            line.wf(),
    {
        NumberLine { start, end, starting_position, number_of_points }
    }

    /// Samples a fresh point set under the current configuration and
    /// returns only the tour length; the points are discarded.  The
    /// answer is the solver's, for some point set of the configured count
    /// drawn from the configured range and toured from the current
    /// starting position.
    pub fn regenerate_data(&self) -> (result: Result<i64, Error>)
        requires
            self.wf(),
        ensures
            result is Ok <==> (self.number_of_points > 0 && self.start < self.end),
            result matches Ok(d) ==> exists|pts: Seq<i64>|
                {
                    &&& pts.len() == self.number_of_points
                    &&& forall|i: int| 0 <= i < pts.len() ==> self.start <= #[trigger] pts[i] < self.end
                    &&& d == spec_best_path(pts, self.starting_position as int)
                },
            result matches Err(e) ==> e == Error::InvalidInput,
    {
        match generate_data(self.start, self.end, self.number_of_points, self.starting_position) {
            Ok((points, distance)) => {
                proof {
                    let pts = points@;
                    assert(pts.len() == self.number_of_points && (forall|i: int|
                        0 <= i < pts.len() ==> self.start <= #[trigger] pts[i] < self.end)
                        && distance == spec_best_path(pts, self.starting_position as int));
                }
                Ok(distance)
            },
            Err(e) => Err(e),
        }
    }

    /// Replaces the starting position; range and count stay as they were.
    pub fn set_starting_position(&mut self, new_starting_position: i64)
        requires
            valid_position(new_starting_position),
            old(self).wf(),
        ensures
            final(self).starting_position == new_starting_position,
            final(self).start == old(self).start,
            final(self).end == old(self).end,
            final(self).number_of_points == old(self).number_of_points,
            final(self).wf(),
    {
        self.starting_position = new_starting_position;
    }

    /// Current starting position.
    pub fn get_starting_position(&self) -> (position: i64)
        ensures
            position == self.starting_position,
    {
        self.starting_position
    }

    /// Exclusive upper end of the sampling range.
    pub fn get_end(&self) -> (end: i64)
        ensures
            end == self.end,
    {
        self.end
    }
}

} // verus!
