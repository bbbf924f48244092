//! Shortest traversal of points on a number line.
//!
//! Given a non-empty set of positions on a one-dimensional line and a
//! starting position, the cheapest way to visit every point is to walk to
//! the nearer extreme first and then sweep to the farther one; every
//! intermediate point is covered by that sweep.  [`solver`] proves the
//! closed-form formula for that tour, and [`scenario`] draws random point
//! sets and solves them, either as a one-shot call or through the mutable
//! [`scenario::NumberLine`] configuration.
//!
//! Positions are integer coordinates ("ticks") on the line; a caller that
//! works in some other unit scales into ticks first.

use vstd::prelude::*;

pub mod scenario;
pub mod solver;

pub use scenario::generate_data;
pub use scenario::NumberLine;
pub use solver::find_best_path;

verus! {

/// Largest magnitude a position may have.
///
/// Confining every coordinate to `[-POSITION_LIMIT, POSITION_LIMIT]`
/// (the value is 2^60) guarantees that every distance the solver adds up
/// fits in an `i64` with room to spare.
pub const POSITION_LIMIT: i64 = 0x1000_0000_0000_0000;

/// A position the library is prepared to do arithmetic on.
pub open spec fn valid_position(p: i64) -> bool {
    -POSITION_LIMIT <= p <= POSITION_LIMIT
}

/// Why a request was rejected instead of answered with a distance.
#[derive(Clone, Copy, Debug, PartialEq, Eq, Structural)]
pub enum Error {
    /// The input does not describe a solvable scenario: an empty point
    /// set, a zero point count, or a range whose start does not precede
    /// its end.
    InvalidInput,
}

} // verus!
