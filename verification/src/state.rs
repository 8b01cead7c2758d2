//! The per-region, per-step compartment vector.

use vstd::prelude::*;

verus! {

/// One region's compartment values at one time step, as fixed-point
/// scalars: the ordered seven-tuple (susceptible, exposed, infectious,
/// recovered, dead, population, hospitalized).
///
/// The population compartment is advanced by its own differential
/// equation rather than derived from the other compartments, so the two
/// may drift apart over a long run; callers who care should compare
/// `population` against the compartment sum themselves.
#[derive(Clone, Copy, Debug, PartialEq, Eq, Structural)]
pub struct StateVector {
    pub susceptible: i64,
    pub exposed: i64,
    pub infectious: i64,
    pub recovered: i64,
    pub dead: i64,
    pub population: i64,
    pub hospitalized: i64,
}

} // verus!
