//! The failures a simulation run can report.  Every failure is local
//! and structural: it halts the affected run instead of letting a
//! poisoned value spread through the trajectory.

use vstd::prelude::*;

verus! {

/// Why a graph construction or a simulation run stopped.
#[derive(Clone, Copy, Debug, PartialEq, Eq, Structural)]
pub enum SimError {
    /// Province `province` declared neighbour number `neighbor`, whose
    /// name matches no province.
    UnresolvedNeighbor { province: usize, neighbor: usize },
    /// A mean over provinces was asked of an empty graph.
    EmptyGraph,
    /// The step size is not strictly positive.
    InvalidStepSize,
    /// A horizon, padding length or mean computation left the range the
    /// machine carrier can hold.
    Overflow,
    /// One integration or coupling step failed: arithmetic left the
    /// carrier, a population was not strictly positive, or a delayed
    /// lookup could not be answered.
    StepFailed,
}

} // verus!
