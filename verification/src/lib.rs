//! A multi-region SEIRDS epidemic simulator: a delay-aware fourth-order
//! Runge-Kutta integrator over a seven-compartment disease model, with
//! pluggable intervention measures and inter-region traffic coupling.
//!
//! All quantities are exact fixed-point scalars (see [`fixed`]), so every
//! arithmetic step either yields its exact truncated value or reports
//! failure; nothing overflows silently and nothing panics.

pub mod coupling;
pub mod errors;
pub mod fixed;
pub mod graph;
pub mod history;
pub mod integrator;
pub mod laws;
pub mod model;
pub mod params;
pub mod sim;
pub mod state;
