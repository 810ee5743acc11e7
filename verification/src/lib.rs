//! Simulation engine for quantum key distribution.
//!
//! Two parties exchange a sequence of randomly encoded quantum bits over a
//! simulated channel, optionally intercepted by an eavesdropper and degraded
//! by a configurable noise model, then compare encoding bases to extract a
//! shared key and estimate the channel's error rate.

pub mod models;
mod entropy;
pub mod pipeline;
pub mod sifting;
pub mod session;
pub mod simulator;
pub mod sarg04;

pub use models::{QuantumBit, SimulationState, HackerConfig, NoiseModel, Basis, Phase};
pub use simulator::BB84Simulator;
pub use sarg04::SARG04Simulator;

use vstd::prelude::*;

verus! {

/// The fixed fraction scale for all probability parameters: a rate of
/// `PPM_SCALE` means probability one.
pub const PPM_SCALE: u32 = 1_000_000;

} // verus!
