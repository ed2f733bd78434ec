//! The ways in which the engine turns an input down.

use vstd::prelude::*;

verus! {

/// Why a mass or a ray was not admitted.
#[derive(Clone, Copy, Debug, PartialEq, Eq, Structural)]
pub enum EngineError {
    /// The mass, or the horizon radius that follows from it, is not positive.
    InvalidMass,
    /// The ray would start on or inside the horizon.
    BelowHorizon,
}

} // verus!
