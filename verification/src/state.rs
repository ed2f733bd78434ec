//! The dynamical state of one ray, and the two records by which the host
//! hands floating-point results to the engine.

use vstd::prelude::*;
use crate::scalar::Scalar;
use crate::trail::Point;

verus! {

/// Where a ray is and how it moves, in polar coordinates about the mass, with
/// the two constants of its motion.
#[derive(Clone, Copy, Debug, PartialEq, Eq, Structural)]
pub struct GeodesicState {
    /// Radial coordinate.
    pub r: Scalar,
    /// Azimuth.
    pub phi: Scalar,
    /// Rate of change of `r` along the ray.
    pub dr: Scalar,
    /// Rate of change of `phi` along the ray.
    pub dphi: Scalar,
    /// Conserved energy, fixed when the ray is made.
    pub e: Scalar,
    /// Conserved angular momentum, fixed when the ray is made.
    pub l: Scalar,
}

/// A ray about to be spawned: its initial state, the lapse factor
/// `1 - rs / r` at its starting point, and that point in Cartesian form, both
/// in full precision and as the trail will store it.
#[derive(Clone, Copy, Debug, PartialEq, Eq, Structural)]
pub struct Launch {
    pub state: GeodesicState,
    pub lapse: Scalar,
    pub x: Scalar,
    pub y: Scalar,
    pub start: Point,
}

/// What one integration step of a ray's state came to: the four evolved
/// coordinates, the Cartesian position they give, that position as the trail
/// would store it, and its distance from the newest point of the ray's trail.
/// The distance means nothing while the trail is empty.
#[derive(Clone, Copy, Debug, PartialEq, Eq, Structural)]
pub struct StepOutcome {
    pub r: Scalar,
    pub phi: Scalar,
    pub dr: Scalar,
    pub dphi: Scalar,
    pub x: Scalar,
    pub y: Scalar,
    pub point: Point,
    pub gap: Scalar,
}

impl GeodesicState {
    /// This state after a step: the four coordinates are the outcome's, the
    /// two constants stay.
    pub open spec fn moved(self, outcome: StepOutcome) -> GeodesicState {
        GeodesicState {
            r: outcome.r,
            phi: outcome.phi,
            dr: outcome.dr,
            dphi: outcome.dphi,
            e: self.e,
            l: self.l,
        }
    }

    /// Takes over the evolved coordinates of `outcome` and keeps `e` and `l`.
    pub fn step_to(&self, outcome: &StepOutcome) -> (next: GeodesicState)
        ensures
            next == self.moved(*outcome),
            next.e == self.e,
            next.l == self.l,
    {
        GeodesicState {
            r: outcome.r,
            phi: outcome.phi,
            dr: outcome.dr,
            dphi: outcome.dphi,
            e: self.e,
            l: self.l,
        }
    }
}

} // verus!
