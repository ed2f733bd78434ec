//! The central body that bends the rays.

use vstd::prelude::*;
use crate::error::EngineError;
use crate::scalar::Scalar;

verus! {

/// A body of positive mass together with the radius of its horizon.
///
/// The radius is `2 G m / c^2`. That product is floating-point arithmetic, so
/// the caller evaluates it and hands both numbers over; the constructor
/// admits the pair only if both are positive, and nothing changes them later.
#[derive(Clone, Copy, Debug, PartialEq, Eq, Structural)]
pub struct Mass {
    mass: Scalar,
    radius: Scalar,
}

impl Mass {
    /// The mass, in kilograms.
    pub closed spec fn mass_kg(self) -> Scalar {
        self.mass
    }

    /// The radius of the horizon, in metres.
    pub closed spec fn horizon(self) -> Scalar {
        self.radius
    }

    /// Both the mass and the horizon radius are positive numbers.
    pub open spec fn wf(self) -> bool {
        self.mass_kg().is_positive() && self.horizon().is_positive()
    }

    /// Admits a mass with its horizon radius, or turns the pair down as
    /// `InvalidMass` when either is zero, negative or not a number.
    pub fn new(mass_kg: Scalar, schwarzschild_radius: Scalar) -> (res: Result<Mass, EngineError>)
        ensures
            res is Ok <==> mass_kg.is_positive() && schwarzschild_radius.is_positive(),
            res is Ok ==> res->Ok_0.wf() && res->Ok_0.mass_kg() == mass_kg && res->Ok_0.horizon()
                == schwarzschild_radius,
            res is Err ==> res->Err_0 == EngineError::InvalidMass,
    {
        let zero = Scalar::zero();
        if mass_kg.gt(zero) && schwarzschild_radius.gt(zero) {
            Ok(Mass { mass: mass_kg, radius: schwarzschild_radius })
        } else {
            Err(EngineError::InvalidMass)
        }
    }

    /// The mass, in kilograms.
    pub fn mass(&self) -> (m: Scalar)
        ensures
            m == self.mass_kg(),
    {
        self.mass
    }

    /// The radius of the horizon, in metres.
    pub fn schwarzschild_radius(&self) -> (r: Scalar)
        ensures
            r == self.horizon(),
    {
        self.radius
    }
}

} // verus!
