use black_hole::error::EngineError;
use black_hole::mass::Mass;
use black_hole::ray::{Ray, RayStatus};
use black_hole::scalar::Scalar;
use black_hole::state::{GeodesicState, Launch};
use black_hole::trail::Point;

const G: f64 = 6.67430e-11;
const C: f64 = 299792458.0;

fn scalar(x: f64) -> Scalar {
    Scalar::from_bits(x.to_bits())
}

fn radius_of(mass: f64) -> f64 {
    2.0 * G * mass / (C * C)
}

fn launch_with_lapse(lapse: f64) -> Launch {
    Launch {
        state: GeodesicState {
            r: scalar(5.0),
            phi: scalar(0.25),
            dr: scalar(-1.0),
            dphi: scalar(0.125),
            e: scalar(0.75),
            l: scalar(3.125),
        },
        lapse: scalar(lapse),
        x: scalar(4.0),
        y: scalar(3.0),
        start: Point { x: 4.0f32.to_bits(), y: 3.0f32.to_bits() },
    }
}

#[test]
fn a_positive_mass_is_admitted_with_its_radius() {
    let kg = 8.54e36;
    let mass = Mass::new(scalar(kg), scalar(radius_of(kg))).unwrap();
    assert_eq!(mass.mass(), scalar(kg));
    assert_eq!(mass.schwarzschild_radius(), scalar(radius_of(kg)));
    let metres = f64::from_bits(mass.schwarzschild_radius().to_bits());
    assert!((metres - 1.2683881739654682e10).abs() < 1.0e-3 * 1.0e10);
}

#[test]
fn a_zero_mass_is_invalid() {
    assert_eq!(Mass::new(scalar(0.0), scalar(radius_of(0.0))), Err(EngineError::InvalidMass));
    assert_eq!(Mass::new(scalar(-0.0), scalar(1.0)), Err(EngineError::InvalidMass));
}

#[test]
fn a_negative_mass_is_invalid() {
    assert_eq!(Mass::new(scalar(-1.0), scalar(radius_of(-1.0))), Err(EngineError::InvalidMass));
    assert_eq!(Mass::new(scalar(-1.0), scalar(1.0)), Err(EngineError::InvalidMass));
    assert_eq!(Mass::new(scalar(f64::NEG_INFINITY), scalar(1.0)), Err(EngineError::InvalidMass));
}

#[test]
fn a_mass_that_is_no_number_is_invalid() {
    assert_eq!(Mass::new(scalar(f64::NAN), scalar(1.0)), Err(EngineError::InvalidMass));
}

#[test]
fn a_radius_that_is_not_positive_is_invalid() {
    assert_eq!(Mass::new(scalar(1.0), scalar(0.0)), Err(EngineError::InvalidMass));
    assert_eq!(Mass::new(scalar(1.0), scalar(-2.0)), Err(EngineError::InvalidMass));
    assert_eq!(Mass::new(scalar(1.0), scalar(f64::NAN)), Err(EngineError::InvalidMass));
    let vanishing = 1.0e-320;
    assert_eq!(radius_of(vanishing), 0.0);
    assert_eq!(
        Mass::new(scalar(vanishing), scalar(radius_of(vanishing))),
        Err(EngineError::InvalidMass)
    );
}

#[test]
fn a_launch_outside_the_horizon_gives_a_living_ray() {
    let launch = launch_with_lapse(0.5);
    let ray = match Ray::new(&launch, 800) {
        Ok(ray) => ray,
        Err(_) => panic!("the launch is outside the horizon"),
    };
    assert_eq!(ray.status(), RayStatus::Alive);
    assert!(ray.is_alive());
    assert_eq!(ray.state(), launch.state);
    assert_eq!(ray.position(), (scalar(4.0), scalar(3.0)));
    assert_eq!(ray.trail().points(), &vec![launch.start]);
    assert_eq!(ray.trail().capacity(), 800);
}

#[test]
fn a_launch_on_the_horizon_is_turned_down() {
    assert!(matches!(Ray::new(&launch_with_lapse(0.0), 800), Err(EngineError::BelowHorizon)));
    assert!(matches!(Ray::new(&launch_with_lapse(-0.0), 800), Err(EngineError::BelowHorizon)));
}

#[test]
fn a_launch_inside_the_horizon_is_turned_down() {
    assert!(matches!(Ray::new(&launch_with_lapse(-0.25), 800), Err(EngineError::BelowHorizon)));
    assert!(matches!(
        Ray::new(&launch_with_lapse(f64::NEG_INFINITY), 800),
        Err(EngineError::BelowHorizon)
    ));
}

#[test]
fn the_smallest_positive_lapse_is_admitted() {
    assert!(Ray::new(&launch_with_lapse(f64::from_bits(1)), 800).is_ok());
}
