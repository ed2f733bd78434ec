//! The discrete core of a light-ray tracer around a central mass: which rays
//! live, which are captured or escape, what their trails hold, and in what
//! order the survivors are kept.
//!
//! Real numbers cross this library as IEEE-754 bit patterns (see [`scalar`]).
//! The library orders and compares them exactly; arithmetic on them is the
//! host's business.

pub mod camera;
pub mod error;
pub mod fps;
pub mod input;
pub mod mass;
pub mod ray;
pub mod ray_set;
pub mod scalar;
pub mod screenshot;
pub mod shader_manager;
pub mod state;
pub mod trail;
