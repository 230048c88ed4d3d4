//! A verified 2D physics playground core: a rigid-body engine with
//! separating-axis collision detection and impulse resolution, and a
//! smoothed-particle-hydrodynamics fluid solver with a spatial hash.
//!
//! All scalar quantities are fixed-point numbers: an `i64` holding the
//! real value multiplied by [`fxp::SCALE`]. Arithmetic saturates at the
//! `i64` range instead of overflowing.

use vstd::prelude::*;

pub mod aabb;
pub mod body;
pub mod collisions;
pub mod contact;
pub mod fluid;
pub mod fxp;
pub mod resolver;
pub mod rigid_sim;
pub mod rng;
pub mod sph;
pub mod vec2;
pub mod world;

verus! {

/// A marker for data shaped for the renderer: the render snapshots
/// implement it.
pub trait DataToSend {

}

} // verus!
