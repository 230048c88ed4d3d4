//! The library's single source of randomness.
//!
//! Collision geometry falls back to a uniformly random unit direction when
//! a normal would otherwise be a zero vector. Nothing is promised about a
//! random value, so the callers state only what holds of every outcome.

use vstd::prelude::*;
use crate::fxp::{floor_mod, TWO_PI_FX};

verus! {

/// Relies on rand::random: draws a value from the standard uniform
/// distribution of the type. Nothing is promised of the result.
pub assume_specification<T>[ rand::random::<T> ]() -> (r: T)
    where
        rand::distr::StandardUniform: rand::distr::Distribution<T>,
;

/// A random angle in `[0, 2 pi)` fixed-point radians.
pub fn random_angle() -> (r: i64)
    ensures
        0 <= r < TWO_PI_FX,
{
    let raw: u64 = rand::random::<u64>();
    let masked: i64 = (raw & 0x7fff_ffff_ffff_ffff) as i64;
    floor_mod(masked, TWO_PI_FX)
}

} // verus!
