//! The enemy. No controller acts on it: it keeps the velocity it is spawned
//! with, and the integrator alone moves it.

use vstd::prelude::*;
use crate::movement::{Body, Transform, Velocity};
use crate::vector::{Quat, Vec3};

verus! {

/// An enemy as it enters the world: at (5.0, 0.0, 5.0), turned no way,
/// drifting along `z` at one world unit per second.
pub fn spawn_enemy() -> (enemy: Body)
    ensures
        enemy.transform.translation == (Vec3 { x: 5_000_000, y: 0, z: 5_000_000 }),
        enemy.transform.rotation == Quat::identity(),
        enemy.velocity.linvel == (Vec3 { x: 0, y: 0, z: 1_000_000 }),
        enemy.velocity.angvel == Quat::identity(),
{
    Body {
        transform: Transform::from_translation(Vec3 { x: 5_000_000, y: 0, z: 5_000_000 }),
        velocity: Velocity { linvel: Vec3 { x: 0, y: 0, z: 1_000_000 }, angvel: Quat::identity() },
    }
}

} // verus!
