//! Velocities, and the integrator that applies them once per tick.

use vstd::prelude::*;
use crate::fixed::{lemma_scaled_product_error, mul_scaled, representable, scaled_product, SCALE};
use crate::vector::{lemma_compose_identity, Quat, Vec3};

verus! {

/// How fast an entity moves and turns. `linvel` is in world units per second;
/// `angvel` is the rotation that one tick adds to the entity's orientation.
/// A velocity persists until a controller overwrites it: nothing damps it.
#[derive(Clone, Copy, Debug, PartialEq, Eq, Structural)]
pub struct Velocity {
    pub linvel: Vec3,
    pub angvel: Quat,
}

/// Where an entity is and how it is turned.
#[derive(Clone, Copy, Debug, PartialEq, Eq, Structural)]
pub struct Transform {
    pub translation: Vec3,
    pub rotation: Quat,
}

/// An entity that moves: the integrator acts on every entity that has both a
/// transform and a velocity, and on no other.
#[derive(Clone, Copy, Debug, PartialEq, Eq, Structural)]
pub struct Body {
    pub transform: Transform,
    pub velocity: Velocity,
}

impl Velocity {
    /// The velocity of an entity at rest: no motion and no turning.
    pub fn zero() -> (v: Velocity)
        ensures
            v.linvel == (Vec3 { x: 0, y: 0, z: 0 }),
            v.angvel == Quat::identity(),
    {
        Velocity { linvel: Vec3::zero(), angvel: Quat::identity() }
    }
}

impl Transform {
    /// The transform of an entity at the origin, turned no way.
    pub fn identity() -> (t: Transform)
        ensures
            t.translation == (Vec3 { x: 0, y: 0, z: 0 }),
            t.rotation == Quat::identity(),
    {
        Transform { translation: Vec3::zero(), rotation: Quat::identity() }
    }

    /// The transform of an entity at `translation`, turned no way.
    pub fn from_translation(translation: Vec3) -> (t: Transform)
        ensures
            t.translation == translation,
            t.rotation == Quat::identity(),
    {
        Transform { translation, rotation: Quat::identity() }
    }
}

/// The coordinate `position` after moving at `speed` for `delta` seconds.
pub open spec fn advanced(position: int, speed: int, delta: int) -> int {
    position + scaled_product(speed, delta)
}

impl Body {
    /// Whether one tick of `delta` seconds leaves the body in a place and an
    /// orientation that can be stored.
    pub open spec fn can_step(self, delta: i64) -> bool {
        &&& representable(advanced(self.transform.translation.x as int, self.velocity.linvel.x as int, delta as int))
        &&& representable(advanced(self.transform.translation.y as int, self.velocity.linvel.y as int, delta as int))
        &&& representable(advanced(self.transform.translation.z as int, self.velocity.linvel.z as int, delta as int))
        &&& self.velocity.angvel.composable(self.transform.rotation)
    }

    /// The body one tick of `delta` seconds later: it has moved by its linear
    /// velocity times `delta`, its angular velocity has been applied after
    /// its orientation, and its velocity is as it was.
    pub open spec fn stepped(self, delta: i64) -> Body {
        Body {
            transform: Transform {
                translation: Vec3 {
                    x: advanced(self.transform.translation.x as int, self.velocity.linvel.x as int, delta as int) as i64,
                    y: advanced(self.transform.translation.y as int, self.velocity.linvel.y as int, delta as int) as i64,
                    z: advanced(self.transform.translation.z as int, self.velocity.linvel.z as int, delta as int) as i64,
                },
                rotation: self.velocity.angvel.spec_compose(self.transform.rotation),
            },
            velocity: self.velocity,
        }
    }

    /// Tells whether [`Body::step`] may be called with this `delta`.
    pub fn steppable(&self, delta: i64) -> (ok: bool)
        ensures
            ok == self.can_step(delta),
    {
        let t = &self.transform.translation;
        let v = &self.velocity.linvel;
        coordinate_fits(t.x, v.x, delta) && coordinate_fits(t.y, v.y, delta) && coordinate_fits(
            t.z,
            v.z,
            delta,
        ) && self.velocity.angvel.can_compose(&self.transform.rotation)
    }

    /// Advances the body by one tick of `delta` seconds.
    pub fn step(&mut self, delta: i64)
        requires
            old(self).can_step(delta),
        ensures
            *final(self) == old(self).stepped(delta),
    {
        let t = self.transform.translation;
        let v = self.velocity.linvel;
        self.transform.translation = Vec3 {
            x: advance_coordinate(t.x, v.x, delta),
            y: advance_coordinate(t.y, v.y, delta),
            z: advance_coordinate(t.z, v.z, delta),
        };
        self.transform.rotation = self.velocity.angvel.compose(&self.transform.rotation);
    }
}

fn coordinate_fits(position: i64, speed: i64, delta: i64) -> (ok: bool)
    ensures
        ok == representable(advanced(position as int, speed as int, delta as int)),
{
    let moved: i128 = position as i128 + mul_scaled(speed, delta);
    moved >= i64::MIN as i128 && moved <= i64::MAX as i128
}

fn advance_coordinate(position: i64, speed: i64, delta: i64) -> (moved: i64)
    requires
        representable(advanced(position as int, speed as int, delta as int)),
    ensures
        moved == advanced(position as int, speed as int, delta as int),
{
    (position as i128 + mul_scaled(speed, delta)) as i64
}

/// Whether every body of `bodies` can take a tick of `delta` seconds.
pub open spec fn all_can_step(bodies: Seq<Body>, delta: i64) -> bool {
    forall|i: int| 0 <= i < bodies.len() ==> (#[trigger] bodies[i]).can_step(delta)
}

/// Tells whether [`update_position`] may be called on these bodies.
pub fn all_steppable(bodies: &Vec<Body>, delta: i64) -> (ok: bool)
    ensures
        ok == all_can_step(bodies@, delta),
{
    let mut i: usize = 0;
    while i < bodies.len()
        invariant
            i <= bodies.len(),
            forall|j: int| 0 <= j < i ==> (#[trigger] bodies@[j]).can_step(delta),
        decreases bodies.len() - i,
    {
        if !bodies[i].steppable(delta) {
            return false;
        }
        i += 1;
    }
    true
}

/// The integrator: advances every body by one tick of `delta` seconds. It
/// runs after the controllers of the tick have written their velocities, so
/// a velocity written in a tick takes effect in that same tick.
pub fn update_position(bodies: &mut Vec<Body>, delta: i64)
    requires
        all_can_step(old(bodies)@, delta),
    ensures
        final(bodies)@.len() == old(bodies)@.len(),
        forall|i: int| 0 <= i < old(bodies)@.len() ==> final(bodies)@[i] == (#[trigger] old(bodies)@[i]).stepped(delta),
{
    let ghost before = bodies@;
    let mut i: usize = 0;
    while i < bodies.len()
        invariant
            i <= bodies.len(),
            bodies@.len() == before.len(),
            all_can_step(before, delta),
            forall|j: int| 0 <= j < i ==> bodies@[j] == (#[trigger] before[j]).stepped(delta),
            forall|j: int| i <= j < before.len() ==> bodies@[j] == before[j],
        decreases bodies.len() - i,
    {
        let mut body = bodies[i];
        assert(before[i as int].can_step(delta));
        body.step(delta);
        bodies.set(i, body);
        i += 1;
    }
}

/// Integrator linearity: one tick displaces a body by its linear velocity
/// times the timestep and by nothing else, and leaves its velocity as it
/// was. In stored units the displacement along an axis is
/// `linvel * delta / SCALE`: exact whenever that quotient is whole, and
/// otherwise short of it by less than one stored unit.
pub proof fn lemma_step_is_linear(body: Body, delta: i64)
    requires
        body.can_step(delta),
    ensures
        body.stepped(delta).velocity == body.velocity,
        displaced(body.transform.translation.x, body.stepped(delta).transform.translation.x, body.velocity.linvel.x, delta),
        displaced(body.transform.translation.y, body.stepped(delta).transform.translation.y, body.velocity.linvel.y, delta),
        displaced(body.transform.translation.z, body.stepped(delta).transform.translation.z, body.velocity.linvel.z, delta),
{
    lemma_scaled_product_error(body.velocity.linvel.x as int, delta as int);
    lemma_scaled_product_error(body.velocity.linvel.y as int, delta as int);
    lemma_scaled_product_error(body.velocity.linvel.z as int, delta as int);
}

/// Whether the coordinate `after` is the coordinate `before` moved at `speed`
/// for `delta` seconds, to within the rounding of one stored unit.
pub open spec fn displaced(before: i64, after: i64, speed: i64, delta: i64) -> bool {
    let travelled = SCALE * (after - before);
    &&& after - before == scaled_product(speed as int, delta as int)
    &&& -SCALE < speed * delta - travelled < SCALE
    &&& (speed * delta) % (SCALE as int) == 0 ==> travelled == speed * delta
}

/// A body at rest stays where it is and as it is turned, whatever the
/// timestep.
pub proof fn lemma_rest_is_fixed(transform: Transform, delta: i64)
    ensures
        (Body { transform, velocity: Velocity { linvel: Vec3 { x: 0, y: 0, z: 0 }, angvel: Quat::identity() } }).can_step(delta),
        (Body { transform, velocity: Velocity { linvel: Vec3 { x: 0, y: 0, z: 0 }, angvel: Quat::identity() } }).stepped(delta).transform == transform,
{
    lemma_compose_identity(transform.rotation);
    assert(0 * (delta as int) == 0);
}

} // verus!
