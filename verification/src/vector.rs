//! Plain vector and rotation values in fixed point.

use vstd::prelude::*;
use crate::fixed::{toward_zero, SCALE};

verus! {

/// A point or direction of the plane.
#[derive(Clone, Copy, Debug, PartialEq, Eq, Structural)]
pub struct Vec2 {
    pub x: i64,
    pub y: i64,
}

/// A point or direction of space. The ground is the plane `y == 0`.
#[derive(Clone, Copy, Debug, PartialEq, Eq, Structural)]
pub struct Vec3 {
    pub x: i64,
    pub y: i64,
    pub z: i64,
}

/// A rotation as a quaternion `w + xi + yj + zk`. A rotation proper has unit
/// length, so its parts lie within `-SCALE ..= SCALE`.
#[derive(Clone, Copy, Debug, PartialEq, Eq, Structural)]
pub struct Quat {
    pub x: i32,
    pub y: i32,
    pub z: i32,
    pub w: i32,
}

impl Vec2 {
    /// The origin of the plane.
    pub fn zero() -> (v: Vec2)
        ensures
            v == (Vec2 { x: 0, y: 0 }),
    {
        Vec2 { x: 0, y: 0 }
    }
}

impl Vec3 {
    /// The origin of space.
    pub fn zero() -> (v: Vec3)
        ensures
            v == (Vec3 { x: 0, y: 0, z: 0 }),
    {
        Vec3 { x: 0, y: 0, z: 0 }
    }
}

/// The `x` part of the Hamilton product `a * b`, before it is scaled back and
/// rounded.
pub open spec fn hamilton_x(a: Quat, b: Quat) -> int {
    a.w * b.x + a.x * b.w + a.y * b.z - a.z * b.y
}

/// The `y` part of the Hamilton product `a * b`, before it is scaled back and
/// rounded.
pub open spec fn hamilton_y(a: Quat, b: Quat) -> int {
    a.w * b.y - a.x * b.z + a.y * b.w + a.z * b.x
}

/// The `z` part of the Hamilton product `a * b`, before it is scaled back and
/// rounded.
pub open spec fn hamilton_z(a: Quat, b: Quat) -> int {
    a.w * b.z + a.x * b.y - a.y * b.x + a.z * b.w
}

/// The `w` part of the Hamilton product `a * b`, before it is scaled back and
/// rounded.
pub open spec fn hamilton_w(a: Quat, b: Quat) -> int {
    a.w * b.w - a.x * b.x - a.y * b.y - a.z * b.z
}

/// Whether `v` can be stored in one part of a [`Quat`].
pub open spec fn quat_part(v: int) -> bool {
    i32::MIN <= v <= i32::MAX
}

impl Quat {
    /// The rotation that turns nothing.
    pub open spec fn spec_identity() -> Quat {
        Quat { x: 0, y: 0, z: 0, w: 1_000_000 }
    }

    /// The rotation that turns nothing.
    #[verifier::when_used_as_spec(spec_identity)]
    pub fn identity() -> (q: Quat)
        ensures
            q == Quat::spec_identity(),
    {
        Quat { x: 0, y: 0, z: 0, w: 1_000_000 }
    }

    /// Whether the rotation that applies `first` and then `self` can be
    /// stored: every part of the rounded product fits.
    pub open spec fn composable(self, first: Quat) -> bool {
        &&& quat_part(toward_zero(hamilton_x(self, first), SCALE as int))
        &&& quat_part(toward_zero(hamilton_y(self, first), SCALE as int))
        &&& quat_part(toward_zero(hamilton_z(self, first), SCALE as int))
        &&& quat_part(toward_zero(hamilton_w(self, first), SCALE as int))
    }

    /// The rotation that applies `first` and then `self`: the Hamilton
    /// product `self * first`, each part rounded toward zero.
    pub open spec fn spec_compose(self, first: Quat) -> Quat {
        Quat {
            x: toward_zero(hamilton_x(self, first), SCALE as int) as i32,
            y: toward_zero(hamilton_y(self, first), SCALE as int) as i32,
            z: toward_zero(hamilton_z(self, first), SCALE as int) as i32,
            w: toward_zero(hamilton_w(self, first), SCALE as int) as i32,
        }
    }

    /// Tells whether [`Quat::compose`] may be called on this pair.
    pub fn can_compose(&self, first: &Quat) -> (ok: bool)
        ensures
            ok == self.composable(*first),
    {
        let p = wide_product(self, first);
        fits_part(p.0) && fits_part(p.1) && fits_part(p.2) && fits_part(p.3)
    }

    /// Composes two rotations: `first` is applied first, `self` after it.
    pub fn compose(&self, first: &Quat) -> (q: Quat)
        requires
            self.composable(*first),
        ensures
            q == self.spec_compose(*first),
    {
        let p = wide_product(self, first);
        Quat { x: p.0 as i32, y: p.1 as i32, z: p.2 as i32, w: p.3 as i32 }
    }
}

fn fits_part(v: i128) -> (ok: bool)
    ensures
        ok == quat_part(v as int),
{
    v >= i32::MIN as i128 && v <= i32::MAX as i128
}

fn signed_product(a: i32, b: i32) -> (p: i128)
    ensures
        p == a * b,
        -0x4000_0000_0000_0000 <= p <= 0x4000_0000_0000_0000,
{
    assert(-0x4000_0000_0000_0000 <= (a as int) * (b as int) <= 0x4000_0000_0000_0000)
        by (nonlinear_arith)
        requires
            -0x8000_0000 <= a <= 0x7fff_ffff,
            -0x8000_0000 <= b <= 0x7fff_ffff,
    ;
    (a as i128) * (b as i128)
}

/// The four parts of the rounded Hamilton product `a * b`, unnarrowed.
fn wide_product(a: &Quat, b: &Quat) -> (p: (i128, i128, i128, i128))
    ensures
        p.0 == toward_zero(hamilton_x(*a, *b), SCALE as int),
        p.1 == toward_zero(hamilton_y(*a, *b), SCALE as int),
        p.2 == toward_zero(hamilton_z(*a, *b), SCALE as int),
        p.3 == toward_zero(hamilton_w(*a, *b), SCALE as int),
{
    let s: i128 = SCALE as i128;
    let x: i128 = signed_product(a.w, b.x) + signed_product(a.x, b.w) + signed_product(a.y, b.z)
        - signed_product(a.z, b.y);
    let y: i128 = signed_product(a.w, b.y) - signed_product(a.x, b.z) + signed_product(a.y, b.w)
        + signed_product(a.z, b.x);
    let z: i128 = signed_product(a.w, b.z) + signed_product(a.x, b.y) - signed_product(a.y, b.x)
        + signed_product(a.z, b.w);
    let w: i128 = signed_product(a.w, b.w) - signed_product(a.x, b.x) - signed_product(a.y, b.y)
        - signed_product(a.z, b.z);
    (x / s, y / s, z / s, w / s)
}

/// Composing with the identity, on either side, changes nothing.
pub proof fn lemma_compose_identity(q: Quat)
    ensures
        Quat::identity().composable(q),
        q.composable(Quat::identity()),
        Quat::identity().spec_compose(q) == q,
        q.spec_compose(Quat::identity()) == q,
{
    let i = Quat::identity();
    assert(hamilton_x(i, q) == SCALE * q.x && hamilton_x(q, i) == SCALE * q.x);
    assert(hamilton_y(i, q) == SCALE * q.y && hamilton_y(q, i) == SCALE * q.y);
    assert(hamilton_z(i, q) == SCALE * q.z && hamilton_z(q, i) == SCALE * q.z);
    assert(hamilton_w(i, q) == SCALE * q.w && hamilton_w(q, i) == SCALE * q.w);
}

} // verus!
