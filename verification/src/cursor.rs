//! Cursor aiming: the point of the ground under the pointer, which the
//! player turns to face.

use vstd::prelude::*;
use crate::fixed::{narrow, representable, toward_zero, SCALE};
use crate::vector::{Vec2, Vec3};

verus! {

/// A pixel of the window, counted from its top left corner.
#[derive(Clone, Copy, Debug, PartialEq, Eq, Structural)]
pub struct Pointer {
    pub x: u16,
    pub y: u16,
}

/// What the cursor system reads of the window: its size in pixels, and the
/// pixel under the pointer while the pointer is inside the window.
#[derive(Clone, Copy, Debug, PartialEq, Eq, Structural)]
pub struct Window {
    pub width: u16,
    pub height: u16,
    pub cursor: Option<Pointer>,
}

/// Where the camera stands and how it is turned, as three directions: to its
/// right, upward and forward.
#[derive(Clone, Copy, Debug, PartialEq, Eq, Structural)]
pub struct CameraFrame {
    pub origin: Vec3,
    pub right: Vec3,
    pub up: Vec3,
    pub forward: Vec3,
}

/// The point of the ground that the player turns to face: its `x` and `y`
/// are the world's `x` and `z`.
#[derive(Clone, Copy, Debug, PartialEq, Eq, Structural)]
pub struct CursorPosition {
    pub position: Vec2,
}

impl CursorPosition {
    /// The cursor before the pointer has been seen: on the origin.
    pub fn origin() -> (cursor: CursorPosition)
        ensures
            cursor.position == (Vec2 { x: 0, y: 0 }),
    {
        CursorPosition { position: Vec2::zero() }
    }
}

/// Whether no part of `direction` is longer than one world unit.
pub open spec fn within_unit(direction: Vec3) -> bool {
    &&& -SCALE <= direction.x <= SCALE
    &&& -SCALE <= direction.y <= SCALE
    &&& -SCALE <= direction.z <= SCALE
}

impl CameraFrame {
    /// The three directions of a frame are of unit length at most.
    pub open spec fn well_formed(self) -> bool {
        within_unit(self.right) && within_unit(self.up) && within_unit(self.forward)
    }

    /// Tells whether the frame is well formed.
    pub fn is_well_formed(&self) -> (ok: bool)
        ensures
            ok == self.well_formed(),
    {
        unit_bounded(&self.right) && unit_bounded(&self.up) && unit_bounded(&self.forward)
    }
}

fn unit_bounded(direction: &Vec3) -> (ok: bool)
    ensures
        ok == within_unit(*direction),
{
    -SCALE <= direction.x && direction.x <= SCALE && -SCALE <= direction.y && direction.y <= SCALE
        && -SCALE <= direction.z && direction.z <= SCALE
}

/// One coordinate of the direction of the ray from the camera through a
/// pixel, where `right`, `up` and `forward` are that coordinate of the
/// camera's three directions. The pixel's place in the window is taken from
/// -1 to 1 across and upward; it moves the ray off the forward direction by
/// that much of `right` and `up`. The direction is scaled by the window's
/// width times its height, which keeps it whole and moves no point of the
/// ray.
pub open spec fn ray_component(right: int, up: int, forward: int, window: Window, pointer: Pointer) -> int {
    right * (2 * pointer.x - window.width) * window.height + up * (window.height - 2 * pointer.y)
        * window.width + forward * window.width * window.height
}

/// The direction of the ray from the camera through a pixel.
pub open spec fn ray_direction(window: Window, camera: CameraFrame, pointer: Pointer) -> (int, int, int) {
    (
        ray_component(camera.right.x as int, camera.up.x as int, camera.forward.x as int, window, pointer),
        ray_component(camera.right.y as int, camera.up.y as int, camera.forward.y as int, window, pointer),
        ray_component(camera.right.z as int, camera.up.z as int, camera.forward.z as int, window, pointer),
    )
}

/// Whether the ray through a pixel never meets the ground: the window has no
/// area, or the ray runs level.
pub open spec fn degenerate(window: Window, camera: CameraFrame, pointer: Pointer) -> bool {
    window.width == 0 || window.height == 0 || ray_direction(window, camera, pointer).1 == 0
}

/// One coordinate of the point where a ray that starts at `origin`, at
/// `height` above the ground, meets the ground, where `along` is that
/// coordinate of the ray's direction and `fall` its vertical coordinate.
pub open spec fn ground_coordinate(origin: int, height: int, along: int, fall: int) -> int {
    origin - toward_zero(along * height, fall)
}

/// The `x` and `z` of the point of the ground under a pixel.
pub open spec fn ground_point(window: Window, camera: CameraFrame, pointer: Pointer) -> (int, int) {
    let d = ray_direction(window, camera, pointer);
    (
        ground_coordinate(camera.origin.x as int, camera.origin.y as int, d.0, d.1),
        ground_coordinate(camera.origin.z as int, camera.origin.y as int, d.2, d.1),
    )
}

/// The point of the ground under a pixel, where there is one that can be
/// stored.
pub open spec fn world_point(window: Window, camera: CameraFrame, pointer: Pointer) -> Option<Vec2> {
    let p = ground_point(window, camera, pointer);
    if !degenerate(window, camera, pointer) && representable(p.0) && representable(p.1) {
        Some(Vec2 { x: p.0 as i64, y: p.1 as i64 })
    } else {
        None
    }
}

fn ray_axis(right: i64, up: i64, forward: i64, window: &Window, pointer: &Pointer) -> (c: i128)
    requires
        -SCALE <= right <= SCALE,
        -SCALE <= up <= SCALE,
        -SCALE <= forward <= SCALE,
    ensures
        c == ray_component(right as int, up as int, forward as int, *window, *pointer),
        -0x80_0000_0000_0000 <= c <= 0x80_0000_0000_0000,
{
    let w: i128 = window.width as i128;
    let h: i128 = window.height as i128;
    let across: i128 = 2 * (pointer.x as i128) - w;
    let upward: i128 = h - 2 * (pointer.y as i128);
    assert(-0x20_0000_0000_0000 <= (right as int) * across * h <= 0x20_0000_0000_0000
        && -0x20_0000_0000_0000 <= (right as int) * across <= 0x20_0000_0000_0000)
        by (nonlinear_arith)
        requires
            -1_000_000 <= right <= 1_000_000,
            -0x2_0000 <= across <= 0x2_0000,
            0 <= h <= 0xffff,
    ;
    assert(-0x20_0000_0000_0000 <= (up as int) * upward * w <= 0x20_0000_0000_0000
        && -0x20_0000_0000_0000 <= (up as int) * upward <= 0x20_0000_0000_0000)
        by (nonlinear_arith)
        requires
            -1_000_000 <= up <= 1_000_000,
            -0x2_0000 <= upward <= 0x2_0000,
            0 <= w <= 0xffff,
    ;
    assert(-0x20_0000_0000_0000 <= (forward as int) * w * h <= 0x20_0000_0000_0000
        && -0x20_0000_0000_0000 <= (forward as int) * w <= 0x20_0000_0000_0000)
        by (nonlinear_arith)
        requires
            -1_000_000 <= forward <= 1_000_000,
            0 <= w <= 0xffff,
            0 <= h <= 0xffff,
    ;
    (right as i128) * across * h + (up as i128) * upward * w + (forward as i128) * w * h
}

fn ground_axis(origin: i64, height: i64, along: i128, fall: i128) -> (c: Option<i64>)
    requires
        -0x80_0000_0000_0000 <= along <= 0x80_0000_0000_0000,
        fall != 0,
    ensures
        c == (if representable(ground_coordinate(origin as int, height as int, along as int, fall as int)) {
            Some(ground_coordinate(origin as int, height as int, along as int, fall as int) as i64)
        } else {
            None::<i64>
        }),
{
    assert(-0x800_0000_0000_0000_0000_0000_0000_0000 <= (along as int) * (height as int)
        <= 0x800_0000_0000_0000_0000_0000_0000_0000) by (nonlinear_arith)
        requires
            -0x80_0000_0000_0000 <= along <= 0x80_0000_0000_0000,
            -0x8000_0000_0000_0000 <= height <= 0x7fff_ffff_ffff_ffff,
    ;
    let numerator: i128 = along * (height as i128);
    proof {
        lemma_quotient_bound(numerator as int, fall as int);
    }
    let run: i128 = numerator / fall;
    narrow(origin as i128 - run)
}

/// A quotient rounded toward zero is no further from zero than what was
/// divided.
proof fn lemma_quotient_bound(n: int, d: int)
    requires
        d != 0,
    ensures
        n >= 0 ==> -n <= toward_zero(n, d) <= n,
        n <= 0 ==> n <= toward_zero(n, d) <= -n,
{
    if n >= 0 {
        lemma_euclid_bound(n, d);
    } else {
        lemma_euclid_bound(-n, d);
    }
}

proof fn lemma_euclid_bound(n: int, d: int)
    by (nonlinear_arith)
    requires
        n >= 0,
        d != 0,
    ensures
        -n <= n / d <= n,
{
}

/// Finds the point of the ground under a pixel: the ray from the camera
/// through the pixel is followed until it meets the plane `y == 0`. There is
/// no such point where the window has no area or the ray runs level, and
/// none is returned where the point cannot be stored.
pub fn window_to_world(window: &Window, camera: &CameraFrame, pointer: &Pointer) -> (hit: Option<Vec2>)
    requires
        camera.well_formed(),
    ensures
        hit == world_point(*window, *camera, *pointer),
{
    if window.width == 0 || window.height == 0 {
        return None;
    }
    let dx = ray_axis(camera.right.x, camera.up.x, camera.forward.x, window, pointer);
    let dy = ray_axis(camera.right.y, camera.up.y, camera.forward.y, window, pointer);
    let dz = ray_axis(camera.right.z, camera.up.z, camera.forward.z, window, pointer);
    if dy == 0 {
        return None;
    }
    let x = ground_axis(camera.origin.x, camera.origin.y, dx, dy);
    let z = ground_axis(camera.origin.z, camera.origin.y, dz, dy);
    match (x, z) {
        (Some(x), Some(z)) => Some(Vec2 { x, y: z }),
        _ => None,
    }
}

/// Where the cursor system leaves the cursor: on the point of the ground
/// under the pointer where there is one, and where it was otherwise.
pub open spec fn tracked_cursor(cursor: CursorPosition, window: Window, camera: CameraFrame) -> CursorPosition {
    match window.cursor {
        Some(pointer) => match world_point(window, camera, pointer) {
            Some(position) => CursorPosition { position },
            None => cursor,
        },
        None => cursor,
    }
}

/// The cursor system: moves the cursor to the point of the ground under the
/// pointer. While the pointer is outside the window, or its ray meets no
/// point of the ground that can be stored, the cursor stays where it was.
pub fn cursor_position(cursor: &mut CursorPosition, window: &Window, camera: &CameraFrame)
    requires
        camera.well_formed(),
    ensures
        *final(cursor) == tracked_cursor(*old(cursor), *window, *camera),
{
    if let Some(pointer) = window.cursor {
        if let Some(position) = window_to_world(window, camera, &pointer) {
            cursor.position = position;
        }
    }
}

/// The point that the player turns to face: the cursor, on the ground.
pub fn look_target(cursor: &CursorPosition) -> (target: Vec3)
    ensures
        target == (Vec3 { x: cursor.position.x, y: 0, z: cursor.position.y }),
{
    Vec3 { x: cursor.position.x, y: 0, z: cursor.position.y }
}

/// A ray that meets no ground moves no cursor: while the pointer is outside
/// the window, the window has no area, or the ray through the pointer runs
/// level, the cursor system leaves the cursor exactly where it was.
pub proof fn lemma_no_ground_keeps_cursor(cursor: CursorPosition, window: Window, camera: CameraFrame)
    requires
        window.cursor matches Some(pointer) ==> degenerate(window, camera, pointer),
    ensures
        tracked_cursor(cursor, window, camera) == cursor,
{
}

/// The point that [`ground_coordinate`] gives lies on the ray, as nearly as
/// whole stored units allow: following the ray from the camera down to the
/// ground leads to it with an error of less than one stored unit.
pub proof fn lemma_ground_coordinate_on_ray(origin: int, height: int, along: int, fall: int)
    requires
        fall != 0,
    ensures
        ({
            let offset = ground_coordinate(origin, height, along, fall) - origin;
            let error = offset * fall + along * height;
            if fall > 0 {
                -fall < error < fall
            } else {
                fall < error < -fall
            }
        }),
{
    let n = along * height;
    let offset = ground_coordinate(origin, height, along, fall) - origin;
    if n >= 0 {
        let q = n / fall;
        lemma_euclid_remainder(n, fall);
        assert(offset * fall == -(q * fall)) by (nonlinear_arith)
            requires
                offset == -q,
        ;
    } else {
        let q = (-n) / fall;
        lemma_euclid_remainder(-n, fall);
        assert(offset == q);
    }
}

proof fn lemma_euclid_remainder(n: int, d: int)
    by (nonlinear_arith)
    requires
        n >= 0,
        d != 0,
    ensures
        d > 0 ==> 0 <= n - (n / d) * d < d,
        d < 0 ==> 0 <= n - (n / d) * d < -d,
{
}

} // verus!
