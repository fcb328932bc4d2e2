//! The camera's controller. Each tick it runs three systems in this order:
//! follow the player, pan while the look button is held, and set the zoom
//! speed, which springs the camera back once it has left its height band.

use vstd::prelude::*;
use crate::fixed::{
    lemma_whole_product_exact, mul_scaled, narrow, representable, round_units, rounded, scaled_product, SCALE,
};
use crate::movement::{advanced, Body, Transform, Velocity};
use crate::player::{ActionState, PlayerAction};
use crate::vector::Vec3;

verus! {

/// The height at which the camera starts (30.0).
pub const STARTING_CAMERA_DISTANCE: i64 = 30_000_000;

/// The upper edge of the camera's height band (60.0).
pub const MAXIMUM_CAMERA_DISTANCE: i64 = 60_000_000;

/// The lower edge of the camera's height band (10.0).
pub const MINIMUM_CAMERA_DISTANCE: i64 = 10_000_000;

/// World units of pan per unit of pointer motion (0.05).
pub const CAMERA_PAN_RATE: i64 = 50_000;

/// World units per second of zoom speed per unit of the zoom axis (3.0).
pub const CAMERA_ZOOM_RATE: i64 = 3_000_000;

/// Where the camera starts: straight above the origin, at
/// [`STARTING_CAMERA_DISTANCE`].
pub fn starting_translation() -> (start: Vec3)
    ensures
        start == (Vec3 { x: 0, y: STARTING_CAMERA_DISTANCE, z: 0 }),
{
    Vec3 { x: 0, y: STARTING_CAMERA_DISTANCE, z: 0 }
}

/// The follow system: the camera takes the player's linear velocity, so that
/// it moves in step with the player and keeps its offset. The camera's
/// angular velocity is left alone.
pub fn follow_player(camera_velocity: &mut Velocity, player_velocity: &Velocity)
    ensures
        final(camera_velocity).linvel == player_velocity.linvel,
        final(camera_velocity).angvel == old(camera_velocity).angvel,
{
    camera_velocity.linvel = player_velocity.linvel;
}

/// How far above the band the camera is, in whole world units: positive
/// above [`MAXIMUM_CAMERA_DISTANCE`], zero or negative otherwise.
pub open spec fn max_excess(height: int) -> int {
    rounded(height - MAXIMUM_CAMERA_DISTANCE)
}

/// How far below the band the camera is, in whole world units: positive
/// below [`MINIMUM_CAMERA_DISTANCE`], zero or negative otherwise.
pub open spec fn min_excess(height: int) -> int {
    rounded(MINIMUM_CAMERA_DISTANCE - height)
}

/// The vertical speed of a camera at `height` when the zoom axis reads
/// `zoom_delta`. Inside the band the axis decides. Above it the camera comes
/// down, below it the camera goes up, in both cases at twice the zoom rate
/// per unit of excess and whatever the axis reads.
pub open spec fn zoom_velocity(height: int, zoom_delta: int) -> int {
    if min_excess(height) <= 0 && max_excess(height) <= 0 {
        scaled_product(zoom_delta, CAMERA_ZOOM_RATE as int)
    } else if max_excess(height) > 0 {
        -scaled_product(max_excess(height), CAMERA_ZOOM_RATE as int) * 2
    } else {
        scaled_product(min_excess(height), CAMERA_ZOOM_RATE as int) * 2
    }
}

/// Computes [`zoom_velocity`], or `None` where the speed cannot be stored.
pub fn zoom_speed(height: i64, zoom_delta: i64) -> (speed: Option<i64>)
    ensures
        speed == (if representable(zoom_velocity(height as int, zoom_delta as int)) {
            Some(zoom_velocity(height as int, zoom_delta as int) as i64)
        } else {
            None::<i64>
        }),
{
    let above: i128 = round_units(height as i128 - MAXIMUM_CAMERA_DISTANCE as i128);
    let below: i128 = round_units(MINIMUM_CAMERA_DISTANCE as i128 - height as i128);
    let wide: i128 = if below <= 0 && above <= 0 {
        mul_scaled(zoom_delta, CAMERA_ZOOM_RATE)
    } else if above > 0 {
        -((above * (CAMERA_ZOOM_RATE as i128)) / (SCALE as i128)) * 2
    } else {
        ((below * (CAMERA_ZOOM_RATE as i128)) / (SCALE as i128)) * 2
    };
    narrow(wide)
}

/// The zoom system: sets the camera's vertical speed to [`zoom_velocity`] and
/// leaves the rest of its velocity alone.
pub fn zoom_control(camera_transform: &Transform, camera_velocity: &mut Velocity, input: &ActionState)
    requires
        representable(zoom_velocity(camera_transform.translation.y as int, input.zoom as int)),
    ensures
        final(camera_velocity).linvel.y == zoom_velocity(
            camera_transform.translation.y as int,
            input.zoom as int,
        ),
        final(camera_velocity).linvel.x == old(camera_velocity).linvel.x,
        final(camera_velocity).linvel.z == old(camera_velocity).linvel.z,
        final(camera_velocity).angvel == old(camera_velocity).angvel,
{
    let zoom_delta = input.value(PlayerAction::Zoom);
    match zoom_speed(camera_transform.translation.y, zoom_delta) {
        Some(speed) => {
            camera_velocity.linvel.y = speed;
        },
        None => {},
    }
}

/// Where the pan system puts a camera that stands at `translation`: while
/// the look button is held, moved over the ground by the pan rate times the
/// pointer's motion; otherwise where it was. The height never changes.
pub open spec fn panned(translation: Vec3, input: ActionState) -> (int, int, int) {
    if input.allow_look {
        (
            translation.x + scaled_product(CAMERA_PAN_RATE as int, input.look.x as int),
            translation.y as int,
            translation.z + scaled_product(CAMERA_PAN_RATE as int, input.look.y as int),
        )
    } else {
        (translation.x as int, translation.y as int, translation.z as int)
    }
}

/// Whether the place that [`panned`] gives can be stored.
pub open spec fn can_pan(translation: Vec3, input: ActionState) -> bool {
    representable(panned(translation, input).0) && representable(panned(translation, input).2)
}

/// Computes [`panned`], or `None` where the place cannot be stored.
pub fn pan_target(translation: &Vec3, input: &ActionState) -> (target: Option<Vec3>)
    ensures
        target == (if can_pan(*translation, *input) {
            Some(
                Vec3 {
                    x: panned(*translation, *input).0 as i64,
                    y: translation.y,
                    z: panned(*translation, *input).2 as i64,
                },
            )
        } else {
            None::<Vec3>
        }),
{
    let pan = input.axis_pair(PlayerAction::Look);
    if input.pressed(PlayerAction::AllowLook) {
        let x = narrow(translation.x as i128 + mul_scaled(CAMERA_PAN_RATE, pan.x));
        let z = narrow(translation.z as i128 + mul_scaled(CAMERA_PAN_RATE, pan.y));
        match (x, z) {
            (Some(x), Some(z)) => Some(Vec3 { x, y: translation.y, z }),
            _ => None,
        }
    } else {
        Some(*translation)
    }
}

/// The pan system: while the look button is held, shifts the camera over the
/// ground by the pointer's motion. It moves the camera itself, not its
/// velocity, and never turns it.
pub fn look_around_mouse(camera_transform: &mut Transform, input: &ActionState)
    requires
        can_pan(old(camera_transform).translation, *input),
    ensures
        final(camera_transform).translation.x == panned(old(camera_transform).translation, *input).0,
        final(camera_transform).translation.y == old(camera_transform).translation.y,
        final(camera_transform).translation.z == panned(old(camera_transform).translation, *input).2,
        final(camera_transform).rotation == old(camera_transform).rotation,
{
    match pan_target(&camera_transform.translation, input) {
        Some(target) => {
            camera_transform.translation = target;
        },
        None => {},
    }
}

/// Free zoom: inside the band, and as far beyond either edge as rounds to no
/// excess, the zoom axis alone decides the vertical speed.
pub proof fn lemma_zoom_follows_axis_in_band(height: int, zoom_delta: int)
    requires
        MINIMUM_CAMERA_DISTANCE - SCALE / 2 < height < MAXIMUM_CAMERA_DISTANCE + SCALE / 2,
    ensures
        max_excess(height) <= 0,
        min_excess(height) <= 0,
        zoom_velocity(height, zoom_delta) == scaled_product(zoom_delta, CAMERA_ZOOM_RATE as int),
        zoom_velocity(height, zoom_delta) == 3 * zoom_delta,
{
    lemma_whole_product_exact(3, zoom_delta);
    assert(zoom_delta * (3 * SCALE) == zoom_delta * CAMERA_ZOOM_RATE);
}

/// Spring-back from above: from half a unit above the band on, the camera
/// comes down at twice the zoom rate per whole unit of excess, whatever the
/// zoom axis reads.
pub proof fn lemma_zoom_springs_down(height: int, zoom_delta: int)
    requires
        height >= MAXIMUM_CAMERA_DISTANCE + SCALE / 2,
    ensures
        max_excess(height) >= SCALE,
        zoom_velocity(height, zoom_delta) == -6 * max_excess(height),
        zoom_velocity(height, zoom_delta) < 0,
        zoom_velocity(height, zoom_delta) == zoom_velocity(height, 0),
{
    let units = (height - MAXIMUM_CAMERA_DISTANCE + SCALE / 2) / (SCALE as int);
    assert(max_excess(height) == units * SCALE);
    lemma_whole_product_exact(units, CAMERA_ZOOM_RATE as int);
}

/// Spring-back from below: from half a unit below the band on, the camera
/// goes up at twice the zoom rate per whole unit of excess, whatever the zoom
/// axis reads.
pub proof fn lemma_zoom_springs_up(height: int, zoom_delta: int)
    requires
        height <= MINIMUM_CAMERA_DISTANCE - SCALE / 2,
    ensures
        min_excess(height) >= SCALE,
        zoom_velocity(height, zoom_delta) == 6 * min_excess(height),
        zoom_velocity(height, zoom_delta) > 0,
        zoom_velocity(height, zoom_delta) == zoom_velocity(height, 0),
{
    let units = (MINIMUM_CAMERA_DISTANCE - height + SCALE / 2) / (SCALE as int);
    assert(min_excess(height) == units * SCALE);
    assert(max_excess(height) <= 0);
    lemma_whole_product_exact(units, CAMERA_ZOOM_RATE as int);
}

/// No jump at the edges of the band: exactly on an edge the excess is zero
/// and the zoom axis still decides, as it does just inside and just outside
/// the edge; and the spring, were it to act on a zero excess, would add
/// nothing.
pub proof fn lemma_zoom_is_continuous_at_edges(zoom_delta: int, offset: int)
    requires
        -SCALE / 2 < offset < SCALE / 2,
    ensures
        max_excess(MAXIMUM_CAMERA_DISTANCE as int) == 0,
        min_excess(MINIMUM_CAMERA_DISTANCE as int) == 0,
        zoom_velocity(MAXIMUM_CAMERA_DISTANCE + offset, zoom_delta) == zoom_velocity(
            MAXIMUM_CAMERA_DISTANCE as int,
            zoom_delta,
        ),
        zoom_velocity(MINIMUM_CAMERA_DISTANCE + offset, zoom_delta) == zoom_velocity(
            MINIMUM_CAMERA_DISTANCE as int,
            zoom_delta,
        ),
        zoom_velocity(MAXIMUM_CAMERA_DISTANCE as int, zoom_delta) == 3 * zoom_delta,
        zoom_velocity(MINIMUM_CAMERA_DISTANCE as int, zoom_delta) == 3 * zoom_delta,
        scaled_product(0, CAMERA_ZOOM_RATE as int) * 2 == 0,
{
    lemma_zoom_follows_axis_in_band(MAXIMUM_CAMERA_DISTANCE + offset, zoom_delta);
    lemma_zoom_follows_axis_in_band(MAXIMUM_CAMERA_DISTANCE as int, zoom_delta);
    lemma_zoom_follows_axis_in_band(MINIMUM_CAMERA_DISTANCE + offset, zoom_delta);
    lemma_zoom_follows_axis_in_band(MINIMUM_CAMERA_DISTANCE as int, zoom_delta);
    assert(0 * (CAMERA_ZOOM_RATE as int) == 0);
}

/// Spring-back approaches the band and never crosses it. While the camera is
/// above the band, a tick of at most a twelfth of a second at the speed that
/// the zoom system sets brings it lower, and not below the upper edge.
pub proof fn lemma_spring_back_approaches_from_above(height: int, zoom_delta: int, delta: int)
    requires
        height >= MAXIMUM_CAMERA_DISTANCE + SCALE / 2,
        0 < delta <= SCALE / 12,
    ensures
        MAXIMUM_CAMERA_DISTANCE <= advanced(height, zoom_velocity(height, zoom_delta), delta) < height,
{
    lemma_zoom_springs_down(height, zoom_delta);
    let excess = max_excess(height);
    lemma_spring_step(excess, delta);
    assert(zoom_velocity(height, zoom_delta) * delta == -(6 * excess * delta)) by (nonlinear_arith)
        requires
            zoom_velocity(height, zoom_delta) == -6 * excess,
    ;
}

/// While the camera is below the band, a tick of at most a twelfth of a
/// second at the speed that the zoom system sets brings it higher, and not
/// above the lower edge.
pub proof fn lemma_spring_back_approaches_from_below(height: int, zoom_delta: int, delta: int)
    requires
        height <= MINIMUM_CAMERA_DISTANCE - SCALE / 2,
        0 < delta <= SCALE / 12,
    ensures
        height < advanced(height, zoom_velocity(height, zoom_delta), delta) <= MINIMUM_CAMERA_DISTANCE,
{
    lemma_zoom_springs_up(height, zoom_delta);
    let excess = min_excess(height);
    lemma_spring_step(excess, delta);
    assert(zoom_velocity(height, zoom_delta) * delta == 6 * excess * delta) by (nonlinear_arith)
        requires
            zoom_velocity(height, zoom_delta) == 6 * excess,
    ;
}

/// In a tick of at most a twelfth of a second the spring covers at least one
/// stored unit and at most half of the excess.
proof fn lemma_spring_step(excess: int, delta: int)
    requires
        excess >= SCALE,
        0 < delta <= SCALE / 12,
    ensures
        6 * excess * delta >= 0,
        1 <= (6 * excess * delta) / (SCALE as int) <= excess / 2,
{
    assert(6 * excess <= 6 * excess * delta <= 6 * excess * 83_333) by (nonlinear_arith)
        requires
            excess >= 1_000_000,
            1 <= delta <= 83_333,
    ;
}

/// The camera keeps its offset from the player: once it has taken the
/// player's linear velocity, one tick of the integrator moves both by the
/// same amount along every axis.
pub proof fn lemma_follow_keeps_offset(camera: Body, player: Body, delta: i64)
    requires
        camera.velocity.linvel == player.velocity.linvel,
        camera.can_step(delta),
        player.can_step(delta),
    ensures
        camera.stepped(delta).transform.translation.x - camera.transform.translation.x
            == player.stepped(delta).transform.translation.x - player.transform.translation.x,
        camera.stepped(delta).transform.translation.y - camera.transform.translation.y
            == player.stepped(delta).transform.translation.y - player.transform.translation.y,
        camera.stepped(delta).transform.translation.z - camera.transform.translation.z
            == player.stepped(delta).transform.translation.z - player.transform.translation.z,
{
}

/// The band is not empty and the camera starts inside it.
pub proof fn lemma_camera_starts_in_band()
    ensures
        MINIMUM_CAMERA_DISTANCE < STARTING_CAMERA_DISTANCE < MAXIMUM_CAMERA_DISTANCE,
{
}

} // verus!
