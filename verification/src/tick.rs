//! One tick of the whole game. The order of the systems is fixed here: the
//! player's controller, then the camera's (follow, pan, zoom), then the
//! integrator. A velocity written in a tick therefore moves its entity in
//! that same tick, while every controller reads the transforms that the
//! tick before it left.

use vstd::prelude::*;
use crate::camera::{
    can_pan, follow_player, look_around_mouse, pan_target, panned, zoom_control, zoom_speed, zoom_velocity,
};
use crate::cursor::{cursor_position, tracked_cursor, CameraFrame, CursorPosition, Window};
use crate::fixed::{representable, scaled_product};
use crate::movement::{all_can_step, all_steppable, update_position, Body, Transform, Velocity};
use crate::player::{movement_velocity, player_movement, ActionState};
use crate::vector::Vec3;

verus! {

/// Everything that moves: the one player with its cursor, the one camera,
/// and every other body, such as the enemies.
#[derive(Clone, Debug, PartialEq, Eq)]
pub struct Scene {
    pub player: Body,
    pub cursor: CursorPosition,
    pub camera: Body,
    pub others: Vec<Body>,
}

/// What the host hands over for one tick: the state of the actions, the
/// window, how the camera stood and was turned when the tick began, and the
/// seconds since the tick before.
#[derive(Clone, Copy, Debug, PartialEq, Eq, Structural)]
pub struct TickInput {
    pub actions: ActionState,
    pub window: Window,
    pub view: CameraFrame,
    pub delta: i64,
}

/// The player after its controller has run: its linear velocity is what the
/// direction keys give.
pub open spec fn controlled_player(player: Body, actions: ActionState) -> Body {
    Body {
        transform: player.transform,
        velocity: Velocity { linvel: movement_velocity(actions), angvel: player.velocity.angvel },
    }
}

/// Whether the camera's controller can store what it sets.
pub open spec fn camera_controllable(camera: Body, actions: ActionState) -> bool {
    &&& can_pan(camera.transform.translation, actions)
    &&& representable(zoom_velocity(camera.transform.translation.y as int, actions.zoom as int))
}

/// The camera after its controller has run on the velocity that the player
/// has in this tick: it moves over the ground as the player does, is panned
/// where the look button is held, and rises or sinks as the zoom system
/// says.
pub open spec fn controlled_camera(camera: Body, player_velocity: Velocity, actions: ActionState) -> Body {
    Body {
        transform: Transform {
            translation: Vec3 {
                x: panned(camera.transform.translation, actions).0 as i64,
                y: camera.transform.translation.y,
                z: panned(camera.transform.translation, actions).2 as i64,
            },
            rotation: camera.transform.rotation,
        },
        velocity: Velocity {
            linvel: Vec3 {
                x: player_velocity.linvel.x,
                y: zoom_velocity(camera.transform.translation.y as int, actions.zoom as int) as i64,
                z: player_velocity.linvel.z,
            },
            angvel: camera.velocity.angvel,
        },
    }
}

impl Scene {
    /// Whether the tick can be taken: the camera's controller can store what
    /// it sets, and the integrator can store where it moves every body.
    pub open spec fn can_tick(self, input: TickInput) -> bool {
        &&& camera_controllable(self.camera, input.actions)
        &&& controlled_player(self.player, input.actions).can_step(input.delta)
        &&& controlled_camera(
            self.camera,
            controlled_player(self.player, input.actions).velocity,
            input.actions,
        ).can_step(input.delta)
        &&& all_can_step(self.others@, input.delta)
    }

    /// The player after the tick.
    pub open spec fn ticked_player(self, input: TickInput) -> Body {
        controlled_player(self.player, input.actions).stepped(input.delta)
    }

    /// The camera after the tick.
    pub open spec fn ticked_camera(self, input: TickInput) -> Body {
        controlled_camera(
            self.camera,
            controlled_player(self.player, input.actions).velocity,
            input.actions,
        ).stepped(input.delta)
    }

    /// Takes one tick, if it can be taken, and says whether it was. A tick
    /// that cannot be taken changes nothing.
    pub fn tick(&mut self, input: &TickInput) -> (taken: bool)
        requires
            input.view.well_formed(),
        ensures
            taken == old(self).can_tick(*input),
            taken ==> {
                &&& final(self).player == old(self).ticked_player(*input)
                &&& final(self).cursor == tracked_cursor(old(self).cursor, input.window, input.view)
                &&& final(self).camera == old(self).ticked_camera(*input)
                &&& final(self).others@.len() == old(self).others@.len()
                &&& forall|i: int|
                    0 <= i < old(self).others@.len() ==> final(self).others@[i] == (
                    #[trigger] old(self).others@[i]).stepped(input.delta)
            },
            !taken ==> {
                &&& final(self).player == old(self).player
                &&& final(self).cursor == old(self).cursor
                &&& final(self).camera == old(self).camera
                &&& final(self).others@ == old(self).others@
            },
    {
        let mut player = self.player;
        player_movement(&mut player.velocity, &input.actions);
        let mut cursor = self.cursor;
        cursor_position(&mut cursor, &input.window, &input.view);
        let mut camera = self.camera;
        follow_player(&mut camera.velocity, &player.velocity);
        if pan_target(&camera.transform.translation, &input.actions).is_none() {
            return false;
        }
        if zoom_speed(camera.transform.translation.y, input.actions.zoom).is_none() {
            return false;
        }
        look_around_mouse(&mut camera.transform, &input.actions);
        let placed = camera.transform;
        zoom_control(&placed, &mut camera.velocity, &input.actions);
        if !player.steppable(input.delta) || !camera.steppable(input.delta) || !all_steppable(
            &self.others,
            input.delta,
        ) {
            return false;
        }
        player.step(input.delta);
        camera.step(input.delta);
        update_position(&mut self.others, input.delta);
        self.player = player;
        self.cursor = cursor;
        self.camera = camera;
        true
    }
}

/// A velocity written in a tick takes effect in that tick: the player is
/// displaced by what the direction keys of this tick give, times the
/// timestep, whatever velocity it had before.
pub proof fn lemma_tick_moves_player_by_its_input(scene: Scene, input: TickInput)
    requires
        scene.can_tick(input),
    ensures
        scene.ticked_player(input).velocity.linvel == movement_velocity(input.actions),
        scene.ticked_player(input).transform.translation.x - scene.player.transform.translation.x
            == scaled_product(movement_velocity(input.actions).x as int, input.delta as int),
        scene.ticked_player(input).transform.translation.y == scene.player.transform.translation.y,
        scene.ticked_player(input).transform.translation.z - scene.player.transform.translation.z
            == scaled_product(movement_velocity(input.actions).z as int, input.delta as int),
{
    assert(0 * (input.delta as int) == 0);
}

/// The camera follows the player: after a tick its velocity over the ground
/// is the player's, and while the look button is released it has moved over
/// the ground exactly as the player has, so that it keeps its offset.
pub proof fn lemma_tick_camera_follows_player(scene: Scene, input: TickInput)
    requires
        scene.can_tick(input),
    ensures
        scene.ticked_camera(input).velocity.linvel.x == scene.ticked_player(input).velocity.linvel.x,
        scene.ticked_camera(input).velocity.linvel.z == scene.ticked_player(input).velocity.linvel.z,
        scene.ticked_camera(input).velocity.linvel.y == zoom_velocity(
            scene.camera.transform.translation.y as int,
            input.actions.zoom as int,
        ),
        !input.actions.allow_look ==> {
            &&& scene.ticked_camera(input).transform.translation.x - scene.camera.transform.translation.x
                == scene.ticked_player(input).transform.translation.x - scene.player.transform.translation.x
            &&& scene.ticked_camera(input).transform.translation.z - scene.camera.transform.translation.z
                == scene.ticked_player(input).transform.translation.z - scene.player.transform.translation.z
        },
{
}

} // verus!
