use topdown::movement::Velocity;
use topdown::player::{player_movement, spawn_player, ActionState, PlayerAction, PLAYER_SPEED};
use topdown::vector::{Quat, Vec2, Vec3};

fn keys(up: bool, down: bool, left: bool, right: bool) -> ActionState {
    let mut input = ActionState::released();
    input.up = up;
    input.down = down;
    input.left = left;
    input.right = right;
    input
}

fn moved(input: &ActionState) -> Vec3 {
    let mut velocity = Velocity::zero();
    player_movement(&mut velocity, input);
    velocity.linvel
}

#[test]
fn speed_is_five_units_per_second() {
    assert_eq!(PLAYER_SPEED, 5_000_000);
}

#[test]
fn up_and_right_together_are_not_normalized() {
    assert_eq!(moved(&keys(true, false, false, true)), Vec3 { x: 5_000_000, y: 0, z: 5_000_000 });
}

#[test]
fn each_key_moves_along_its_axis() {
    assert_eq!(moved(&keys(true, false, false, false)), Vec3 { x: 0, y: 0, z: 5_000_000 });
    assert_eq!(moved(&keys(false, true, false, false)), Vec3 { x: 0, y: 0, z: -5_000_000 });
    assert_eq!(moved(&keys(false, false, true, false)), Vec3 { x: -5_000_000, y: 0, z: 0 });
    assert_eq!(moved(&keys(false, false, false, true)), Vec3 { x: 5_000_000, y: 0, z: 0 });
}

#[test]
fn every_diagonal() {
    assert_eq!(moved(&keys(true, false, true, false)), Vec3 { x: -5_000_000, y: 0, z: 5_000_000 });
    assert_eq!(moved(&keys(false, true, true, false)), Vec3 { x: -5_000_000, y: 0, z: -5_000_000 });
    assert_eq!(moved(&keys(false, true, false, true)), Vec3 { x: 5_000_000, y: 0, z: -5_000_000 });
}

#[test]
fn opposite_keys_cancel() {
    assert_eq!(moved(&keys(true, true, false, false)), Vec3::zero());
    assert_eq!(moved(&keys(false, false, true, true)), Vec3::zero());
    assert_eq!(moved(&keys(true, true, true, true)), Vec3::zero());
    assert_eq!(moved(&keys(true, true, false, true)), Vec3 { x: 5_000_000, y: 0, z: 0 });
}

#[test]
fn no_key_stops_the_player() {
    let mut velocity = Velocity::zero();
    velocity.linvel = Vec3 { x: 9, y: 9, z: 9 };
    player_movement(&mut velocity, &ActionState::released());
    assert_eq!(velocity.linvel, Vec3::zero());
}

#[test]
fn movement_overwrites_the_old_velocity_and_is_planar() {
    let mut velocity = Velocity::zero();
    velocity.linvel = Vec3 { x: -77, y: 123_456, z: 88 };
    player_movement(&mut velocity, &keys(false, false, false, true));
    assert_eq!(velocity.linvel, Vec3 { x: 5_000_000, y: 0, z: 0 });
}

#[test]
fn movement_is_the_same_however_often_it_runs() {
    let input = keys(true, false, true, false);
    let mut velocity = Velocity::zero();
    player_movement(&mut velocity, &input);
    let once = velocity;
    player_movement(&mut velocity, &input);
    assert_eq!(velocity, once);
}

#[test]
fn movement_leaves_the_angular_velocity() {
    let turn = Quat { x: 0, y: 707_107, z: 0, w: 707_107 };
    let mut velocity = Velocity { linvel: Vec3::zero(), angvel: turn };
    player_movement(&mut velocity, &keys(true, false, false, true));
    assert_eq!(velocity.angvel, turn);
}

#[test]
fn other_buttons_and_axes_do_not_move_the_player() {
    let mut input = ActionState::released();
    input.moving = true;
    input.jump = true;
    input.shoot = true;
    input.aim = true;
    input.allow_look = true;
    input.look = Vec2 { x: 3_000_000, y: -4_000_000 };
    input.zoom = 2_000_000;
    assert_eq!(moved(&input), Vec3::zero());
}

#[test]
fn direction_keys_have_unit_steps() {
    assert_eq!(PlayerAction::Up.direction(), Some(Vec2 { x: 0, y: 1_000_000 }));
    assert_eq!(PlayerAction::Down.direction(), Some(Vec2 { x: 0, y: -1_000_000 }));
    assert_eq!(PlayerAction::Left.direction(), Some(Vec2 { x: -1_000_000, y: 0 }));
    assert_eq!(PlayerAction::Right.direction(), Some(Vec2 { x: 1_000_000, y: 0 }));
}

#[test]
fn other_actions_have_no_direction() {
    assert_eq!(PlayerAction::Move.direction(), None);
    assert_eq!(PlayerAction::Jump.direction(), None);
    assert_eq!(PlayerAction::Shoot.direction(), None);
    assert_eq!(PlayerAction::Aim.direction(), None);
    assert_eq!(PlayerAction::AllowLook.direction(), None);
    assert_eq!(PlayerAction::Look.direction(), None);
    assert_eq!(PlayerAction::Zoom.direction(), None);
}

#[test]
fn the_four_direction_keys() {
    assert_eq!(
        PlayerAction::directions(),
        [PlayerAction::Up, PlayerAction::Down, PlayerAction::Left, PlayerAction::Right]
    );
}

#[test]
fn released_state_holds_nothing() {
    let input = ActionState::released();
    let all = [
        PlayerAction::Up,
        PlayerAction::Down,
        PlayerAction::Left,
        PlayerAction::Right,
        PlayerAction::Move,
        PlayerAction::Jump,
        PlayerAction::Shoot,
        PlayerAction::Aim,
        PlayerAction::AllowLook,
        PlayerAction::Look,
        PlayerAction::Zoom,
    ];
    for action in all {
        assert!(!input.pressed(action));
        assert_eq!(input.value(action), 0);
        assert_eq!(input.axis_pair(action), Vec2::zero());
    }
}

#[test]
fn pressed_reads_the_button_of_the_action() {
    let mut input = ActionState::released();
    input.shoot = true;
    input.allow_look = true;
    input.moving = true;
    assert!(input.pressed(PlayerAction::Shoot));
    assert!(input.pressed(PlayerAction::AllowLook));
    assert!(input.pressed(PlayerAction::Move));
    assert!(!input.pressed(PlayerAction::Jump));
    assert!(!input.pressed(PlayerAction::Aim));
    assert!(!input.pressed(PlayerAction::Up));
    input.jump = true;
    input.aim = true;
    input.down = true;
    assert!(input.pressed(PlayerAction::Jump));
    assert!(input.pressed(PlayerAction::Aim));
    assert!(input.pressed(PlayerAction::Down));
}

#[test]
fn an_axis_is_never_pressed() {
    let mut input = ActionState::released();
    input.look = Vec2 { x: 1, y: 1 };
    input.zoom = 1;
    assert!(!input.pressed(PlayerAction::Look));
    assert!(!input.pressed(PlayerAction::Zoom));
}

#[test]
fn axes_are_read_by_their_own_action_only() {
    let mut input = ActionState::released();
    input.look = Vec2 { x: 3_000_000, y: -4_000_000 };
    input.zoom = -2_000_000;
    input.up = true;
    assert_eq!(input.value(PlayerAction::Zoom), -2_000_000);
    assert_eq!(input.value(PlayerAction::Look), 0);
    assert_eq!(input.value(PlayerAction::Up), 0);
    assert_eq!(input.axis_pair(PlayerAction::Look), Vec2 { x: 3_000_000, y: -4_000_000 });
    assert_eq!(input.axis_pair(PlayerAction::Zoom), Vec2::zero());
    assert_eq!(input.axis_pair(PlayerAction::Up), Vec2::zero());
}

#[test]
fn player_spawns_at_rest_on_the_origin() {
    let player = spawn_player();
    assert_eq!(player.transform.translation, Vec3::zero());
    assert_eq!(player.transform.rotation, Quat::identity());
    assert_eq!(player.velocity.linvel, Vec3::zero());
    assert_eq!(player.velocity.angvel, Quat::identity());
}
