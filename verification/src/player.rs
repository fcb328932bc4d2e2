//! The player's controller: the actions that the input devices are mapped
//! to, their state in a tick, and the velocity that the direction keys give
//! the player.

use vstd::prelude::*;
use crate::fixed::{lemma_whole_product_exact, mul_scaled, scaled_product, SCALE};
use crate::movement::{Body, Transform, Velocity};
use crate::vector::{Quat, Vec2, Vec3};

verus! {

/// How fast a held direction key moves the player along its axis, in world
/// units per second (5.0).
pub const PLAYER_SPEED: i64 = 5_000_000;

/// The actions that the input devices are mapped to.
#[derive(Clone, Copy, Debug, PartialEq, Eq, Hash, Structural)]
pub enum PlayerAction {
    Up,
    Down,
    Left,
    Right,
    Move,
    Jump,
    Shoot,
    Aim,
    AllowLook,
    /// A pair of axes: how far the pointer moved since the last tick.
    Look,
    /// One axis: negative zooms in, positive zooms out.
    Zoom,
}

/// The state of every action in one tick, as the host's input service hands
/// it over: which buttons are held, and the values of the axes.
#[derive(Clone, Copy, Debug, PartialEq, Eq, Structural)]
pub struct ActionState {
    pub up: bool,
    pub down: bool,
    pub left: bool,
    pub right: bool,
    pub moving: bool,
    pub jump: bool,
    pub shoot: bool,
    pub aim: bool,
    pub allow_look: bool,
    pub look: Vec2,
    pub zoom: i64,
}

impl PlayerAction {
    /// The unit step of a direction key, `None` for every other action.
    /// `Right` and `Up` point along the positive axes.
    pub open spec fn spec_direction(self) -> Option<Vec2> {
        match self {
            PlayerAction::Up => Some(Vec2 { x: 0, y: 1_000_000 }),
            PlayerAction::Down => Some(Vec2 { x: 0, y: -1_000_000i64 }),
            PlayerAction::Left => Some(Vec2 { x: -1_000_000i64, y: 0 }),
            PlayerAction::Right => Some(Vec2 { x: 1_000_000, y: 0 }),
            _ => None,
        }
    }

    /// The four direction keys, in the order in which the controller sums
    /// them.
    pub open spec fn spec_directions() -> Seq<PlayerAction> {
        seq![PlayerAction::Up, PlayerAction::Down, PlayerAction::Left, PlayerAction::Right]
    }

    /// The unit step of a direction key, `None` for every other action.
    #[verifier::when_used_as_spec(spec_direction)]
    pub fn direction(self) -> (d: Option<Vec2>)
        ensures
            d == self.spec_direction(),
    {
        match self {
            PlayerAction::Up => Some(Vec2 { x: 0, y: SCALE }),
            PlayerAction::Down => Some(Vec2 { x: 0, y: -SCALE }),
            PlayerAction::Left => Some(Vec2 { x: -SCALE, y: 0 }),
            PlayerAction::Right => Some(Vec2 { x: SCALE, y: 0 }),
            _ => None,
        }
    }

    /// The four direction keys.
    pub fn directions() -> (d: [PlayerAction; 4])
        ensures
            d@ == PlayerAction::spec_directions(),
    {
        let d = [PlayerAction::Up, PlayerAction::Down, PlayerAction::Left, PlayerAction::Right];
        assert(d@ =~= PlayerAction::spec_directions());
        d
    }
}

impl ActionState {
    /// The state in which nothing is held and every axis is at rest.
    pub open spec fn spec_released() -> ActionState {
        ActionState {
            up: false,
            down: false,
            left: false,
            right: false,
            moving: false,
            jump: false,
            shoot: false,
            aim: false,
            allow_look: false,
            look: Vec2 { x: 0, y: 0 },
            zoom: 0,
        }
    }

    /// The state in which nothing is held and every axis is at rest.
    #[verifier::when_used_as_spec(spec_released)]
    pub fn released() -> (s: ActionState)
        ensures
            s == ActionState::spec_released(),
    {
        ActionState {
            up: false,
            down: false,
            left: false,
            right: false,
            moving: false,
            jump: false,
            shoot: false,
            aim: false,
            allow_look: false,
            look: Vec2::zero(),
            zoom: 0,
        }
    }

    /// Whether the button of `action` is held. An axis is never held.
    pub open spec fn spec_pressed(&self, action: PlayerAction) -> bool {
        match action {
            PlayerAction::Up => self.up,
            PlayerAction::Down => self.down,
            PlayerAction::Left => self.left,
            PlayerAction::Right => self.right,
            PlayerAction::Move => self.moving,
            PlayerAction::Jump => self.jump,
            PlayerAction::Shoot => self.shoot,
            PlayerAction::Aim => self.aim,
            PlayerAction::AllowLook => self.allow_look,
            PlayerAction::Look => false,
            PlayerAction::Zoom => false,
        }
    }

    /// Whether the button of `action` is held.
    #[verifier::when_used_as_spec(spec_pressed)]
    pub fn pressed(&self, action: PlayerAction) -> (held: bool)
        ensures
            held == self.spec_pressed(action),
    {
        match action {
            PlayerAction::Up => self.up,
            PlayerAction::Down => self.down,
            PlayerAction::Left => self.left,
            PlayerAction::Right => self.right,
            PlayerAction::Move => self.moving,
            PlayerAction::Jump => self.jump,
            PlayerAction::Shoot => self.shoot,
            PlayerAction::Aim => self.aim,
            PlayerAction::AllowLook => self.allow_look,
            PlayerAction::Look => false,
            PlayerAction::Zoom => false,
        }
    }

    /// The value of a single axis: that of `Zoom`, and 0 for an action that
    /// is no single axis.
    pub fn value(&self, action: PlayerAction) -> (v: i64)
        ensures
            v == (if action == PlayerAction::Zoom {
                self.zoom
            } else {
                0
            }),
    {
        match action {
            PlayerAction::Zoom => self.zoom,
            _ => 0,
        }
    }

    /// The value of a pair of axes: that of `Look`, and zero for an action
    /// that is no pair of axes.
    pub fn axis_pair(&self, action: PlayerAction) -> (v: Vec2)
        ensures
            v == (if action == PlayerAction::Look {
                self.look
            } else {
                Vec2 { x: 0, y: 0 }
            }),
    {
        match action {
            PlayerAction::Look => self.look,
            _ => Vec2::zero(),
        }
    }
}

/// The player as it enters the world: at the origin, turned no way, at
/// rest.
pub fn spawn_player() -> (player: Body)
    ensures
        player.transform.translation == (Vec3 { x: 0, y: 0, z: 0 }),
        player.transform.rotation == Quat::identity(),
        player.velocity.linvel == (Vec3 { x: 0, y: 0, z: 0 }),
        player.velocity.angvel == Quat::identity(),
{
    Body { transform: Transform::identity(), velocity: Velocity::zero() }
}

/// 1 for a held button and 0 for a released one.
pub open spec fn held(button: bool) -> int {
    if button {
        1
    } else {
        0
    }
}

/// The sum of the unit steps of the first `n` direction keys that are held.
/// The steps are summed as they are: two keys at a right angle give a step
/// longer than one unit.
pub open spec fn summed_directions(input: ActionState, n: nat) -> (int, int)
    decreases n,
{
    if n == 0 || n > PlayerAction::spec_directions().len() {
        (0, 0)
    } else {
        let before = summed_directions(input, (n - 1) as nat);
        let action = PlayerAction::spec_directions()[n - 1];
        match action.spec_direction() {
            Some(step) if input.spec_pressed(action) => (before.0 + step.x, before.1 + step.y),
            _ => before,
        }
    }
}

/// The linear velocity that the held direction keys give the player: along
/// each axis of the ground the speed constant times the keys held along it,
/// and nothing upward. A diagonal is not shortened to the speed constant.
pub open spec fn movement_velocity(input: ActionState) -> Vec3 {
    Vec3 {
        x: (PLAYER_SPEED * (held(input.right) - held(input.left))) as i64,
        y: 0,
        z: (PLAYER_SPEED * (held(input.up) - held(input.down))) as i64,
    }
}

/// The sum over all four direction keys in closed form.
pub proof fn lemma_summed_directions(input: ActionState)
    ensures
        summed_directions(input, 4) == (
            SCALE * (held(input.right) - held(input.left)),
            SCALE * (held(input.up) - held(input.down)),
        ),
{
    reveal_with_fuel(summed_directions, 5);
    let d = PlayerAction::spec_directions();
    assert(d[0] == PlayerAction::Up && d[1] == PlayerAction::Down && d[2] == PlayerAction::Left
        && d[3] == PlayerAction::Right);
}

/// The movement system: sets the player's linear velocity from the direction
/// keys that are held, and leaves its angular velocity alone.
pub fn player_movement(velocity: &mut Velocity, input: &ActionState)
    ensures
        final(velocity).linvel == movement_velocity(*input),
        final(velocity).linvel.x == scaled_product(summed_directions(*input, 4).0, PLAYER_SPEED as int),
        final(velocity).linvel.z == scaled_product(summed_directions(*input, 4).1, PLAYER_SPEED as int),
        final(velocity).angvel == old(velocity).angvel,
{
    let directions = PlayerAction::directions();
    let mut x: i64 = 0;
    let mut y: i64 = 0;
    let mut i: usize = 0;
    while i < 4
        invariant
            i <= 4,
            directions@ == PlayerAction::spec_directions(),
            summed_directions(*input, i as nat) == (x as int, y as int),
            -1_000_000 * i <= x <= 1_000_000 * i,
            -1_000_000 * i <= y <= 1_000_000 * i,
        decreases 4 - i,
    {
        let action = directions[i];
        if input.pressed(action) {
            if let Some(step) = action.direction() {
                x = x + step.x;
                y = y + step.y;
            }
        }
        i += 1;
    }
    proof {
        lemma_summed_directions(*input);
        lemma_whole_product_exact(held(input.right) - held(input.left), PLAYER_SPEED as int);
        lemma_whole_product_exact(held(input.up) - held(input.down), PLAYER_SPEED as int);
        assert((held(input.right) - held(input.left)) * SCALE == SCALE * (held(input.right) - held(input.left)));
        assert((held(input.up) - held(input.down)) * SCALE == SCALE * (held(input.up) - held(input.down)));
        assert((held(input.right) - held(input.left)) * PLAYER_SPEED == PLAYER_SPEED * (held(input.right) - held(input.left)));
        assert((held(input.up) - held(input.down)) * PLAYER_SPEED == PLAYER_SPEED * (held(input.up) - held(input.down)));
    }
    velocity.linvel = Vec3 { x: mul_scaled(x, PLAYER_SPEED) as i64, y: 0, z: mul_scaled(y, PLAYER_SPEED) as i64 };
}

} // verus!
