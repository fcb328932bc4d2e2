//! Deterministic control core of a small top-down game: a velocity
//! integrator, the player's input-to-velocity mapping and cursor aiming, and
//! a camera that follows the player, pans and zooms inside a height band.
//! [`tick::Scene::tick`] runs them in their fixed order.
//!
//! Every quantity is a fixed-point integer with [`fixed::SCALE`] stored units
//! per world unit, so a tick gives the same result on every machine. The
//! host engine owns the entities, the input devices and the window; it hands
//! plain values in and takes plain values back.

pub mod camera;
pub mod cursor;
pub mod enemies;
pub mod fixed;
pub mod movement;
pub mod player;
pub mod tick;
pub mod vector;
