//! Game rules for a player who walks between two overlapping world layers.
//!
//! The player and the camera that follows it are steered by four directional
//! keys. Walking left makes the main world the active one, walking right the
//! second world, and only the scenery of the active world is drawn. While the
//! player moves, a repeating clock steps its sprite through a strip of
//! animation frames; standing still, it shows the idle pose.
//!
//! The crate holds the rules and the state they act on. Reading keys and the
//! clock, and drawing what the scene describes, is left to the program around
//! it, which calls [`scene::Scene::try_frame`] once per frame.

pub mod change;
pub mod entity;
pub mod input;
pub mod laws;
pub mod model;
pub mod scene;
pub mod sprite;
pub mod systems;
pub mod timer;
pub mod vector;
pub mod world;

pub use crate::change::Watched;
pub use crate::entity::{Entity, MovePlayer, Visibility};
pub use crate::input::{Keys, SPEED};
pub use crate::scene::{setup, Scene};
pub use crate::sprite::AtlasSprite;
pub use crate::systems::{
    animate_sprite_system_velocity, move_player, switch_world, update_transform_from_velocity,
};
pub use crate::timer::AnimationTimer;
pub use crate::vector::{Position, Velocity};
pub use crate::world::{CurrentWorld, InWorld};
