//! The scene: every entity of the game together with the world selector, how
//! it starts, and how one frame advances it.

use crate::change::Watched;
use crate::entity::Entity;
use crate::input::Keys;
use crate::model::{EntityModel, SceneModel};
use crate::sprite::{AtlasSprite, SpriteModel};
use crate::systems::{
    animate_sprite_system_velocity, models, move_player, switch_world,
    update_transform_from_velocity,
};
use crate::timer::{AnimationTimer, TimerModel};
use crate::vector::{Position, Vector, Velocity};
use crate::world::{CurrentWorld, InWorld};
use vstd::prelude::*;

verus! {

/// Period of the player's animation clock: 0.08 seconds, in nanoseconds.
pub const ANIMATION_PERIOD: u64 = 80_000_000;

/// Number of frames on the player's animation strip.
pub const PLAYER_FRAMES: usize = 7;

/// Index of the camera among the entities of a new scene.
pub const CAMERA: usize = 0;

/// Index of the player among the entities of a new scene.
pub const PLAYER: usize = 1;

/// Index of the main world's scenery among the entities of a new scene.
pub const MAIN_SCENERY: usize = 2;

/// Index of the second world's scenery among the entities of a new scene.
pub const SECOND_SCENERY: usize = 3;

/// The scene as the game stores it.
#[derive(Clone, Debug, PartialEq, Eq)]
pub struct Scene {
    /// The entities, in the order in which they were added.
    pub entities: Vec<Entity>,
    /// The active world, under change detection.
    pub current_world: CurrentWorld,
}

impl View for Scene {
    type V = SceneModel;

    open spec fn view(&self) -> SceneModel {
        SceneModel { entities: models(self.entities@), current_world: self.current_world }
    }
}

/// An entity without components.
pub open spec fn bare() -> EntityModel {
    EntityModel {
        move_player: false,
        velocity: None,
        transform: None,
        timer: None,
        sprite: None,
        visibility: None,
        in_world: None,
    }
}

/// A velocity of zero that has just been added.
pub open spec fn new_velocity() -> Option<Watched<Vector>> {
    Some(Watched { value: Vector::zero(), changed: true })
}

/// The camera at the start: at the origin, steered together with the player.
pub open spec fn initial_camera() -> EntityModel {
    EntityModel {
        move_player: true,
        velocity: new_velocity(),
        transform: Some(Vector::zero()),
        ..bare()
    }
}

/// The player at the start: at the origin, steered, drawn, showing the idle
/// pose, with a clock that has not run yet.
pub open spec fn initial_player() -> EntityModel {
    EntityModel {
        move_player: true,
        velocity: new_velocity(),
        transform: Some(Vector::zero()),
        timer: Some(TimerModel::fresh(ANIMATION_PERIOD as nat)),
        sprite: Some(SpriteModel { index: 0, frames: PLAYER_FRAMES as nat }),
        visibility: Some(true),
        ..bare()
    }
}

/// The scenery of the main world at the start: below the origin and drawn.
pub open spec fn initial_main_scenery() -> EntityModel {
    EntityModel {
        transform: Some(Vector { x: 0, y: -100, z: 0 }),
        visibility: Some(true),
        in_world: Some(InWorld::W1Main),
        ..bare()
    }
}

/// The scenery of the second world at the start: right of the origin and
/// hidden.
pub open spec fn initial_second_scenery() -> EntityModel {
    EntityModel {
        transform: Some(Vector { x: 200, y: 0, z: 0 }),
        visibility: Some(false),
        in_world: Some(InWorld::W2),
        ..bare()
    }
}

/// The scene at the start: camera, player and one piece of scenery per world,
/// with the main world active. Everything has just been added, so every
/// change mark is set.
pub open spec fn initial_scene() -> SceneModel {
    SceneModel {
        entities: seq![
            initial_camera(),
            initial_player(),
            initial_main_scenery(),
            initial_second_scenery(),
        ],
        current_world: Watched { value: InWorld::W1Main, changed: true },
    }
}

/// Builds the scene that the game starts from.
pub fn setup() -> (scene: Scene)
    ensures
        scene@ == initial_scene(),
        scene@.wf(),
{
    let timer = AnimationTimer::repeating(ANIMATION_PERIOD).unwrap();
    let sprite = AtlasSprite::new(PLAYER_FRAMES).unwrap();
    let mut entities: Vec<Entity> = Vec::new();

    // Camera
    entities.push(
        Entity::empty()
            .with_transform(Position::new(0, 0, 0))
            .with_move_player()
            .with_velocity(Velocity::default()),
    );

    // Player
    entities.push(
        Entity::empty()
            .with_transform(Position::new(0, 0, 0))
            .with_visibility(true)
            .with_animation(timer, sprite)
            .with_move_player()
            .with_velocity(Velocity::default()),
    );

    // Scenery
    entities.push(
        Entity::empty()
            .with_transform(Position::new(0, -100, 0))
            .with_visibility(true)
            .with_world(InWorld::W1Main),
    );
    entities.push(
        Entity::empty()
            .with_transform(Position::new(200, 0, 0))
            .with_visibility(false)
            .with_world(InWorld::W2),
    );

    assert(models(entities@) =~= initial_scene().entities);
    Scene { entities, current_world: Watched::new(InWorld::W1Main) }
}

impl Scene {
    /// Clears every change mark, so that the next frame sees only its own
    /// writes.
    pub fn settle(&mut self)
        ensures
            final(self).entities@.len() == old(self).entities@.len(),
            final(self)@ == old(self)@.settled(),
    {
        let n: usize = self.entities.len();
        let mut i: usize = 0;
        while i < n
            invariant
                i <= n,
                n == self.entities@.len(),
                n == old(self).entities@.len(),
                self.current_world == old(self).current_world,
                forall|j: int|
                    0 <= j < i ==> (#[trigger] self.entities@[j])@
                        == old(self).entities@[j]@.settled(),
                forall|j: int|
                    i <= j < n ==> #[trigger] self.entities@[j] == old(self).entities@[j],
            decreases n - i,
        {
            let mut entity = self.entities[i];
            entity.settle();
            self.entities[i] = entity;
            i += 1;
        }
        self.current_world.settle();
        assert(models(self.entities@) =~= old(self)@.settled().entities);
    }

    /// Whether a frame with these inputs stays within machine limits.
    pub fn admits(&self, keys: Keys, delta: u64) -> (ok: bool)
        ensures
            ok == self@.admits(keys, delta as nat),
    {
        let n: usize = self.entities.len();
        let mut i: usize = 0;
        while i < n
            invariant
                i <= n,
                n == self.entities@.len(),
                forall|j: int|
                    0 <= j < i ==> (#[trigger] self@.entities[j]).admits(keys, delta as nat),
            decreases n - i,
        {
            let mut entity = self.entities[i];
            entity.steer(keys);
            if !entity.can_move() {
                assert(!self@.entities[i as int].admits(keys, delta as nat));
                return false;
            }
            entity.shift();
            if !entity.can_animate(delta) {
                assert(!self@.entities[i as int].admits(keys, delta as nat));
                return false;
            }
            i += 1;
        }
        true
    }

    /// Runs one frame: steering, movement, animation and layer switch, in that
    /// order, with `delta` nanoseconds passed since the previous frame.
    pub fn frame(&mut self, keys: Keys, delta: u64)
        requires
            old(self)@.admits(keys, delta as nat),
        ensures
            final(self).entities@.len() == old(self).entities@.len(),
            final(self)@ == old(self)@.after_frame(keys, delta as nat),
    {
        let ghost before = old(self)@.entities;
        move_player(keys, &mut self.entities, &mut self.current_world);
        proof {
            let steered = models(self.entities@);
            assert forall|i: int| 0 <= i < steered.len() implies
                (#[trigger] steered[i]).moved().placeable() by {
                assert(before[i].admits(keys, delta as nat));
            }
        }
        update_transform_from_velocity(&mut self.entities);
        proof {
            let moved = models(self.entities@);
            assert forall|i: int| 0 <= i < moved.len() implies
                (#[trigger] moved[i]).accepts_tick(delta as nat) by {
                assert(before[i].admits(keys, delta as nat));
            }
        }
        animate_sprite_system_velocity(delta, &mut self.entities);
        switch_world(&self.current_world, &mut self.entities);
        self.settle();
    }

    /// Runs one frame if its inputs stay within machine limits, and otherwise
    /// leaves the scene as it is. Returns whether the frame ran.
    pub fn try_frame(&mut self, keys: Keys, delta: u64) -> (ran: bool)
        ensures
            ran == old(self)@.admits(keys, delta as nat),
            ran ==> final(self)@ == old(self)@.after_frame(keys, delta as nat),
            !ran ==> *final(self) == *old(self),
            final(self).entities@.len() == old(self).entities@.len(),
    {
        if self.admits(keys, delta) {
            self.frame(keys, delta);
            true
        } else {
            false
        }
    }
}

} // verus!
