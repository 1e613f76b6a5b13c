//! Entities as the game stores them, and the four per-frame rules applied to
//! a single entity.

use crate::change::Watched;
use crate::input::Keys;
use crate::model::EntityModel;
use crate::sprite::AtlasSprite;
use crate::timer::AnimationTimer;
use crate::vector::{Position, Velocity};
use crate::world::InWorld;
use vstd::prelude::*;

verus! {

/// Marks an entity as steered by the keys. The camera carries it as well as
/// the player, so that the view follows the walk.
#[derive(Clone, Copy, Debug, PartialEq, Eq)]
pub struct MovePlayer;

/// Whether an entity is drawn.
#[derive(Clone, Copy, Debug, PartialEq, Eq)]
pub struct Visibility {
    /// The entity is drawn.
    pub is_visible: bool,
}

/// An entity: a bundle of optional components.
#[derive(Clone, Copy, Debug, PartialEq, Eq)]
pub struct Entity {
    /// Present if the entity is steered by the keys.
    pub move_player: Option<MovePlayer>,
    /// The displacement intended for this frame, under change detection.
    pub velocity: Option<Watched<Velocity>>,
    /// Where the entity stands.
    pub transform: Option<Position>,
    /// The clock that paces the entity's animation.
    pub timer: Option<AnimationTimer>,
    /// The animation frame that the entity shows.
    pub sprite: Option<AtlasSprite>,
    /// Whether the entity is drawn.
    pub visibility: Option<Visibility>,
    /// The world layer that the entity belongs to.
    pub in_world: Option<InWorld>,
}

impl View for Entity {
    type V = EntityModel;

    open spec fn view(&self) -> EntityModel {
        EntityModel {
            move_player: self.move_player is Some,
            velocity: match self.velocity {
                Some(velocity) => Some(velocity@),
                None => None,
            },
            transform: match self.transform {
                Some(place) => Some(place@),
                None => None,
            },
            timer: match self.timer {
                Some(timer) => Some(timer@),
                None => None,
            },
            sprite: match self.sprite {
                Some(sprite) => Some(sprite@),
                None => None,
            },
            visibility: match self.visibility {
                Some(visibility) => Some(visibility.is_visible),
                None => None,
            },
            in_world: self.in_world,
        }
    }
}

impl Entity {
    /// An entity without components.
    pub fn empty() -> (entity: Entity)
        ensures
            entity == (Entity {
                move_player: None,
                velocity: None,
                transform: None,
                timer: None,
                sprite: None,
                visibility: None,
                in_world: None,
            }),
    {
        Entity {
            move_player: None,
            velocity: None,
            transform: None,
            timer: None,
            sprite: None,
            visibility: None,
            in_world: None,
        }
    }

    /// The entity tagged for steering.
    pub fn with_move_player(self) -> (entity: Entity)
        ensures
            entity == (Entity { move_player: Some(MovePlayer), ..self }),
    {
        Entity { move_player: Some(MovePlayer), ..self }
    }

    /// The entity with a freshly added velocity, which counts as changed.
    pub fn with_velocity(self, velocity: Velocity) -> (entity: Entity)
        ensures
            entity == (Entity {
                velocity: Some(Watched { value: velocity, changed: true }),
                ..self
            }),
    {
        Entity { velocity: Some(Watched::new(velocity)), ..self }
    }

    /// The entity placed at `place`.
    pub fn with_transform(self, place: Position) -> (entity: Entity)
        ensures
            entity == (Entity { transform: Some(place), ..self }),
    {
        Entity { transform: Some(place), ..self }
    }

    /// The entity with an animation clock and the sprite that the clock
    /// drives.
    pub fn with_animation(self, timer: AnimationTimer, sprite: AtlasSprite) -> (entity: Entity)
        ensures
            entity == (Entity { timer: Some(timer), sprite: Some(sprite), ..self }),
    {
        Entity { timer: Some(timer), sprite: Some(sprite), ..self }
    }

    /// The entity drawn or hidden.
    pub fn with_visibility(self, is_visible: bool) -> (entity: Entity)
        ensures
            entity == (Entity { visibility: Some(Visibility { is_visible }), ..self }),
    {
        Entity { visibility: Some(Visibility { is_visible }), ..self }
    }

    /// The entity tagged as scenery of `world`.
    pub fn with_world(self, world: InWorld) -> (entity: Entity)
        ensures
            entity == (Entity { in_world: Some(world), ..self }),
    {
        Entity { in_world: Some(world), ..self }
    }

    /// Whether the entity answers to the keys.
    pub fn is_player(&self) -> (player: bool)
        ensures
            player == self@.is_player(),
    {
        self.move_player.is_some() && self.velocity.is_some()
    }

    /// Whether the entity is due to move.
    pub fn moves(&self) -> (due: bool)
        ensures
            due == self@.moves(),
    {
        match self.velocity {
            Some(velocity) => self.transform.is_some() && velocity.is_changed(),
            None => false,
        }
    }

    /// Whether the entity is due to animate.
    pub fn animates(&self) -> (due: bool)
        ensures
            due == self@.animates(),
    {
        match self.velocity {
            Some(velocity) => {
                self.timer.is_some() && self.sprite.is_some() && velocity.is_changed()
            },
            None => false,
        }
    }

    /// Whether the move that is due, if any, ends at a place that can be
    /// represented.
    pub fn can_move(&self) -> (ok: bool)
        ensures
            ok == self@.moved().placeable(),
    {
        match (self.transform, self.velocity) {
            (Some(place), Some(velocity)) => {
                !velocity.is_changed() || place.reaches(velocity.value)
            },
            _ => true,
        }
    }

    /// Whether the clock, if the entity is due to animate, accepts a tick of
    /// `delta` nanoseconds.
    pub fn can_animate(&self, delta: u64) -> (ok: bool)
        ensures
            ok == self@.accepts_tick(delta as nat),
    {
        match self.timer {
            Some(timer) => !self.animates() || timer.admits(delta),
            None => true,
        }
    }

    /// Steers the entity by the held keys: a player's velocity is reset if
    /// there is anything to reset, and then set to what the held keys ask for
    /// if any is held.
    pub fn steer(&mut self, keys: Keys)
        ensures
            final(self)@ == old(self)@.steered(keys),
    {
        if self.move_player.is_some() {
            if let Some(mut velocity) = self.velocity {
                if !velocity.value.is_zero() {
                    velocity.set(Velocity::zero());
                }
                if keys.any_held() {
                    velocity.set(keys.velocity());
                }
                self.velocity = Some(velocity);
            }
        }
    }

    /// Moves the entity by its velocity if the velocity was written this
    /// frame.
    pub fn shift(&mut self)
        requires
            old(self)@.moved().placeable(),
        ensures
            final(self)@ == old(self)@.moved(),
    {
        if let Some(velocity) = self.velocity {
            if velocity.is_changed() {
                if let Some(place) = self.transform {
                    self.transform = Some(place.moved(velocity.value));
                }
            }
        }
    }

    /// Animates the entity for `delta` nanoseconds if its velocity was written
    /// this frame.
    pub fn animate(&mut self, delta: u64)
        requires
            old(self)@.accepts_tick(delta as nat),
        ensures
            final(self)@ == old(self)@.animated(delta as nat),
    {
        if let Some(velocity) = self.velocity {
            if velocity.is_changed() {
                if let Some(mut timer) = self.timer {
                    if let Some(mut sprite) = self.sprite {
                        timer.tick(delta);
                        if velocity.value.is_zero() {
                            sprite.rest();
                        } else if timer.finished() {
                            sprite.advance();
                        }
                        self.timer = Some(timer);
                        self.sprite = Some(sprite);
                    }
                }
            }
        }
    }

    /// Draws or hides the entity, if it is scenery, according to whether its
    /// layer is `active`.
    pub fn show(&mut self, active: InWorld)
        ensures
            final(self)@ == old(self)@.shown(active),
    {
        if self.visibility.is_some() {
            if let Some(layer) = self.in_world {
                self.visibility = Some(Visibility { is_visible: layer == active });
            }
        }
    }

    /// Clears the velocity's change mark at the end of a frame.
    pub fn settle(&mut self)
        ensures
            final(self)@ == old(self)@.settled(),
    {
        if let Some(mut velocity) = self.velocity {
            velocity.settle();
            self.velocity = Some(velocity);
        }
    }
}

} // verus!
