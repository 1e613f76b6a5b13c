//! The mathematical model of the game: what an entity is, what each of the
//! four per-frame rules does to it, and what a whole frame does to a scene.

use crate::change::Watched;
use crate::input::Keys;
use crate::sprite::SpriteModel;
use crate::timer::TimerModel;
use crate::vector::Vector;
use crate::world::{CurrentWorld, InWorld};
use vstd::prelude::*;

verus! {

/// An entity: a bundle of optional components.
pub struct EntityModel {
    /// Whether the entity is steered by the keys.
    pub move_player: bool,
    /// The displacement intended for this frame, under change detection.
    pub velocity: Option<Watched<Vector>>,
    /// Where the entity stands.
    pub transform: Option<Vector>,
    /// The clock that paces the entity's animation.
    pub timer: Option<TimerModel>,
    /// The animation frame that the entity shows.
    pub sprite: Option<SpriteModel>,
    /// Whether the entity is drawn.
    pub visibility: Option<bool>,
    /// The world layer that the entity belongs to.
    pub in_world: Option<InWorld>,
}

impl EntityModel {
    /// The clock and the sprite, where present, are well-formed.
    pub open spec fn wf(self) -> bool {
        &&& self.timer matches Some(timer) ==> timer.wf()
        &&& self.sprite matches Some(sprite) ==> sprite.wf()
    }

    /// The position, where present, fits the machine representation.
    pub open spec fn placeable(self) -> bool {
        self.transform matches Some(place) ==> place.fits_i64()
    }

    /// The entity answers to the keys: it is tagged for steering and has a
    /// velocity to steer.
    pub open spec fn is_player(self) -> bool {
        self.move_player && self.velocity is Some
    }

    /// The entity is due to move: it has a position, and a velocity that was
    /// written this frame.
    pub open spec fn moves(self) -> bool {
        self.transform is Some && self.velocity is Some && self.velocity->0.changed
    }

    /// The entity is due to animate: it has a clock, a sprite, and a velocity
    /// that was written this frame.
    pub open spec fn animates(self) -> bool {
        self.timer is Some && self.sprite is Some && self.velocity is Some
            && self.velocity->0.changed
    }

    /// The entity is scenery of a world layer: it has a visibility and a
    /// layer tag.
    pub open spec fn is_scenery(self) -> bool {
        self.visibility is Some && self.in_world is Some
    }

    /// The entity's clock, if it is due to animate, accepts a tick of `delta`
    /// nanoseconds.
    pub open spec fn accepts_tick(self, delta: nat) -> bool {
        self.animates() ==> self.timer->0.admits(delta)
    }

    /// The entity has everything that animation asks for: a clock, a sprite
    /// and a velocity.
    pub open spec fn is_animated(self) -> bool {
        self.timer is Some && self.sprite is Some && self.velocity is Some
    }

    /// If the entity is animated, stands still and its velocity carries no
    /// change mark, then it shows the idle pose.
    pub open spec fn rests(self) -> bool {
        self.is_animated() && !self.velocity->0.changed
            && self.velocity->0.value == Vector::zero() ==> self.sprite->0.index == 0
    }

    /// The entity after one frame in which steering left the world selector at
    /// `current`.
    pub open spec fn after_frame(
        self,
        keys: Keys,
        delta: nat,
        current: CurrentWorld,
    ) -> EntityModel {
        let drawn = self.steered(keys).moved().animated(delta);
        if current.changed {
            drawn.shown(current.value).settled()
        } else {
            drawn.settled()
        }
    }

    /// Whether a frame with these inputs stays within machine limits for this
    /// entity: the move that steering makes due ends at a place that can be
    /// represented, and the clock accepts the tick.
    pub open spec fn admits(self, keys: Keys, delta: nat) -> bool {
        &&& self.steered(keys).moved().placeable()
        &&& self.steered(keys).moved().accepts_tick(delta)
    }

    /// Steering. A player's velocity is reset and then receives the offset of
    /// every held key. It counts as written if it was already marked, if the
    /// reset had something to clear, or if any key is held. Other entities are
    /// left alone.
    pub open spec fn steered(self, keys: Keys) -> EntityModel {
        if self.is_player() {
            let before = self.velocity->0;
            EntityModel {
                velocity: Some(
                    Watched {
                        value: keys.offset_sum(),
                        changed: before.changed || before.value != Vector::zero() || keys.any(),
                    },
                ),
                ..self
            }
        } else {
            self
        }
    }

    /// Movement. An entity that is due to move has its velocity added to its
    /// position; any other entity is left alone.
    pub open spec fn moved(self) -> EntityModel {
        if self.moves() {
            EntityModel {
                transform: Some(self.transform->0.plus(self.velocity->0.value)),
                ..self
            }
        } else {
            self
        }
    }

    /// Animation. An entity that is due to animate has its clock advanced by
    /// `delta` nanoseconds. Standing still, it then shows the idle pose
    /// whatever the clock says; moving, it shows the next frame if the clock
    /// finished a round. Any other entity is left alone, clock included.
    pub open spec fn animated(self, delta: nat) -> EntityModel {
        if self.animates() {
            let timer = self.timer->0.ticked(delta);
            let sprite = self.sprite->0;
            EntityModel {
                timer: Some(timer),
                sprite: Some(
                    if self.velocity->0.value == Vector::zero() {
                        sprite.rested()
                    } else if timer.finished {
                        sprite.advanced()
                    } else {
                        sprite
                    },
                ),
                ..self
            }
        } else {
            self
        }
    }

    /// Layer switch. Scenery is drawn exactly when its layer is `active`; any
    /// other entity is left alone.
    pub open spec fn shown(self, active: InWorld) -> EntityModel {
        if self.is_scenery() {
            EntityModel { visibility: Some(self.in_world->0 == active), ..self }
        } else {
            self
        }
    }

    /// End of frame. The velocity's change mark is cleared.
    pub open spec fn settled(self) -> EntityModel {
        match self.velocity {
            Some(velocity) => EntityModel {
                velocity: Some(Watched { value: velocity.value, changed: false }),
                ..self
            },
            None => self,
        }
    }
}

/// The world selector after the keys had their say: a request is stored and
/// marks the selector as changed, even when it names the world that is already
/// active; without a request the selector is left alone.
pub open spec fn selected(current: CurrentWorld, keys: Keys) -> CurrentWorld {
    match keys.request() {
        Some(world) => Watched { value: world, changed: true },
        None => current,
    }
}

/// Whether some entity answers to the keys.
pub open spec fn has_player(entities: Seq<EntityModel>) -> bool {
    exists|i: int| 0 <= i < entities.len() && (#[trigger] entities[i]).is_player()
}

/// Every entity is well-formed.
pub open spec fn all_wf(entities: Seq<EntityModel>) -> bool {
    forall|i: int| 0 <= i < entities.len() ==> (#[trigger] entities[i]).wf()
}

/// Every entity steered by `keys`.
pub open spec fn steered_all(entities: Seq<EntityModel>, keys: Keys) -> Seq<EntityModel> {
    Seq::new(entities.len(), |i: int| entities[i].steered(keys))
}

/// Every entity moved by its velocity.
pub open spec fn moved_all(entities: Seq<EntityModel>) -> Seq<EntityModel> {
    Seq::new(entities.len(), |i: int| entities[i].moved())
}

/// Every entity animated for `delta` nanoseconds.
pub open spec fn animated_all(entities: Seq<EntityModel>, delta: nat) -> Seq<EntityModel> {
    Seq::new(entities.len(), |i: int| entities[i].animated(delta))
}

/// Every entity shown or hidden for the selector `current`: nothing happens
/// unless the selector was written this frame.
pub open spec fn shown_all(
    entities: Seq<EntityModel>,
    current: CurrentWorld,
) -> Seq<EntityModel> {
    if current.changed {
        Seq::new(entities.len(), |i: int| entities[i].shown(current.value))
    } else {
        entities
    }
}

/// Every entity with its change mark cleared.
pub open spec fn settled_all(entities: Seq<EntityModel>) -> Seq<EntityModel> {
    Seq::new(entities.len(), |i: int| entities[i].settled())
}

/// Every move that is due ends at a place that can be represented.
pub open spec fn moves_fit(entities: Seq<EntityModel>) -> bool {
    forall|i: int| 0 <= i < entities.len() ==> (#[trigger] entities[i]).moved().placeable()
}

/// Every clock that is due to run accepts a tick of `delta` nanoseconds.
pub open spec fn ticks_fit(entities: Seq<EntityModel>, delta: nat) -> bool {
    forall|i: int| 0 <= i < entities.len() ==> (#[trigger] entities[i]).accepts_tick(delta)
}

/// A scene: the entities and the selector of the active world.
pub struct SceneModel {
    /// The entities, in the order in which they were added.
    pub entities: Seq<EntityModel>,
    /// The active world, under change detection.
    pub current_world: CurrentWorld,
}

impl SceneModel {
    /// Every entity is well-formed.
    pub open spec fn wf(self) -> bool {
        all_wf(self.entities)
    }

    /// The scene after the steering rule.
    pub open spec fn steered(self, keys: Keys) -> SceneModel {
        SceneModel {
            entities: steered_all(self.entities, keys),
            current_world: if has_player(self.entities) {
                selected(self.current_world, keys)
            } else {
                self.current_world
            },
        }
    }

    /// The scene after the movement rule.
    pub open spec fn moved(self) -> SceneModel {
        SceneModel { entities: moved_all(self.entities), ..self }
    }

    /// The scene after the animation rule.
    pub open spec fn animated(self, delta: nat) -> SceneModel {
        SceneModel { entities: animated_all(self.entities, delta), ..self }
    }

    /// The scene after the layer-switch rule.
    pub open spec fn shown(self) -> SceneModel {
        SceneModel { entities: shown_all(self.entities, self.current_world), ..self }
    }

    /// The scene with every change mark cleared.
    pub open spec fn settled(self) -> SceneModel {
        SceneModel {
            entities: settled_all(self.entities),
            current_world: Watched { value: self.current_world.value, changed: false },
        }
    }

    /// The scene after one frame: the four rules in their fixed order, then
    /// the change marks are cleared for the next frame.
    pub open spec fn after_frame(self, keys: Keys, delta: nat) -> SceneModel {
        self.steered(keys).moved().animated(delta).shown().settled()
    }

    /// The scene after a run of frames, one for each entry of `inputs`: the
    /// keys held during the frame and the nanoseconds passed.
    pub open spec fn after_frames(self, inputs: Seq<(Keys, nat)>) -> SceneModel
        decreases inputs.len(),
    {
        if inputs.len() == 0 {
            self
        } else {
            self.after_frames(inputs.drop_last()).after_frame(inputs.last().0, inputs.last().1)
        }
    }

    /// The scene after a run of idle frames, one for each entry of `deltas`:
    /// no key is held, and the entries give the nanoseconds passed.
    pub open spec fn after_idle_frames(self, deltas: Seq<nat>) -> SceneModel
        decreases deltas.len(),
    {
        if deltas.len() == 0 {
            self
        } else {
            self.after_idle_frames(deltas.drop_last()).after_frame(Keys::idle(), deltas.last())
        }
    }

    /// No change mark is set: the scene is as a finished frame leaves it.
    pub open spec fn quiet(self) -> bool {
        &&& !self.current_world.changed
        &&& forall|i: int|
            0 <= i < self.entities.len() && (#[trigger] self.entities[i]).velocity is Some
                ==> !self.entities[i].velocity->0.changed
    }

    /// Every player stands still.
    pub open spec fn still(self) -> bool {
        forall|i: int|
            0 <= i < self.entities.len() && (#[trigger] self.entities[i]).is_player()
                ==> self.entities[i].velocity->0.value == Vector::zero()
    }

    /// Every animated entity that stands still, and whose velocity carries no
    /// change mark, shows the idle pose.
    pub open spec fn rests(self) -> bool {
        forall|i: int| 0 <= i < self.entities.len() ==> (#[trigger] self.entities[i]).rests()
    }

    /// Every piece of scenery is drawn exactly when its layer is the active
    /// world.
    pub open spec fn layers_shown(self) -> bool {
        forall|i: int|
            0 <= i < self.entities.len() && (#[trigger] self.entities[i]).is_scenery()
                ==> self.entities[i].visibility == Some(
                self.entities[i].in_world == Some(self.current_world.value),
            )
    }

    /// Whether a frame with these inputs stays within machine limits for
    /// every entity.
    pub open spec fn admits(self, keys: Keys, delta: nat) -> bool {
        forall|i: int|
            0 <= i < self.entities.len() ==> (#[trigger] self.entities[i]).admits(keys, delta)
    }
}

} // verus!
