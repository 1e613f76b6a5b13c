//! The four rules that run once per frame, each over every entity that
//! carries the components it asks for.

use crate::entity::Entity;
use crate::input::Keys;
use crate::model::{
    animated_all, has_player, moved_all, moves_fit, selected, shown_all, steered_all, ticks_fit,
    EntityModel,
};
use crate::vector::Vector;
use crate::world::{CurrentWorld, InWorld};
use vstd::prelude::*;

verus! {

/// The models of the stored entities, in order.
pub open spec fn models(entities: Seq<Entity>) -> Seq<EntityModel> {
    Seq::new(entities.len(), |i: int| entities[i]@)
}

/// Steers every player by the held keys and lets the keys pick the active
/// world.
///
/// Each player's velocity becomes the vector sum of the offsets of the held
/// keys. If there is a player at all, holding right makes the second world
/// active, holding left without right makes the main world active, and up and
/// down leave the selector alone. A world that is picked counts as written
/// even if it was active already.
pub fn move_player(keys: Keys, entities: &mut Vec<Entity>, current_world: &mut CurrentWorld)
    ensures
        final(entities)@.len() == old(entities)@.len(),
        models(final(entities)@) == steered_all(models(old(entities)@), keys),
        *final(current_world) == if has_player(models(old(entities)@)) {
            selected(*old(current_world), keys)
        } else {
            *old(current_world)
        },
        forall|i: int|
            0 <= i < old(entities)@.len() && (#[trigger] old(entities)@[i])@.is_player()
                ==> final(entities)@[i]@.velocity is Some
                && final(entities)@[i]@.velocity->0.value == keys.offset_sum(),
        forall|i: int|
            0 <= i < old(entities)@.len() && !(#[trigger] old(entities)@[i])@.is_player()
                ==> final(entities)@[i] == old(entities)@[i],
        has_player(models(old(entities)@)) && keys.right
            ==> final(current_world).value == InWorld::W2,
        has_player(models(old(entities)@)) && keys.left && !keys.right
            ==> final(current_world).value == InWorld::W1Main,
        !keys.left && !keys.right ==> *final(current_world) == *old(current_world),
{
    let n: usize = entities.len();
    let mut i: usize = 0;
    while i < n
        invariant
            i <= n,
            n == entities@.len(),
            n == old(entities)@.len(),
            forall|j: int|
                0 <= j < i ==> (#[trigger] entities@[j])@ == old(entities)@[j]@.steered(keys),
            forall|j: int|
                0 <= j < i && !(#[trigger] old(entities)@[j])@.is_player()
                    ==> entities@[j] == old(entities)@[j],
            forall|j: int| i <= j < n ==> #[trigger] entities@[j] == old(entities)@[j],
            *current_world == if has_player(models(old(entities)@).take(i as int)) {
                selected(*old(current_world), keys)
            } else {
                *old(current_world)
            },
        decreases n - i,
    {
        let ghost seen = models(old(entities)@).take(i as int);
        let ghost next = models(old(entities)@).take(i + 1);
        let mut entity = entities[i];
        if entity.is_player() {
            entity.steer(keys);
            if let Some(world) = keys.requested_world() {
                current_world.set(world);
            }
            entities[i] = entity;
            assert(next[i as int].is_player());
        } else {
            assert(has_player(next) == has_player(seen)) by {
                if has_player(next) {
                    let j = choose|j: int| 0 <= j < next.len() && (#[trigger] next[j]).is_player();
                    assert(seen[j].is_player());
                }
                if has_player(seen) {
                    let j = choose|j: int| 0 <= j < seen.len() && (#[trigger] seen[j]).is_player();
                    assert(next[j].is_player());
                }
            }
        }
        i += 1;
    }
    assert(models(old(entities)@).take(n as int) == models(old(entities)@));
}

/// Moves every entity whose velocity was written this frame by that velocity.
///
/// An entity whose velocity was not written is skipped entirely, however fast
/// it is: its position stays as it was.
pub fn update_transform_from_velocity(entities: &mut Vec<Entity>)
    requires
        moves_fit(models(old(entities)@)),
    ensures
        final(entities)@.len() == old(entities)@.len(),
        models(final(entities)@) == moved_all(models(old(entities)@)),
        forall|i: int|
            0 <= i < old(entities)@.len() && !(#[trigger] old(entities)@[i])@.moves()
                ==> final(entities)@[i] == old(entities)@[i],
{
    let n: usize = entities.len();
    let mut i: usize = 0;
    while i < n
        invariant
            i <= n,
            n == entities@.len(),
            n == old(entities)@.len(),
            moves_fit(models(old(entities)@)),
            forall|j: int|
                0 <= j < i ==> (#[trigger] entities@[j])@ == old(entities)@[j]@.moved(),
            forall|j: int|
                0 <= j < i && !(#[trigger] old(entities)@[j])@.moves()
                    ==> entities@[j] == old(entities)@[j],
            forall|j: int| i <= j < n ==> #[trigger] entities@[j] == old(entities)@[j],
        decreases n - i,
    {
        let mut entity = entities[i];
        if entity.moves() {
            assert(models(old(entities)@)[i as int].moved().placeable());
            entity.shift();
            entities[i] = entity;
        }
        i += 1;
    }
}

/// Animates every entity whose velocity was written this frame, for `delta`
/// nanoseconds.
///
/// Such an entity shows the idle pose if it stands still, and otherwise steps
/// to the next frame of its strip if its clock completes a round. An entity
/// whose velocity was not written is skipped entirely: its clock does not run
/// and its frame stays, even while it is moving.
pub fn animate_sprite_system_velocity(delta: u64, entities: &mut Vec<Entity>)
    requires
        ticks_fit(models(old(entities)@), delta as nat),
    ensures
        final(entities)@.len() == old(entities)@.len(),
        models(final(entities)@) == animated_all(models(old(entities)@), delta as nat),
        forall|i: int|
            0 <= i < old(entities)@.len() && (#[trigger] old(entities)@[i])@.animates()
                && old(entities)@[i]@.velocity->0.value == Vector::zero()
                ==> final(entities)@[i]@.sprite->0.index == 0,
        forall|i: int|
            0 <= i < old(entities)@.len() && !(#[trigger] old(entities)@[i])@.animates()
                ==> final(entities)@[i] == old(entities)@[i],
{
    let n: usize = entities.len();
    let mut i: usize = 0;
    while i < n
        invariant
            i <= n,
            n == entities@.len(),
            n == old(entities)@.len(),
            ticks_fit(models(old(entities)@), delta as nat),
            forall|j: int|
                0 <= j < i ==> (#[trigger] entities@[j])@ == old(entities)@[j]@.animated(
                    delta as nat,
                ),
            forall|j: int|
                0 <= j < i && !(#[trigger] old(entities)@[j])@.animates()
                    ==> entities@[j] == old(entities)@[j],
            forall|j: int| i <= j < n ==> #[trigger] entities@[j] == old(entities)@[j],
        decreases n - i,
    {
        let mut entity = entities[i];
        if entity.animates() {
            assert(models(old(entities)@)[i as int].accepts_tick(delta as nat));
            entity.animate(delta);
            entities[i] = entity;
        }
        i += 1;
    }
}

/// Draws the scenery of the active world and hides the rest, on frames in
/// which the world selector was written.
///
/// On such a frame an entity with a layer tag is visible exactly when its tag
/// names the active world. On any other frame nothing is touched.
pub fn switch_world(current_world: &CurrentWorld, entities: &mut Vec<Entity>)
    ensures
        final(entities)@.len() == old(entities)@.len(),
        models(final(entities)@) == shown_all(models(old(entities)@), *current_world),
        current_world.changed ==> forall|i: int|
            0 <= i < final(entities)@.len() && (#[trigger] final(entities)@[i])@.is_scenery()
                ==> final(entities)@[i]@.visibility == Some(
                final(entities)@[i]@.in_world == Some(current_world.value),
            ),
        !current_world.changed ==> final(entities)@ == old(entities)@,
{
    if current_world.is_changed() {
        let n: usize = entities.len();
        let mut i: usize = 0;
        while i < n
            invariant
                i <= n,
                n == entities@.len(),
                n == old(entities)@.len(),
                forall|j: int|
                    0 <= j < i ==> (#[trigger] entities@[j])@ == old(entities)@[j]@.shown(
                        current_world.value,
                    ),
                forall|j: int| i <= j < n ==> #[trigger] entities@[j] == old(entities)@[j],
            decreases n - i,
        {
            let mut entity = entities[i];
            entity.show(current_world.value);
            entities[i] = entity;
            i += 1;
        }
    }
}

} // verus!
