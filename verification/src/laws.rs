//! What holds of every scene and every frame.

use crate::change::Watched;
use crate::input::{Key, Keys, SPEED};
use crate::model::{has_player, SceneModel};
use crate::scene::{
    initial_scene, CAMERA, MAIN_SCENERY, PLAYER, PLAYER_FRAMES, SECOND_SCENERY,
};
use crate::sprite::lemma_advanced_wf;
use crate::timer::lemma_ticked_wf;
use crate::vector::Vector;
use crate::world::InWorld;
use vstd::prelude::*;

verus! {

/// One for a held key, zero for a released one.
pub open spec fn weight(held: bool) -> int {
    if held {
        1
    } else {
        0
    }
}

/// The velocity asked for by any combination of keys is the vector sum of the
/// offsets of the held keys: right against left along x, up against down
/// along y, nothing along z.
pub proof fn lemma_velocity_adds_key_offsets(keys: Keys)
    ensures
        keys.offset_sum() == Vector::zero().plus(keys.push(Key::Left)).plus(
            keys.push(Key::Right),
        ).plus(keys.push(Key::Up)).plus(keys.push(Key::Down)),
        keys.offset_sum() == (Vector {
            x: SPEED * (weight(keys.right) - weight(keys.left)),
            y: SPEED * (weight(keys.up) - weight(keys.down)),
            z: 0,
        }),
        !keys.any() ==> keys.offset_sum() == Vector::zero(),
{
}

/// A frame takes each entity through the four rules on its own; all that the
/// entities share is the world selector as steering leaves it.
pub proof fn lemma_frame_acts_entity_by_entity(scene: SceneModel, keys: Keys, delta: nat, i: int)
    requires
        0 <= i < scene.entities.len(),
    ensures
        scene.after_frame(keys, delta).entities.len() == scene.entities.len(),
        scene.after_frame(keys, delta).entities[i] == scene.entities[i].after_frame(
            keys,
            delta,
            scene.steered(keys).current_world,
        ),
        scene.after_frame(keys, delta).current_world.value
            == scene.steered(keys).current_world.value,
        !scene.after_frame(keys, delta).current_world.changed,
{
}

/// A frame neither adds nor removes an entity or a component, and changes no
/// steering tag, no layer tag, no clock's period and no strip's length.
pub proof fn lemma_frame_keeps_shape(scene: SceneModel, keys: Keys, delta: nat, i: int)
    requires
        0 <= i < scene.entities.len(),
    ensures
        scene.after_frame(keys, delta).entities.len() == scene.entities.len(),
        ({
            let before = scene.entities[i];
            let after = scene.after_frame(keys, delta).entities[i];
            &&& after.move_player == before.move_player
            &&& after.in_world == before.in_world
            &&& (after.velocity is Some) == (before.velocity is Some)
            &&& (after.transform is Some) == (before.transform is Some)
            &&& (after.visibility is Some) == (before.visibility is Some)
            &&& (after.timer is Some) == (before.timer is Some)
            &&& (after.sprite is Some) == (before.sprite is Some)
            &&& before.timer is Some ==> after.timer->0.period == before.timer->0.period
            &&& before.sprite is Some ==> after.sprite->0.frames == before.sprite->0.frames
        }),
{
    lemma_frame_acts_entity_by_entity(scene, keys, delta, i);
}

/// At the end of a frame, every player's velocity is the vector sum of the
/// offsets of the keys held during that frame, whatever it was before.
pub proof fn lemma_frame_sets_player_velocity(scene: SceneModel, keys: Keys, delta: nat, i: int)
    requires
        0 <= i < scene.entities.len(),
        scene.entities[i].is_player(),
    ensures
        scene.after_frame(keys, delta).entities[i].velocity == Some(
            Watched { value: keys.offset_sum(), changed: false },
        ),
{
    lemma_frame_acts_entity_by_entity(scene, keys, delta, i);
}

/// In a scene with a player, a frame with right held makes the second world
/// active, a frame with left held and right released makes the main world
/// active, and a frame with neither leaves the active world as it was,
/// whatever up and down do.
pub proof fn lemma_frame_selects_world(scene: SceneModel, keys: Keys, delta: nat)
    ensures
        has_player(scene.entities) && keys.right
            ==> scene.after_frame(keys, delta).current_world.value == InWorld::W2,
        has_player(scene.entities) && keys.left && !keys.right
            ==> scene.after_frame(keys, delta).current_world.value == InWorld::W1Main,
        !keys.left && !keys.right
            ==> scene.after_frame(keys, delta).current_world.value == scene.current_world.value,
{
}

/// An animated entity that stands still after steering shows the idle pose at
/// the end of that frame, if steering marked its velocity as written or it
/// showed the idle pose already.
///
/// The condition is needed because animation skips an entity whose velocity
/// nothing wrote, and so leaves such an entity on the frame that it shows.
pub proof fn lemma_still_entity_shows_idle_pose(scene: SceneModel, keys: Keys, delta: nat, i: int)
    requires
        0 <= i < scene.entities.len(),
        scene.entities[i].is_animated(),
        scene.steered(keys).entities[i].velocity->0.value == Vector::zero(),
        scene.steered(keys).entities[i].velocity->0.changed
            || scene.entities[i].sprite->0.index == 0,
    ensures
        scene.after_frame(keys, delta).entities[i].sprite->0.index == 0,
{
    lemma_frame_acts_entity_by_entity(scene, keys, delta, i);
}

/// A scene in which every still entity shows the idle pose is such a scene
/// again after any frame: coming to a stop marks the velocity as written, and
/// that brings the idle pose back.
pub proof fn lemma_frame_keeps_still_entities_at_rest(scene: SceneModel, keys: Keys, delta: nat)
    requires
        scene.rests(),
    ensures
        scene.after_frame(keys, delta).rests(),
        forall|i: int|
            0 <= i < scene.entities.len()
                && (#[trigger] scene.after_frame(keys, delta).entities[i]).is_animated()
                && scene.after_frame(keys, delta).entities[i].velocity->0.value == Vector::zero()
                ==> scene.after_frame(keys, delta).entities[i].sprite->0.index == 0,
{
    let next = scene.after_frame(keys, delta);
    assert forall|i: int| 0 <= i < next.entities.len() implies
        (#[trigger] next.entities[i]).rests() by {
        lemma_frame_acts_entity_by_entity(scene, keys, delta, i);
        assert(scene.entities[i].rests());
    }
    assert forall|i: int|
        0 <= i < scene.entities.len() && (#[trigger] next.entities[i]).is_animated()
            && next.entities[i].velocity->0.value == Vector::zero()
        implies next.entities[i].sprite->0.index == 0 by {
        lemma_frame_acts_entity_by_entity(scene, keys, delta, i);
        assert(next.entities[i].rests());
    }
}

/// After a frame, the scenery of the active world is drawn and the scenery of
/// the other world is hidden, if the world selector is marked as written when
/// steering is done, or if the scenery was drawn that way before.
///
/// The condition is needed because the layer switch does nothing on a frame
/// in which nothing wrote the selector.
pub proof fn lemma_frame_shows_active_layer(scene: SceneModel, keys: Keys, delta: nat)
    requires
        scene.steered(keys).current_world.changed || scene.layers_shown(),
    ensures
        scene.after_frame(keys, delta).layers_shown(),
{
    let next = scene.after_frame(keys, delta);
    assert forall|i: int|
        0 <= i < next.entities.len() && (#[trigger] next.entities[i]).is_scenery()
        implies next.entities[i].visibility == Some(
        next.entities[i].in_world == Some(next.current_world.value),
    ) by {
        lemma_frame_acts_entity_by_entity(scene, keys, delta, i);
        if !scene.steered(keys).current_world.changed {
            assert(scene.entities[i].is_scenery());
        }
    }
}

/// A frame moves an entity by its velocity if steering wrote that velocity or
/// the velocity was marked already, and otherwise leaves the entity where it
/// was.
pub proof fn lemma_frame_moves_only_written_velocity(
    scene: SceneModel,
    keys: Keys,
    delta: nat,
    i: int,
)
    requires
        0 <= i < scene.entities.len(),
    ensures
        ({
            let before = scene.entities[i];
            let steered = scene.steered(keys).entities[i];
            let after = scene.after_frame(keys, delta).entities[i];
            &&& steered.moves() ==> after.transform == Some(
                before.transform->0.plus(steered.velocity->0.value),
            )
            &&& !steered.moves() ==> after.transform == before.transform
        }),
{
}

/// An entity that stands still stays where it is through a frame without
/// keys, and still stands still afterwards.
pub proof fn lemma_idle_frame_keeps_still_entity_in_place(scene: SceneModel, delta: nat, i: int)
    requires
        0 <= i < scene.entities.len(),
        scene.entities[i].velocity is Some ==> scene.entities[i].velocity->0.value
            == Vector::zero(),
    ensures
        scene.after_frame(Keys::idle(), delta).entities.len() == scene.entities.len(),
        scene.after_frame(Keys::idle(), delta).entities[i].transform
            == scene.entities[i].transform,
        scene.after_frame(Keys::idle(), delta).entities[i].velocity is Some
            ==> scene.after_frame(Keys::idle(), delta).entities[i].velocity->0.value
            == Vector::zero(),
{
    lemma_frame_acts_entity_by_entity(scene, Keys::idle(), delta, i);
}

/// However many frames pass without keys, an entity that stands still stays
/// where it is.
pub proof fn lemma_idle_frames_keep_still_entity_in_place(
    scene: SceneModel,
    deltas: Seq<nat>,
    i: int,
)
    requires
        0 <= i < scene.entities.len(),
        scene.entities[i].velocity is Some ==> scene.entities[i].velocity->0.value
            == Vector::zero(),
    ensures
        scene.after_idle_frames(deltas).entities.len() == scene.entities.len(),
        scene.after_idle_frames(deltas).entities[i].transform == scene.entities[i].transform,
        scene.after_idle_frames(deltas).entities[i].velocity is Some
            ==> scene.after_idle_frames(deltas).entities[i].velocity->0.value == Vector::zero(),
    decreases deltas.len(),
{
    if deltas.len() > 0 {
        lemma_idle_frames_keep_still_entity_in_place(scene, deltas.drop_last(), i);
        lemma_idle_frame_keeps_still_entity_in_place(
            scene.after_idle_frames(deltas.drop_last()),
            deltas.last(),
            i,
        );
    }
}

/// A frame without keys changes nothing at all in a quiet scene whose players
/// stand still: no position, no clock, no frame of animation.
pub proof fn lemma_idle_frame_changes_nothing(scene: SceneModel, delta: nat)
    requires
        scene.quiet(),
        scene.still(),
    ensures
        scene.after_frame(Keys::idle(), delta) == scene,
{
    let next = scene.after_frame(Keys::idle(), delta);
    assert forall|i: int| 0 <= i < scene.entities.len() implies next.entities[i]
        == scene.entities[i] by {
        lemma_frame_acts_entity_by_entity(scene, Keys::idle(), delta, i);
        let entity = scene.entities[i];
        if entity.is_player() {
            assert(entity.velocity->0.value == Vector::zero());
        }
        if entity.velocity is Some {
            assert(!entity.velocity->0.changed);
        }
    }
    assert(next.entities =~= scene.entities);
}

/// However many frames pass without keys, and however long they take, a quiet
/// scene whose players stand still stays exactly as it is.
pub proof fn lemma_idle_frames_change_nothing(scene: SceneModel, deltas: Seq<nat>)
    requires
        scene.quiet(),
        scene.still(),
    ensures
        scene.after_idle_frames(deltas) == scene,
    decreases deltas.len(),
{
    if deltas.len() > 0 {
        lemma_idle_frames_change_nothing(scene, deltas.drop_last());
        lemma_idle_frame_changes_nothing(scene, deltas.last());
    }
}

/// Every frame leaves the scene quiet, and leaves a well-formed scene
/// well-formed: no sprite ever shows a frame beyond the end of its strip.
pub proof fn lemma_frame_settles(scene: SceneModel, keys: Keys, delta: nat)
    ensures
        scene.after_frame(keys, delta).quiet(),
        scene.wf() ==> scene.after_frame(keys, delta).wf(),
{
    let next = scene.after_frame(keys, delta);
    assert forall|i: int|
        0 <= i < next.entities.len() && (#[trigger] next.entities[i]).velocity is Some
        implies !next.entities[i].velocity->0.changed by {
        lemma_frame_acts_entity_by_entity(scene, keys, delta, i);
    }
    if scene.wf() {
        assert forall|i: int| 0 <= i < next.entities.len() implies
            (#[trigger] next.entities[i]).wf() by {
            lemma_frame_acts_entity_by_entity(scene, keys, delta, i);
            let entity = scene.entities[i];
            assert(entity.wf());
            if entity.timer is Some {
                lemma_ticked_wf(entity.timer->0, delta);
            }
            if entity.sprite is Some {
                lemma_advanced_wf(entity.sprite->0);
            }
        }
    }
}

/// The scene that the game starts from is well-formed, at rest, and shows the
/// main world.
pub proof fn lemma_initial_scene_is_sound()
    ensures
        initial_scene().wf(),
        initial_scene().rests(),
        initial_scene().still(),
        initial_scene().layers_shown(),
        initial_scene().current_world.value == InWorld::W1Main,
{
}

/// Whatever keys are held and however long the frames take, the game that
/// starts from the initial scene keeps its four entities, shows a frame of
/// the player's strip and never one beyond its last, shows the idle pose
/// whenever the player stands still, keeps the camera on the player, and
/// draws exactly the scenery of the active world.
pub proof fn lemma_game_stays_sound(inputs: Seq<(Keys, nat)>)
    ensures
        ({
            let scene = initial_scene().after_frames(inputs);
            let player = scene.entities[PLAYER as int];
            &&& scene.entities.len() == 4
            &&& scene.wf()
            &&& scene.rests()
            &&& scene.layers_shown()
            &&& inputs.len() > 0 ==> scene.quiet()
            &&& player.is_animated()
            &&& player.sprite->0.frames == PLAYER_FRAMES
            &&& player.sprite->0.index < PLAYER_FRAMES
            &&& player.velocity->0.value == Vector::zero() ==> player.sprite->0.index == 0
            &&& scene.entities[CAMERA as int].is_player() && player.is_player()
            &&& scene.entities[CAMERA as int].velocity == player.velocity
            &&& scene.entities[CAMERA as int].transform == player.transform
            &&& scene.entities[MAIN_SCENERY as int].in_world == Some(InWorld::W1Main)
            &&& scene.entities[MAIN_SCENERY as int].visibility == Some(
                scene.current_world.value == InWorld::W1Main,
            )
            &&& scene.entities[SECOND_SCENERY as int].in_world == Some(InWorld::W2)
            &&& scene.entities[SECOND_SCENERY as int].visibility == Some(
                scene.current_world.value == InWorld::W2,
            )
        }),
    decreases inputs.len(),
{
    lemma_initial_scene_is_sound();
    if inputs.len() > 0 {
        let before = initial_scene().after_frames(inputs.drop_last());
        let (keys, delta) = inputs.last();
        let scene = before.after_frame(keys, delta);
        lemma_game_stays_sound(inputs.drop_last());
        lemma_frame_settles(before, keys, delta);
        lemma_frame_keeps_still_entities_at_rest(before, keys, delta);
        lemma_frame_shows_active_layer(before, keys, delta);
        lemma_frame_acts_entity_by_entity(before, keys, delta, CAMERA as int);
        lemma_frame_acts_entity_by_entity(before, keys, delta, PLAYER as int);
        lemma_frame_keeps_shape(before, keys, delta, PLAYER as int);
        lemma_frame_keeps_shape(before, keys, delta, MAIN_SCENERY as int);
        lemma_frame_keeps_shape(before, keys, delta, SECOND_SCENERY as int);
        assert(scene.entities[PLAYER as int].wf());
        assert(scene.entities[PLAYER as int].rests());
        assert(scene.entities[MAIN_SCENERY as int].is_scenery());
        assert(scene.entities[SECOND_SCENERY as int].is_scenery());
    } else {
        let scene = initial_scene();
        assert(scene.entities[MAIN_SCENERY as int].is_scenery());
        assert(scene.entities[SECOND_SCENERY as int].is_scenery());
    }
}

} // verus!
