use twin_worlds::{
    move_player, CurrentWorld, Entity, InWorld, Keys, Position, Velocity, Watched, SPEED,
};

fn keys(left: bool, right: bool, up: bool, down: bool) -> Keys {
    Keys { left, right, up, down }
}

fn walker() -> Entity {
    Entity::empty()
        .with_transform(Position::new(0, 0, 0))
        .with_move_player()
        .with_velocity(Velocity::default())
}

fn settled(mut entity: Entity) -> Entity {
    entity.settle();
    entity
}

fn quiet(world: InWorld) -> CurrentWorld {
    Watched { value: world, changed: false }
}

#[test]
fn speed_is_five_units_per_frame() {
    assert_eq!(SPEED, 5);
    assert_eq!(keys(false, true, false, false).velocity(), Velocity::new(5, 0, 0));
    assert_eq!(keys(true, false, false, false).velocity(), Velocity::new(-5, 0, 0));
    assert_eq!(keys(false, false, true, false).velocity(), Velocity::new(0, 5, 0));
    assert_eq!(keys(false, false, false, true).velocity(), Velocity::new(0, -5, 0));
}

#[test]
fn left_and_up_give_a_diagonal() {
    assert_eq!(keys(true, false, true, false).velocity(), Velocity::new(-5, 5, 0));
}

#[test]
fn diagonal_is_not_normalised() {
    let v = keys(false, true, false, true).velocity();
    assert_eq!(v, Velocity::new(5, -5, 0));
    assert_eq!(v.x * v.x + v.y * v.y, 50);
}

#[test]
fn opposite_keys_cancel() {
    assert_eq!(keys(true, true, false, false).velocity(), Velocity::new(0, 0, 0));
    assert_eq!(keys(false, false, true, true).velocity(), Velocity::new(0, 0, 0));
    assert_eq!(keys(true, true, true, true).velocity(), Velocity::new(0, 0, 0));
    assert_eq!(keys(true, true, true, false).velocity(), Velocity::new(0, 5, 0));
}

#[test]
fn every_combination_is_the_sum_of_its_offsets() {
    for bits in 0..16u8 {
        let held = keys(bits & 1 != 0, bits & 2 != 0, bits & 4 != 0, bits & 8 != 0);
        let mut x = 0;
        let mut y = 0;
        if held.left {
            x -= 5;
        }
        if held.right {
            x += 5;
        }
        if held.up {
            y += 5;
        }
        if held.down {
            y -= 5;
        }
        assert_eq!(held.velocity(), Velocity::new(x, y, 0));

        let mut entities = vec![settled(walker())];
        let mut world = quiet(InWorld::W1Main);
        move_player(held, &mut entities, &mut world);
        assert_eq!(entities[0].velocity.unwrap().value, Velocity::new(x, y, 0));
        assert_eq!(entities[0].velocity.unwrap().changed, held.any_held());
    }
}

#[test]
fn no_keys_held_is_none() {
    let none = Keys::none();
    assert_eq!(none, keys(false, false, false, false));
    assert!(!none.any_held());
    assert_eq!(none.velocity(), Velocity::zero());
    assert_eq!(none.requested_world(), None);
}

#[test]
fn steering_discards_the_previous_velocity() {
    let mut entity = Entity::empty().with_move_player().with_velocity(Velocity::new(40, -7, 3));
    entity.steer(keys(false, false, true, false));
    assert_eq!(entity.velocity.unwrap().value, Velocity::new(0, 5, 0));
}

#[test]
fn releasing_the_keys_writes_the_velocity_once() {
    let mut entities = vec![settled(walker())];
    let mut world = quiet(InWorld::W1Main);

    move_player(keys(false, true, false, false), &mut entities, &mut world);
    assert_eq!(entities[0].velocity.unwrap(), Watched { value: Velocity::new(5, 0, 0), changed: true });

    entities[0].settle();
    move_player(Keys::none(), &mut entities, &mut world);
    assert_eq!(entities[0].velocity.unwrap(), Watched { value: Velocity::zero(), changed: true });

    entities[0].settle();
    move_player(Keys::none(), &mut entities, &mut world);
    assert_eq!(entities[0].velocity.unwrap(), Watched { value: Velocity::zero(), changed: false });
}

#[test]
fn cancelling_keys_still_write_the_velocity() {
    let mut entities = vec![settled(walker())];
    let mut world = quiet(InWorld::W1Main);
    move_player(keys(true, true, false, false), &mut entities, &mut world);
    assert_eq!(entities[0].velocity.unwrap(), Watched { value: Velocity::zero(), changed: true });
}

#[test]
fn a_mark_that_is_set_stays_set() {
    let mut entities = vec![walker()];
    let mut world = quiet(InWorld::W1Main);
    move_player(Keys::none(), &mut entities, &mut world);
    assert_eq!(entities[0].velocity.unwrap(), Watched { value: Velocity::zero(), changed: true });
}

#[test]
fn only_tagged_entities_with_a_velocity_are_steered() {
    let untagged = settled(Entity::empty().with_velocity(Velocity::new(1, 2, 3)));
    let no_velocity = Entity::empty().with_move_player().with_transform(Position::new(9, 9, 9));
    let mut entities = vec![untagged, no_velocity, settled(walker())];
    let mut world = quiet(InWorld::W1Main);
    assert!(!untagged.is_player());
    assert!(!no_velocity.is_player());
    assert!(entities[2].is_player());

    move_player(keys(false, false, false, true), &mut entities, &mut world);
    assert_eq!(entities[0], untagged);
    assert_eq!(entities[1], no_velocity);
    assert_eq!(entities[2].velocity.unwrap().value, Velocity::new(0, -5, 0));
    assert_eq!(entities.len(), 3);
}

#[test]
fn left_selects_the_main_world() {
    let mut entities = vec![walker()];
    let mut world = quiet(InWorld::W2);
    move_player(keys(true, false, false, false), &mut entities, &mut world);
    assert_eq!(world, Watched { value: InWorld::W1Main, changed: true });
}

#[test]
fn right_selects_the_second_world() {
    let mut entities = vec![walker()];
    let mut world = quiet(InWorld::W1Main);
    move_player(keys(false, true, false, false), &mut entities, &mut world);
    assert_eq!(world, Watched { value: InWorld::W2, changed: true });
}

#[test]
fn right_wins_over_left() {
    let mut entities = vec![walker()];
    let mut world = quiet(InWorld::W1Main);
    move_player(keys(true, true, false, false), &mut entities, &mut world);
    assert_eq!(world, Watched { value: InWorld::W2, changed: true });
    assert_eq!(keys(true, true, false, false).requested_world(), Some(InWorld::W2));
}

#[test]
fn up_and_down_leave_the_world_alone() {
    for start in [InWorld::W1Main, InWorld::W2] {
        for held in [
            keys(false, false, true, false),
            keys(false, false, false, true),
            keys(false, false, true, true),
            Keys::none(),
        ] {
            let mut entities = vec![walker()];
            let mut world = quiet(start);
            move_player(held, &mut entities, &mut world);
            assert_eq!(world, quiet(start));
        }
    }
}

#[test]
fn selecting_the_active_world_again_counts_as_a_change() {
    let mut entities = vec![walker()];
    let mut world = quiet(InWorld::W1Main);
    move_player(keys(true, false, false, false), &mut entities, &mut world);
    assert_eq!(world, Watched { value: InWorld::W1Main, changed: true });
}

#[test]
fn world_follows_the_keys_even_when_nothing_moves() {
    let mut entities = vec![walker()];
    let mut world = quiet(InWorld::W1Main);
    move_player(keys(true, true, true, true), &mut entities, &mut world);
    assert_eq!(entities[0].velocity.unwrap().value, Velocity::zero());
    assert_eq!(world.value, InWorld::W2);
}

#[test]
fn without_a_player_the_keys_select_nothing() {
    let scenery = Entity::empty().with_visibility(true).with_world(InWorld::W1Main);
    let mut entities = vec![scenery];
    let mut world = quiet(InWorld::W1Main);
    move_player(keys(false, true, false, false), &mut entities, &mut world);
    assert_eq!(world, quiet(InWorld::W1Main));
    assert_eq!(entities[0], scenery);

    let mut nobody: Vec<Entity> = Vec::new();
    move_player(keys(true, false, false, false), &mut nobody, &mut world);
    assert!(nobody.is_empty());
    assert_eq!(world, quiet(InWorld::W1Main));
}

#[test]
fn watched_cell_marks_every_write() {
    let mut cell = Watched::new(7u32);
    assert!(cell.is_changed());
    assert_eq!(*cell.get(), 7);
    cell.settle();
    assert!(!cell.is_changed());
    assert_eq!(*cell.get(), 7);
    cell.set(7);
    assert!(cell.is_changed());
    assert_eq!(cell, Watched { value: 7, changed: true });
}
