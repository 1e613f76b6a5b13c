use twin_worlds::timer::MAX_LAPS_PER_TICK;
use twin_worlds::{
    animate_sprite_system_velocity, AnimationTimer, AtlasSprite, Entity, Velocity, Watched,
};

const MS: u64 = 1_000_000;

fn animated(velocity: Watched<Velocity>, period: u64, frames: usize) -> Entity {
    let mut entity = Entity::empty().with_animation(
        AnimationTimer::repeating(period).unwrap(),
        AtlasSprite::new(frames).unwrap(),
    );
    entity.velocity = Some(velocity);
    entity
}

fn written(x: i32, y: i32) -> Watched<Velocity> {
    Watched { value: Velocity::new(x, y, 0), changed: true }
}

fn unwritten(x: i32, y: i32) -> Watched<Velocity> {
    Watched { value: Velocity::new(x, y, 0), changed: false }
}

#[test]
fn new_timer_has_not_run() {
    let timer = AnimationTimer::repeating(80 * MS).unwrap();
    assert_eq!(timer.period(), 80_000_000);
    assert_eq!(timer.elapsed(), 0);
    assert!(!timer.finished());
}

#[test]
fn timer_needs_a_period() {
    assert_eq!(AnimationTimer::repeating(0), None);
    assert!(AnimationTimer::repeating(1).is_some());
}

#[test]
fn timer_counts_up_to_its_period() {
    let mut timer = AnimationTimer::repeating(80 * MS).unwrap();
    timer.tick(50 * MS);
    assert_eq!(timer.elapsed(), 50 * MS);
    assert!(!timer.finished());
    timer.tick(29 * MS);
    assert_eq!(timer.elapsed(), 79 * MS);
    assert!(!timer.finished());
}

#[test]
fn timer_finishes_on_reaching_its_period_exactly() {
    let mut timer = AnimationTimer::repeating(80 * MS).unwrap();
    timer.tick(80 * MS);
    assert!(timer.finished());
    assert_eq!(timer.elapsed(), 0);
}

#[test]
fn timer_carries_the_remainder_into_the_next_round() {
    let mut timer = AnimationTimer::repeating(80 * MS).unwrap();
    timer.tick(50 * MS);
    timer.tick(50 * MS);
    assert!(timer.finished());
    assert_eq!(timer.elapsed(), 20 * MS);
    assert_eq!(timer.period(), 80 * MS);
}

#[test]
fn timer_is_finished_only_on_the_tick_that_completes_a_round() {
    let mut timer = AnimationTimer::repeating(80 * MS).unwrap();
    timer.tick(90 * MS);
    assert!(timer.finished());
    timer.tick(10 * MS);
    assert!(!timer.finished());
    assert_eq!(timer.elapsed(), 20 * MS);
}

#[test]
fn timer_keeps_the_remainder_after_several_rounds() {
    let mut timer = AnimationTimer::repeating(80 * MS).unwrap();
    timer.tick(170 * MS);
    assert!(timer.finished());
    assert_eq!(timer.elapsed(), 10 * MS);
}

#[test]
fn tick_of_no_time_changes_nothing() {
    let mut timer = AnimationTimer::repeating(80 * MS).unwrap();
    timer.tick(30 * MS);
    timer.tick(0);
    assert_eq!(timer.elapsed(), 30 * MS);
    assert!(!timer.finished());
}

#[test]
fn timer_accepts_as_many_rounds_as_fit_a_u32() {
    assert_eq!(MAX_LAPS_PER_TICK, 4_294_967_295);
    let timer = AnimationTimer::repeating(1).unwrap();
    assert!(timer.admits(MAX_LAPS_PER_TICK));
    assert!(!timer.admits(MAX_LAPS_PER_TICK + 1));

    let mut at_the_limit = timer;
    at_the_limit.tick(MAX_LAPS_PER_TICK);
    assert!(at_the_limit.finished());
    assert_eq!(at_the_limit.elapsed(), 0);

    let animation = AnimationTimer::repeating(80 * MS).unwrap();
    assert!(animation.admits(80 * MS * MAX_LAPS_PER_TICK + 79_999_999));
    assert!(!animation.admits(80 * MS * (MAX_LAPS_PER_TICK + 1)));
    assert!(!animation.admits(u64::MAX));
}

#[test]
fn timer_accepts_the_longest_delta_when_its_period_is_long() {
    let mut timer = AnimationTimer::repeating(u64::MAX).unwrap();
    timer.tick(u64::MAX - 1);
    assert!(!timer.finished());
    assert!(timer.admits(u64::MAX));
    // (P - 1) + P = 2P - 1 leaves P - 1 after one round of P.
    timer.tick(u64::MAX);
    assert!(timer.finished());
    assert_eq!(timer.elapsed(), u64::MAX - 1);
}

#[test]
fn new_sprite_shows_the_first_frame() {
    let sprite = AtlasSprite::new(7).unwrap();
    assert_eq!(sprite.index(), 0);
    assert_eq!(sprite.frames(), 7);
}

#[test]
fn sprite_needs_a_frame() {
    assert_eq!(AtlasSprite::new(0), None);
    assert!(AtlasSprite::new(1).is_some());
}

#[test]
fn seven_frames_cycle_and_wrap_after_the_sixth() {
    let mut sprite = AtlasSprite::new(7).unwrap();
    let mut shown = Vec::new();
    for _ in 0..15 {
        shown.push(sprite.index());
        sprite.advance();
        assert!(sprite.index() <= 6);
    }
    assert_eq!(shown, vec![0, 1, 2, 3, 4, 5, 6, 0, 1, 2, 3, 4, 5, 6, 0]);
}

#[test]
fn single_frame_strip_stays_on_its_frame() {
    let mut sprite = AtlasSprite::new(1).unwrap();
    sprite.advance();
    assert_eq!(sprite.index(), 0);
}

#[test]
fn rest_returns_to_the_first_frame() {
    let mut sprite = AtlasSprite::new(7).unwrap();
    sprite.advance();
    sprite.advance();
    assert_eq!(sprite.index(), 2);
    sprite.rest();
    assert_eq!(sprite.index(), 0);
    assert_eq!(sprite.frames(), 7);
}

#[test]
fn moving_entity_steps_when_the_clock_completes_a_round() {
    let mut entities = vec![animated(written(5, 0), 80 * MS, 7)];
    animate_sprite_system_velocity(50 * MS, &mut entities);
    assert_eq!(entities[0].sprite.unwrap().index(), 0);
    assert_eq!(entities[0].timer.unwrap().elapsed(), 50 * MS);

    animate_sprite_system_velocity(50 * MS, &mut entities);
    assert_eq!(entities[0].sprite.unwrap().index(), 1);
    assert_eq!(entities[0].timer.unwrap().elapsed(), 20 * MS);
    assert!(entities[0].timer.unwrap().finished());

    animate_sprite_system_velocity(50 * MS, &mut entities);
    assert_eq!(entities[0].sprite.unwrap().index(), 1);
    assert_eq!(entities[0].timer.unwrap().elapsed(), 70 * MS);
}

#[test]
fn one_tick_steps_one_frame_however_many_rounds_it_completes() {
    let mut entities = vec![animated(written(0, -5), 80 * MS, 7)];
    animate_sprite_system_velocity(250 * MS, &mut entities);
    assert_eq!(entities[0].sprite.unwrap().index(), 1);
    assert_eq!(entities[0].timer.unwrap().elapsed(), 10 * MS);
}

#[test]
fn walking_wraps_from_the_last_frame_to_the_first() {
    let mut entities = vec![animated(written(5, 5), 80 * MS, 7)];
    let mut shown = Vec::new();
    for _ in 0..8 {
        animate_sprite_system_velocity(80 * MS, &mut entities);
        shown.push(entities[0].sprite.unwrap().index());
    }
    assert_eq!(shown, vec![1, 2, 3, 4, 5, 6, 0, 1]);
}

#[test]
fn standing_still_forces_the_idle_pose_whatever_the_clock_says() {
    let mut entity = animated(written(5, 0), 80 * MS, 7);
    entity.animate(80 * MS);
    entity.animate(80 * MS);
    assert_eq!(entity.sprite.unwrap().index(), 2);

    entity.velocity = Some(written(0, 0));
    let mut entities = vec![entity];
    animate_sprite_system_velocity(80 * MS, &mut entities);
    assert_eq!(entities[0].sprite.unwrap().index(), 0);
    assert!(entities[0].timer.unwrap().finished());

    entities[0].velocity = Some(written(0, 0));
    animate_sprite_system_velocity(10 * MS, &mut entities);
    assert_eq!(entities[0].sprite.unwrap().index(), 0);
    assert_eq!(entities[0].timer.unwrap().elapsed(), 10 * MS);
}

#[test]
fn unwritten_velocity_freezes_clock_and_frame_even_while_moving() {
    let mut entity = animated(written(5, 0), 80 * MS, 7);
    entity.animate(100 * MS);
    assert_eq!(entity.sprite.unwrap().index(), 1);
    assert_eq!(entity.timer.unwrap().elapsed(), 20 * MS);

    entity.velocity = Some(unwritten(5, 0));
    let before = entity;
    let mut entities = vec![entity];
    for _ in 0..3 {
        animate_sprite_system_velocity(100 * MS, &mut entities);
    }
    assert_eq!(entities[0], before);
    assert_eq!(entities[0].sprite.unwrap().index(), 1);
    assert_eq!(entities[0].timer.unwrap().elapsed(), 20 * MS);
}

#[test]
fn unwritten_zero_velocity_does_not_reset_the_frame() {
    let mut entity = animated(written(5, 0), 80 * MS, 7);
    entity.animate(100 * MS);
    entity.velocity = Some(unwritten(0, 0));
    let before = entity;
    let mut entities = vec![entity];
    animate_sprite_system_velocity(100 * MS, &mut entities);
    assert_eq!(entities[0], before);
    assert_eq!(entities[0].sprite.unwrap().index(), 1);
}

#[test]
fn animation_needs_clock_sprite_and_velocity() {
    let timer = AnimationTimer::repeating(80 * MS).unwrap();
    let sprite = AtlasSprite::new(7).unwrap();

    let mut no_velocity = Entity::empty().with_animation(timer, sprite);
    let mut no_sprite = Entity::empty().with_velocity(Velocity::new(5, 0, 0));
    no_sprite.timer = Some(timer);
    let mut no_timer = Entity::empty().with_velocity(Velocity::new(5, 0, 0));
    no_timer.sprite = Some(sprite);
    assert!(!no_velocity.animates());
    assert!(!no_sprite.animates());
    assert!(!no_timer.animates());
    assert!(animated(written(5, 0), 80 * MS, 7).animates());
    assert!(!animated(unwritten(5, 0), 80 * MS, 7).animates());

    let before = vec![no_velocity, no_sprite, no_timer];
    let mut entities = before.clone();
    animate_sprite_system_velocity(100 * MS, &mut entities);
    assert_eq!(entities, before);

    no_velocity.animate(100 * MS);
    no_sprite.animate(100 * MS);
    no_timer.animate(100 * MS);
    assert_eq!(vec![no_velocity, no_sprite, no_timer], before);
}

#[test]
fn each_entity_runs_its_own_clock() {
    let mut entities = vec![
        animated(written(5, 0), 80 * MS, 7),
        animated(written(5, 0), 30 * MS, 3),
        animated(unwritten(5, 0), 30 * MS, 3),
    ];
    animate_sprite_system_velocity(40 * MS, &mut entities);
    assert_eq!(entities[0].sprite.unwrap().index(), 0);
    assert_eq!(entities[0].timer.unwrap().elapsed(), 40 * MS);
    assert_eq!(entities[1].sprite.unwrap().index(), 1);
    assert_eq!(entities[1].timer.unwrap().elapsed(), 10 * MS);
    assert_eq!(entities[2].sprite.unwrap().index(), 0);
    assert_eq!(entities[2].timer.unwrap().elapsed(), 0);
}

#[test]
fn entity_reports_whether_its_clock_accepts_a_tick() {
    let fast = animated(written(5, 0), 1, 7);
    assert!(fast.can_animate(MAX_LAPS_PER_TICK));
    assert!(!fast.can_animate(MAX_LAPS_PER_TICK + 1));
    let skipped = animated(unwritten(5, 0), 1, 7);
    assert!(skipped.can_animate(u64::MAX));
    assert!(Entity::empty().can_animate(u64::MAX));
}
