use directional_animation::direction::{update_direction_from_velocity, Direction, Velocity};
use directional_animation::driver::{
    directional_animation_bundle, directional_animation_state_or_direction_change,
    directional_animation_tick, AnimationBundle, AnimationError, AtlasId,
    DirectionalAnimationAsset, DirectionalAnimationAssetPerState, Sprite, TextureId,
};
use directional_animation::frames::{AnimationIndices, DirectionalIndices};
use directional_animation::lifecycle::{
    die_when_dead, enter_dying, get_hit, Death, DeathEvent, Health, Position,
};
use directional_animation::state::{
    velocity_state_transitions, CharacterState, CharacterStateMode, OnOneShotEnd,
};
use directional_animation::table::StateTable;
use directional_animation::timer::FrameTimer;
use directional_animation::world::{Actor, World};

const MS: u64 = 1_000_000;

fn asset() -> DirectionalAnimationAsset {
    let mut t = StateTable::new();
    t.insert(
        CharacterState::Idle,
        DirectionalAnimationAssetPerState { row_length: 16, frame_duration: 300 * MS },
    );
    t.insert(
        CharacterState::Walking,
        DirectionalAnimationAssetPerState { row_length: 4, frame_duration: 100 * MS },
    );
    t.insert(
        CharacterState::Death,
        DirectionalAnimationAssetPerState { row_length: 5, frame_duration: 300 * MS },
    );
    DirectionalAnimationAsset(t)
}

fn textures() -> StateTable<TextureId> {
    let mut t = StateTable::new();
    t.insert(CharacterState::Idle, TextureId(1));
    t.insert(CharacterState::Walking, TextureId(2));
    t.insert(CharacterState::Death, TextureId(3));
    t
}

fn atlases() -> StateTable<AtlasId> {
    let mut t = StateTable::new();
    t.insert(CharacterState::Idle, AtlasId(11));
    t.insert(CharacterState::Walking, AtlasId(12));
    t.insert(CharacterState::Death, AtlasId(13));
    t
}

fn bundle() -> AnimationBundle {
    directional_animation_bundle(textures(), atlases(), &asset()).unwrap()
}

fn actor(health: u64) -> Actor {
    Actor::from_bundle(
        bundle(),
        Velocity::new(0, 0),
        true,
        Position { x: 1500, y: -2000, z: 10 },
        Health::new(health),
    )
}

#[test]
fn classify_biases_toward_down() {
    assert_eq!(Direction::from_velocity(Velocity::new(1000, 400)), Direction::DownRight);
    assert_eq!(Direction::from_velocity(Velocity::new(0, 400)), Direction::DownRight);
    assert_eq!(Direction::from_velocity(Velocity::new(1000, 500)), Direction::UpRight);
    assert_eq!(Direction::from_velocity(Velocity::new(0, 500)), Direction::UpRight);
    assert_eq!(Direction::from_velocity(Velocity::new(-1000, 499)), Direction::DownLeft);
    assert_eq!(Direction::from_velocity(Velocity::new(-1000, 500)), Direction::UpLeft);
    assert_eq!(Direction::from_velocity(Velocity::new(-1, 5000)), Direction::UpLeft);
}

#[test]
fn classify_slow_velocity_falls_back() {
    assert_eq!(Direction::from_velocity(Velocity::new(-50, -50)), Direction::DownRight);
    assert_eq!(Direction::from_velocity(Velocity::new(0, 0)), Direction::DownRight);
    assert_eq!(Direction::default(), Direction::DownRight);
}

#[test]
fn slow_velocity_keeps_stored_direction() {
    let mut d = Direction::UpLeft;
    update_direction_from_velocity(&mut d, Velocity::new(60, 70));
    assert_eq!(d, Direction::UpLeft);
    update_direction_from_velocity(&mut d, Velocity::new(0, 0));
    assert_eq!(d, Direction::UpLeft);
    // exactly 0.1 is not faster than the threshold
    update_direction_from_velocity(&mut d, Velocity::new(-100, 0));
    assert_eq!(d, Direction::UpLeft);
    update_direction_from_velocity(&mut d, Velocity::new(2000, -10));
    assert_eq!(d, Direction::DownRight);
}

#[test]
fn length_squared_extremes() {
    assert_eq!(Velocity::new(3, -4).length_squared(), 25);
    assert_eq!(
        Velocity::new(i32::MIN, i32::MIN).length_squared(),
        2 * (1u64 << 62)
    );
}

#[test]
fn frame_table_rows_of_four() {
    let t = DirectionalIndices::of_rows(4);
    assert_eq!(t.get(Direction::DownRight), Some(&vec![0, 1, 2, 3]));
    assert_eq!(t.get(Direction::DownLeft), Some(&vec![4, 5, 6, 7]));
    assert_eq!(t.get(Direction::UpRight), Some(&vec![8, 9, 10, 11]));
    assert_eq!(t.get(Direction::UpLeft), Some(&vec![12, 13, 14, 15]));
}

#[test]
fn frame_table_of_ranges_keeps_last_entry() {
    let t = DirectionalIndices::of_ranges(vec![
        (Direction::UpLeft, 0, 2),
        (Direction::UpLeft, 5, 8),
        (Direction::DownLeft, 3, 3),
    ]);
    assert_eq!(t.get(Direction::UpLeft), Some(&vec![5, 6, 7]));
    assert_eq!(t.get(Direction::DownLeft), Some(&vec![]));
    assert_eq!(t.get(Direction::UpRight), None);
    assert_eq!(t.get(Direction::DownRight), None);
    let z = DirectionalIndices::of_rows(0);
    assert_eq!(z.get(Direction::UpLeft), Some(&vec![]));
}

#[test]
fn cursor_over_four_frames() {
    let mut c = AnimationIndices::new();
    c.set_indices(vec![0, 1, 2, 3]);
    let mut wraps = Vec::new();
    let mut shown = Vec::new();
    for _ in 0..4 {
        wraps.push(c.advance());
        shown.push(c.get_index());
    }
    assert_eq!(wraps, vec![false, false, false, true]);
    assert_eq!(shown, vec![1, 2, 3, 0]);
}

#[test]
fn empty_cursor_always_wraps_and_shows_zero() {
    let mut c = AnimationIndices::new();
    assert_eq!(c.get_index(), 0);
    c.set_indices(vec![]);
    assert!(c.advance());
    assert!(c.advance());
    assert_eq!(c.get_index(), 0);
}

#[test]
fn timer_fires_once_per_tick() {
    let mut t = FrameTimer::new(100);
    assert!(!t.tick(60));
    assert_eq!(t.elapsed, 60);
    assert!(t.tick(60));
    assert_eq!(t.elapsed, 20);
    assert!(t.tick(1_000));
    assert_eq!(t.elapsed, 20);
    t.set_duration(30);
    assert_eq!(t, FrameTimer { duration: 30, elapsed: 20 });
    t.reset();
    assert_eq!(t.elapsed, 0);
    assert!(t.tick(u64::MAX));
    assert_eq!(t.elapsed, (u64::MAX % 30));
}

#[test]
fn zero_timer_always_fires() {
    let mut t = FrameTimer::new(0);
    assert!(t.tick(0));
    assert!(t.tick(5));
    assert_eq!(t.elapsed, 0);
}

#[test]
fn state_mode_defaults_and_one_shot() {
    assert_eq!(
        CharacterStateMode::default(),
        CharacterStateMode::Continuous(CharacterState::Idle)
    );
    assert_eq!(CharacterState::default(), CharacterState::Idle);
    let m = CharacterStateMode::one_shot(CharacterState::Death, false, OnOneShotEnd::Die);
    assert_eq!(m.get_state(), CharacterState::Death);
    assert!(!m.can_be_replaced());
    assert!(CharacterStateMode::one_shot(CharacterState::Walking, true, OnOneShotEnd::Die)
        .can_be_replaced());
}

#[test]
fn uninterruptable_one_shot_rejects_overwrite() {
    let one_shot = CharacterStateMode::one_shot(CharacterState::Death, false, OnOneShotEnd::Die);
    let others = [
        CharacterStateMode::Continuous(CharacterState::Idle),
        CharacterStateMode::Continuous(CharacterState::Walking),
        CharacterStateMode::one_shot(CharacterState::Walking, true, OnOneShotEnd::Die),
        CharacterStateMode::one_shot(
            CharacterState::Idle,
            false,
            OnOneShotEnd::SetState(CharacterState::Walking),
        ),
    ];
    for other in others {
        let mut m = one_shot;
        assert!(!m.try_set(other));
        assert_eq!(m, one_shot);
    }
    let mut m = one_shot;
    velocity_state_transitions(&mut m, Velocity::new(5000, 0));
    assert_eq!(m, one_shot);
}

#[test]
fn interruptable_one_shot_is_replaced() {
    let mut m = CharacterStateMode::one_shot(
        CharacterState::Walking,
        true,
        OnOneShotEnd::SetState(CharacterState::Idle),
    );
    velocity_state_transitions(&mut m, Velocity::new(0, 0));
    assert_eq!(m, CharacterStateMode::Continuous(CharacterState::Idle));
}

#[test]
fn walk_threshold_toggles() {
    let mut m = CharacterStateMode::Continuous(CharacterState::Idle);
    let fast = Velocity::new(1415, 0); // squared 2_002_225
    let slow = Velocity::new(1414, 0); // squared 1_999_396
    let mut seen = Vec::new();
    for k in 0..6 {
        velocity_state_transitions(&mut m, if k % 2 == 0 { fast } else { slow });
        seen.push(m.get_state());
    }
    assert_eq!(
        seen,
        vec![
            CharacterState::Walking,
            CharacterState::Idle,
            CharacterState::Walking,
            CharacterState::Idle,
            CharacterState::Walking,
            CharacterState::Idle,
        ]
    );
    // exactly at the threshold counts as walking
    let mut m = CharacterStateMode::Continuous(CharacterState::Idle);
    velocity_state_transitions(&mut m, Velocity::new(1000, 1000));
    assert_eq!(m, CharacterStateMode::Continuous(CharacterState::Walking));
}

#[test]
fn bundle_starts_walking_down_right() {
    let b = bundle();
    assert_eq!(b.mode, CharacterStateMode::Continuous(CharacterState::Walking));
    assert_eq!(b.direction, Direction::DownRight);
    assert_eq!(b.sprite, Sprite { image: TextureId(2), layout: AtlasId(12), index: 0 });
    assert_eq!(b.indices.indices, vec![0, 1, 2, 3]);
    assert_eq!(b.indices.current_offset, 0);
    assert_eq!(b.animation.timer, FrameTimer { duration: 100 * MS, elapsed: 0 });
    assert_eq!(b.animation.last_state, CharacterState::Walking);
    assert!(b.animation.playing);
    assert_eq!(b.animation.frame_durations.get(CharacterState::Death), Some(&(300 * MS)));
    assert_eq!(
        b.animation.state_indices.get(CharacterState::Idle).unwrap().get(Direction::UpLeft),
        Some(&(48..64).collect::<Vec<usize>>())
    );
}

#[test]
fn bundle_without_walking_texture_fails() {
    let mut t = StateTable::new();
    t.insert(CharacterState::Death, TextureId(3));
    let r = directional_animation_bundle(t, atlases(), &asset());
    assert_eq!(r.err(), Some(AnimationError::MissingTexture(CharacterState::Walking)));
}

#[test]
fn bundle_without_walking_atlas_fails() {
    let mut a = StateTable::new();
    a.insert(CharacterState::Idle, AtlasId(11));
    let r = directional_animation_bundle(textures(), a, &asset());
    assert_eq!(r.err(), Some(AnimationError::MissingAtlas(CharacterState::Walking)));
}

#[test]
fn bundle_without_walking_layout_in_asset() {
    let mut t = StateTable::new();
    t.insert(
        CharacterState::Death,
        DirectionalAnimationAssetPerState { row_length: 3, frame_duration: 7 },
    );
    let b = directional_animation_bundle(textures(), atlases(), &DirectionalAnimationAsset(t))
        .unwrap();
    assert_eq!(b.indices.indices, Vec::<usize>::new());
    assert_eq!(b.indices.get_index(), 0);
    assert_eq!(b.animation.timer.duration, 0);
}

#[test]
fn state_change_uses_new_states_table() {
    let mut b = bundle();
    // face up-left while walking
    directional_animation_state_or_direction_change(
        &mut b.animation,
        &b.mode,
        Direction::UpLeft,
        &mut b.sprite,
        &mut b.indices,
    );
    assert_eq!(b.indices.indices, vec![12, 13, 14, 15]);
    assert_eq!(b.sprite.index, 12);
    // switch to idle, same direction: the idle table applies
    let idle = CharacterStateMode::Continuous(CharacterState::Idle);
    directional_animation_state_or_direction_change(
        &mut b.animation,
        &idle,
        Direction::UpLeft,
        &mut b.sprite,
        &mut b.indices,
    );
    assert_eq!(b.indices.indices, (48..64).collect::<Vec<usize>>());
    assert_eq!(b.indices.current_offset, 0);
    assert_eq!(b.sprite, Sprite { image: TextureId(1), layout: AtlasId(11), index: 48 });
    assert_eq!(b.animation.timer, FrameTimer { duration: 300 * MS, elapsed: 0 });
    assert_eq!(b.animation.last_state, CharacterState::Idle);
    assert_eq!(b.animation.last_direction, Direction::UpLeft);
}

#[test]
fn no_change_touches_nothing() {
    let mut b = bundle();
    directional_animation_tick(
        &mut b.animation,
        &mut b.indices,
        &mut b.sprite,
        &mut b.mode,
        &mut None,
        50 * MS,
    );
    let before = (b.animation.timer, b.sprite, b.indices.current_offset);
    directional_animation_state_or_direction_change(
        &mut b.animation,
        &b.mode,
        Direction::DownRight,
        &mut b.sprite,
        &mut b.indices,
    );
    assert_eq!((b.animation.timer, b.sprite, b.indices.current_offset), before);
}

#[test]
fn tick_advances_and_paused_driver_stays() {
    let mut b = bundle();
    let mut death = None;
    assert!(!directional_animation_tick(
        &mut b.animation,
        &mut b.indices,
        &mut b.sprite,
        &mut b.mode,
        &mut death,
        100 * MS,
    ));
    assert_eq!(b.indices.current_offset, 1);
    assert_eq!(b.sprite.index, 1);
    b.animation.playing = false;
    directional_animation_tick(
        &mut b.animation,
        &mut b.indices,
        &mut b.sprite,
        &mut b.mode,
        &mut death,
        500 * MS,
    );
    assert_eq!(b.indices.current_offset, 1);
    assert_eq!(b.animation.timer.elapsed, 0);
}

#[test]
fn one_shot_set_state_returns_to_loop() {
    let mut b = bundle();
    b.mode = CharacterStateMode::one_shot(
        CharacterState::Walking,
        true,
        OnOneShotEnd::SetState(CharacterState::Idle),
    );
    let mut death = None;
    let mut wraps = Vec::new();
    for _ in 0..4 {
        wraps.push(directional_animation_tick(
            &mut b.animation,
            &mut b.indices,
            &mut b.sprite,
            &mut b.mode,
            &mut death,
            100 * MS,
        ));
    }
    assert_eq!(wraps, vec![false, false, false, true]);
    assert_eq!(b.mode, CharacterStateMode::Continuous(CharacterState::Idle));
    assert_eq!(death, None);
}

#[test]
fn die_one_shot_marks_only_dying_actors() {
    let mut b = bundle();
    b.mode = CharacterStateMode::one_shot(CharacterState::Walking, false, OnOneShotEnd::Die);
    let mut alive: Option<Death> = None;
    for _ in 0..4 {
        directional_animation_tick(
            &mut b.animation,
            &mut b.indices,
            &mut b.sprite,
            &mut b.mode,
            &mut alive,
            100 * MS,
        );
    }
    assert_eq!(alive, None);
    let mut dying = Some(Death::Dying);
    for _ in 0..4 {
        directional_animation_tick(
            &mut b.animation,
            &mut b.indices,
            &mut b.sprite,
            &mut b.mode,
            &mut dying,
            100 * MS,
        );
    }
    assert_eq!(dying, Some(Death::Dead));
}

#[test]
fn hit_saturates_and_starts_dying_once() {
    let mut health = Health::new(10);
    let mut mode = CharacterStateMode::Continuous(CharacterState::Walking);
    let mut death = None;
    let mut collider = true;
    assert!(!get_hit(&mut health, &mut mode, &mut death, &mut collider, 4));
    assert_eq!(health.current, 6);
    assert!(get_hit(&mut health, &mut mode, &mut death, &mut collider, 100));
    assert_eq!(health, Health { current: 0, max: 10 });
    assert_eq!(
        mode,
        CharacterStateMode::one_shot(CharacterState::Death, false, OnOneShotEnd::Die)
    );
    assert_eq!(death, Some(Death::Dying));
    assert!(!collider);
    assert!(!get_hit(&mut health, &mut mode, &mut death, &mut collider, 1));
    assert!(!enter_dying(&mut mode, &mut death, &mut collider));
    assert_eq!(death, Some(Death::Dying));
}

#[test]
fn death_notice_only_when_dead() {
    let p = Position { x: 1, y: 2, z: 3 };
    assert_eq!(die_when_dead(None, p), None);
    assert_eq!(die_when_dead(Some(Death::Dying), p), None);
    assert_eq!(die_when_dead(Some(Death::Dead), p), Some(DeathEvent { position: p }));
}

#[test]
fn end_to_end_death() {
    let mut world = World::new();
    let id = world.spawn(actor(10));
    let other = world.spawn(actor(10));
    world.step(10 * MS);
    assert!(world.hit(id, 10));
    assert_eq!(
        world.actor(id).unwrap().mode,
        CharacterStateMode::one_shot(CharacterState::Death, false, OnOneShotEnd::Die)
    );
    assert!(!world.actor(id).unwrap().collider);
    // the death sheet has rows of five frames at 300 ms
    for _ in 0..4 {
        world.step(300 * MS);
        assert!(world.contains(id));
        assert!(world.drain_death_events().is_empty());
    }
    assert_eq!(world.actor(id).unwrap().death, Some(Death::Dying));
    assert_eq!(world.actor(id).unwrap().sprite.image, TextureId(3));
    world.step(300 * MS);
    assert!(!world.contains(id));
    assert!(world.actor(id).is_none());
    assert_eq!(
        world.drain_death_events(),
        vec![DeathEvent { position: Position { x: 1500, y: -2000, z: 10 } }]
    );
    for _ in 0..10 {
        world.step(300 * MS);
    }
    assert!(world.drain_death_events().is_empty());
    assert!(world.contains(other));
    assert!(!world.hit(id, 1));
    assert!(!world.set_velocity(id, Velocity::new(1, 1)));
}

#[test]
fn dying_actor_ignores_movement_and_mode_requests() {
    let mut world = World::new();
    let id = world.spawn(actor(1));
    assert!(world.hit(id, 1));
    assert!(!world.set_mode(id, CharacterStateMode::Continuous(CharacterState::Idle)));
    assert!(world.set_velocity(id, Velocity::new(5000, 0)));
    world.step(0);
    assert_eq!(world.actor(id).unwrap().mode.get_state(), CharacterState::Death);
    assert_eq!(world.actor(id).unwrap().direction, Direction::DownRight);
}

#[test]
fn world_velocity_toggles_idle_and_walking() {
    let mut world = World::new();
    let id = world.spawn(actor(5));
    let mut seen = Vec::new();
    for k in 0..6 {
        let v = if k % 2 == 0 { Velocity::new(0, 500) } else { Velocity::new(3000, 0) };
        assert!(world.set_velocity(id, v));
        world.step(MS);
        seen.push(world.actor(id).unwrap().mode);
    }
    let idle = CharacterStateMode::Continuous(CharacterState::Idle);
    let walking = CharacterStateMode::Continuous(CharacterState::Walking);
    assert_eq!(seen, vec![idle, walking, idle, walking, idle, walking]);
    let a = world.actor(id).unwrap();
    assert_eq!(a.direction, Direction::DownRight);
    assert_eq!(a.sprite.image, TextureId(2));
    // an unchanged velocity does not re-decide the state
    assert!(world.set_mode(id, CharacterStateMode::one_shot(
        CharacterState::Idle,
        true,
        OnOneShotEnd::SetState(CharacterState::Walking),
    )));
    world.step(MS);
    assert_eq!(world.actor(id).unwrap().mode.get_state(), CharacterState::Idle);
}

#[test]
fn world_turns_actor_and_rebinds_frames() {
    let mut world = World::new();
    let id = world.spawn(actor(5));
    assert!(world.set_velocity(id, Velocity::new(-3000, 2000)));
    world.step(0);
    let a = world.actor(id).unwrap();
    assert_eq!(a.direction, Direction::UpLeft);
    assert_eq!(a.mode, CharacterStateMode::Continuous(CharacterState::Walking));
    assert_eq!(a.indices.indices, vec![12, 13, 14, 15]);
    assert_eq!(a.sprite.index, 12);
}
