use flappy::background::{
    cloud_from_draws, cloud_spawn, moving_background, CloudTexture, SpawnTimer, CLOUD_DEPTH,
    CLOUD_SPAWN_X,
};
use flappy::birds::{
    animate_physic, animate_sprite, jump_velocity, next_frame, player_input, rotation_target,
    spawn_bird, AnimationIndices, AnimationTimer, DelayTimer, JumpForce, DEFAULT_JUMP_FORCE,
    INPUT_POLL_NS,
};
use flappy::physics::{apply_gravity, gravity_system, scale_by_time, Gravity, Velocity, VelocityRotator};
use flappy::timer::RepeatingTimer;
use flappy::toggle_wireframe;

const MS: u64 = 1_000_000;

#[test]
fn gravity_tick_of_a_tenth_second_takes_forty_units() {
    let mut v = Velocity { x: 5_000, y: 0 };
    apply_gravity(&mut v, &Gravity(300_000), 100 * MS);
    assert_eq!(v.y, -40_000);
    assert_eq!(v.x, 5_000);
}

#[test]
fn gravity_strictly_slows_every_body() {
    let mut vs = vec![Velocity { x: 0, y: 10_000 }, Velocity { x: 1, y: -3_000 }];
    let gs = vec![Gravity(300_000), Gravity(0)];
    gravity_system(&mut vs, &gs, 16 * MS);
    // 300 * 0.016 + 10 = 14.8 units per second.
    assert_eq!(vs[0], Velocity { x: 0, y: 10_000 - 14_800 });
    // With no gravity only the baseline drag remains.
    assert_eq!(vs[1], Velocity { x: 1, y: -13_000 });
}

#[test]
fn gravity_with_zero_time_still_applies_drag() {
    let mut v = Velocity { x: 0, y: 0 };
    apply_gravity(&mut v, &Gravity(300_000), 0);
    assert_eq!(v.y, -10_000);
}

#[test]
fn jump_sets_speed_to_four_hundred_and_six() {
    assert_eq!(jump_velocity(&JumpForce(300_000), 20 * MS), 406_000);
}

#[test]
fn jump_replaces_speed_instead_of_adding() {
    let mut timer = DelayTimer(RepeatingTimer::new(INPUT_POLL_NS));
    let mut vs = vec![Velocity { x: 7, y: -250_000 }, Velocity { x: 0, y: 900_000 }];
    let jumped = player_input(&mut timer, &JumpForce(DEFAULT_JUMP_FORCE), true, 20 * MS, &mut vs);
    assert!(jumped);
    assert_eq!(vs[0], Velocity { x: 7, y: 406_000 });
    assert_eq!(vs[1], Velocity { x: 0, y: 406_000 });
}

#[test]
fn no_jump_without_key_press() {
    let mut timer = DelayTimer(RepeatingTimer::new(INPUT_POLL_NS));
    let mut vs = vec![Velocity { x: 0, y: -1_000 }];
    let jumped = player_input(&mut timer, &JumpForce(DEFAULT_JUMP_FORCE), false, 20 * MS, &mut vs);
    assert!(!jumped);
    assert_eq!(vs[0].y, -1_000);
}

#[test]
fn no_jump_before_poll_timer_finishes() {
    let mut timer = DelayTimer(RepeatingTimer::new(INPUT_POLL_NS));
    let mut vs = vec![Velocity { x: 0, y: -1_000 }];
    let jumped = player_input(&mut timer, &JumpForce(DEFAULT_JUMP_FORCE), true, 10 * MS, &mut vs);
    assert!(!jumped);
    assert_eq!(vs[0].y, -1_000);
    assert_eq!(timer.0.elapsed_ns, 10 * MS);
    let jumped = player_input(&mut timer, &JumpForce(DEFAULT_JUMP_FORCE), true, 10 * MS, &mut vs);
    assert!(jumped);
    assert_eq!(vs[0].y, 300_000 * 10 / 1000 + 400_000);
}

#[test]
fn frames_cycle_from_last_back_to_first() {
    let indices = AnimationIndices { first: 0, last: 3 };
    let mut seen = Vec::new();
    let mut index = 0;
    for _ in 0..9 {
        index = next_frame(&indices, index);
        assert!(index <= 3);
        seen.push(index);
    }
    assert_eq!(seen, vec![1, 2, 3, 0, 1, 2, 3, 0, 1]);
}

#[test]
fn frames_cycle_within_offset_range() {
    let indices = AnimationIndices { first: 5, last: 7 };
    assert_eq!(next_frame(&indices, 5), 6);
    assert_eq!(next_frame(&indices, 7), 5);
    let single = AnimationIndices { first: 2, last: 2 };
    assert_eq!(next_frame(&single, 2), 2);
}

#[test]
fn sprite_advances_only_when_timer_fires() {
    let indices = AnimationIndices { first: 0, last: 3 };
    let mut timer = AnimationTimer(RepeatingTimer::new(150 * MS));
    let mut index = 3;
    animate_sprite(&indices, &mut timer, &mut index, 100 * MS);
    assert_eq!(index, 3);
    animate_sprite(&indices, &mut timer, &mut index, 60 * MS);
    assert_eq!(index, 0);
    assert_eq!(timer.0.elapsed_ns, 10 * MS);
}

#[test]
fn bird_height_follows_vertical_speed() {
    let mut y = 1_000;
    animate_physic(&mut y, &Velocity { x: 99_000, y: 406_000 }, 500 * MS);
    assert_eq!(y, 1_000 + 203_000);
    animate_physic(&mut y, &Velocity { x: 0, y: -1 }, 1);
    assert_eq!(y, 1_000 + 203_000 - 1);
}

#[test]
fn tilt_follows_sign_of_vertical_speed() {
    let r = VelocityRotator { rotation_angle_urad: 785_398, lerp_factor_milli: 1000, max_rotate_vel: 20 };
    // 20 * 0.785398 * 0.016 s = 0.25132736 rad.
    assert_eq!(rotation_target(&Velocity { x: 0, y: 0 }, &r, 16 * MS), 251_327);
    assert_eq!(rotation_target(&Velocity { x: 0, y: -5 }, &r, 16 * MS), -251_328);
}

#[test]
fn time_scaling_rounds_down() {
    assert_eq!(scale_by_time(-40_000, 1_000), -1);
    assert_eq!(scale_by_time(40_000, 1_000), 0);
    assert_eq!(scale_by_time(-70_000, 1_000_000_000), -70_000);
    assert_eq!(scale_by_time(i64::MIN, u64::MAX), (i64::MIN as i128 * u64::MAX as i128) / 1_000_000_000 - 1);
}

#[test]
fn spawn_timer_fires_once_per_second_of_accumulated_time() {
    let mut timer = SpawnTimer::new();
    let deltas: [u64; 10] = [300, 450, 100, 700, 16, 333, 901, 17, 250, 133];
    let mut spawned = 0;
    let mut total = 0;
    for d in deltas {
        total += d * MS;
        spawned += cloud_spawn(&mut timer, d * MS).len() as u64;
        assert_eq!(spawned, total / 1_000_000_000);
        assert_eq!(timer.0.elapsed_ns, total % 1_000_000_000);
    }
    assert_eq!(total, 3_200 * MS);
    assert_eq!(spawned, 3);
}

#[test]
fn spawn_timer_fires_once_per_second_at_any_frame_rate() {
    for frame_ms in [1u64, 7, 16, 33, 100, 250] {
        let mut timer = SpawnTimer::new();
        let mut spawned = 0;
        let frames = 5_000 / frame_ms;
        for _ in 0..frames {
            spawned += cloud_spawn(&mut timer, frame_ms * MS).len() as u64;
        }
        assert_eq!(spawned, frames * frame_ms / 1_000);
    }
}

#[test]
fn repeating_timer_counts_several_periods_in_one_tick() {
    let mut t = RepeatingTimer::new(1_000);
    t.tick(3_500);
    assert!(t.finished);
    assert!(t.just_finished());
    assert_eq!(t.times_finished, 3);
    assert_eq!(t.elapsed_ns, 500);
    t.tick(100);
    assert!(!t.finished);
    assert!(!t.just_finished());
    assert_eq!(t.times_finished, 0);
    assert_eq!(t.elapsed_ns, 600);
}

#[test]
fn spawned_clouds_stay_in_their_ranges() {
    let mut timer = SpawnTimer::new();
    let mut heights = Vec::new();
    for _ in 0..200 {
        let clouds = cloud_spawn(&mut timer, 1_000 * MS);
        assert_eq!(clouds.len(), 1);
        let c = clouds[0];
        heights.push(c.y);
        assert_eq!(c.x, CLOUD_SPAWN_X);
        assert_eq!(c.z, CLOUD_DEPTH);
        assert!((0..200_000).contains(&c.y));
        assert!((2_000..4_000).contains(&c.scale_milli));
        assert!((-70_000..-40_000).contains(&c.velocity.x));
        assert!((-50_000..50_000).contains(&c.velocity.y));
    }
    heights.sort();
    heights.dedup();
    assert!(heights.len() > 1);
}

#[test]
fn no_cloud_before_the_second_is_up() {
    let mut timer = SpawnTimer::new();
    assert!(cloud_spawn(&mut timer, 999 * MS).is_empty());
    assert_eq!(cloud_spawn(&mut timer, 1 * MS).len(), 1);
    assert!(timer.0.finished);
    assert_eq!(timer.0.times_finished, 1);
}

#[test]
fn cloud_from_draws_keeps_values() {
    let c = cloud_from_draws(false, 12, 3_000, -50_000, 7);
    assert_eq!(c.texture, CloudTexture::Second);
    assert_eq!(c.x, 1_030_000);
    assert_eq!((c.y, c.z, c.scale_milli), (12, 2_000, 3_000));
    assert_eq!(c.velocity, Velocity { x: -50_000, y: 7 });
    assert_eq!(cloud_from_draws(true, 0, 0, 0, 0).texture, CloudTexture::First);
}

#[test]
fn clouds_scroll_left_and_keep_height() {
    let mut xs = vec![1_030_000, 0];
    let vs = vec![Velocity { x: -40_000, y: 49_000 }, Velocity { x: -70_000, y: 0 }];
    moving_background(&mut xs, &vs, 16 * MS);
    assert_eq!(xs, vec![1_030_000 - 640, -1_120]);
    // Even a nanosecond moves a leftward cloud left.
    moving_background(&mut xs, &vs, 1);
    assert_eq!(xs, vec![1_030_000 - 641, -1_121]);
}

#[test]
fn bird_spawns_with_its_tuning() {
    let b = spawn_bird();
    assert_eq!(b.indices, AnimationIndices { first: 0, last: 3 });
    assert_eq!(b.frame, 0);
    assert_eq!(b.timer.0.duration_ns, 150 * MS);
    assert_eq!(b.velocity, Velocity { x: 0, y: 10_000 });
    assert_eq!(b.gravity, Gravity(300_000));
    assert_eq!(b.rotator.rotation_angle_urad, 785_398);
    assert_eq!(b.rotator.max_rotate_vel, 20);
    assert_eq!(b.rotator.lerp_factor_milli, 1_000);
    assert_eq!(b.scale_milli, 2_000);
}

#[test]
fn wireframe_toggles_on_press_only() {
    assert!(toggle_wireframe(false, true));
    assert!(!toggle_wireframe(true, true));
    assert!(toggle_wireframe(true, false));
    assert!(!toggle_wireframe(false, false));
}

#[test]
fn sprite_goes_round_every_frame_on_full_period_ticks() {
    let indices = AnimationIndices { first: 2, last: 5 };
    let mut timer = AnimationTimer(RepeatingTimer::new(150 * MS));
    let mut index = 4;
    let mut seen = Vec::new();
    for _ in 0..4 {
        animate_sprite(&indices, &mut timer, &mut index, 150 * MS);
        assert_eq!(timer.0.times_finished, 1);
        seen.push(index);
    }
    assert_eq!(seen, vec![5, 2, 3, 4]);
    // Two periods in one tick still move on by a single frame.
    animate_sprite(&indices, &mut timer, &mut index, 300 * MS);
    assert_eq!(timer.0.times_finished, 2);
    assert_eq!(index, 5);
}

#[test]
fn unpressed_key_ignores_an_oversized_jump_force() {
    let mut timer = DelayTimer(RepeatingTimer::new(INPUT_POLL_NS));
    let mut vs = vec![Velocity { x: 3, y: 12 }];
    // A two-second frame fires the poll timer; with this force a jump speed
    // would not fit, but no jump is asked for.
    let jumped = player_input(&mut timer, &JumpForce(i64::MAX), false, 2_000 * MS, &mut vs);
    assert!(!jumped);
    assert_eq!(vs[0], Velocity { x: 3, y: 12 });
    assert!(timer.0.finished);
    assert_eq!(timer.0.times_finished, 100);
}

#[test]
fn long_frame_spawns_one_cloud_per_second() {
    let mut timer = SpawnTimer::new();
    let clouds = cloud_spawn(&mut timer, 2_500 * MS);
    assert_eq!(clouds.len(), 2);
    assert_eq!(timer.0.times_finished, 2);
    assert_eq!(timer.0.elapsed_ns, 500 * MS);
    for c in &clouds {
        assert!((-70_000..-40_000).contains(&c.velocity.x));
    }
    assert_eq!(cloud_spawn(&mut timer, 3_600 * MS).len(), 4);
    assert_eq!(timer.0.elapsed_ns, 100 * MS);
}

#[test]
fn same_total_time_spawns_same_clouds_however_split() {
    let splits: [&[u64]; 3] = [&[4_300], &[1_900, 2_400], &[700, 700, 700, 700, 700, 800]];
    for split in splits {
        let mut timer = SpawnTimer::new();
        let mut spawned = 0;
        for d in split {
            spawned += cloud_spawn(&mut timer, d * MS).len();
        }
        assert_eq!(spawned, 4);
        assert_eq!(timer.0.elapsed_ns, 300 * MS);
    }
}
