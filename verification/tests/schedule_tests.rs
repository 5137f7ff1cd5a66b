use arena_sim::player::DashTimer;
use arena_sim::schedule::{
    handle_difficulty, spawn_wave, tick_timers, DifficultyTimer, EnemyTimer, WeaponSpawns,
};
use arena_sim::timer::Timer;
use arena_sim::types::{Behavior, Directions};

fn difficulty_at(level: i64) -> DifficultyTimer {
    DifficultyTimer { difficulty: level, timer: Timer::new(5000, true) }
}

fn enemy_interval(duration_ms: u64) -> EnemyTimer {
    EnemyTimer { timer: Timer { duration_ms, elapsed_ms: 0, repeating: true, fired: false } }
}

#[test]
fn difficulty_tick_raises_level_and_shrinks_interval() {
    let mut et = enemy_interval(2000);
    let mut diff = difficulty_at(1);
    handle_difficulty(&mut et, &mut diff);
    assert_eq!(diff.difficulty, 2);
    assert_eq!(et.timer.duration_ms, 1900);
    // Below the acceleration threshold the difficulty cadence is untouched.
    assert_eq!(diff.timer.duration_ms, 5000);
}

#[test]
fn interval_clamps_at_the_floor() {
    // 0.3 s shrinks to 0.2 s, then 0.1 s, and never below.
    let mut et = enemy_interval(300);
    let mut diff = difficulty_at(1);
    handle_difficulty(&mut et, &mut diff);
    assert_eq!(et.timer.duration_ms, 200);
    handle_difficulty(&mut et, &mut diff);
    assert_eq!(et.timer.duration_ms, 100);
    handle_difficulty(&mut et, &mut diff);
    assert_eq!(et.timer.duration_ms, 100);
}

#[test]
fn past_threshold_difficulty_cadence_accelerates() {
    let mut et = enemy_interval(2000);
    let mut diff = difficulty_at(24);
    handle_difficulty(&mut et, &mut diff);
    assert_eq!(diff.difficulty, 25);
    assert_eq!(diff.timer.duration_ms, 4900);
    handle_difficulty(&mut et, &mut diff);
    assert_eq!(diff.difficulty, 26);
    assert_eq!(diff.timer.duration_ms, 4800);
}

#[test]
fn wave_size_is_difficulty_then_capped() {
    assert_eq!(spawn_wave(1).len(), 1);
    assert_eq!(spawn_wave(5).len(), 5);
    assert_eq!(spawn_wave(7).len(), 7);
    assert_eq!(spawn_wave(8).len(), 6);
    assert_eq!(spawn_wave(30).len(), 6);
}

#[test]
fn wave_at_difficulty_one_always_warns_a_walker() {
    // The only decider below one is zero, and the table maps zero to Walker.
    for _ in 0..20 {
        let ws = spawn_wave(1);
        assert_eq!(ws.len(), 1);
        assert!(matches!(ws[0].asset, Behavior::Walker));
        assert_eq!(ws[0].y, -92000);
        assert!(ws[0].x >= -200000 && ws[0].x < 200000);
        assert_eq!(ws[0].timer.duration_ms, 1000);
    }
}

#[test]
fn wave_fires_with_the_enemy_timer_and_respects_the_cap() {
    let mut diff = difficulty_at(1);
    let mut et = enemy_interval(2000);
    let mut wt = WeaponSpawns { timer: Timer::new(1000, true) };
    let mut dash = DashTimer { timer: Timer::new(0, false), direction: Directions::Left };
    let mut projectiles = Vec::new();
    let mut pickups = Vec::new();

    // 1999 ms: nothing fires yet.
    let (wave, weapons) = tick_timers(
        &mut diff, &mut et, &mut wt, &mut dash, &mut projectiles, &mut pickups, 0, 999,
    );
    assert_eq!(wave.len(), 0);
    assert_eq!(weapons.len(), 0);
    // Crossing 2000 ms fires the wave; the weapon timer fired at 1000 ms.
    let (wave, weapons) = tick_timers(
        &mut diff, &mut et, &mut wt, &mut dash, &mut projectiles, &mut pickups, 0, 1001,
    );
    assert_eq!(wave.len(), 1);
    assert_eq!(weapons.len(), 1);

    // Over the population cap no wave spawns.
    let mut et2 = enemy_interval(2000);
    let (wave, _) = tick_timers(
        &mut diff, &mut et2, &mut wt, &mut dash, &mut projectiles, &mut pickups, 101, 2000,
    );
    assert_eq!(wave.len(), 0);
}

#[test]
fn weapon_warning_is_base_on_the_ceiling() {
    let mut diff = difficulty_at(1);
    let mut et = enemy_interval(2000);
    let mut wt = WeaponSpawns { timer: Timer::new(1000, true) };
    let mut dash = DashTimer { timer: Timer::new(0, false), direction: Directions::Left };
    let mut projectiles = Vec::new();
    let mut pickups = Vec::new();
    let (_, weapons) = tick_timers(
        &mut diff, &mut et, &mut wt, &mut dash, &mut projectiles, &mut pickups, 0, 1000,
    );
    assert_eq!(weapons.len(), 1);
    assert!(matches!(weapons[0].asset, arena_sim::types::Weapons::Base));
    assert_eq!(weapons[0].y, 120000);
    assert!(weapons[0].x >= -200000 && weapons[0].x < 200000);
}
