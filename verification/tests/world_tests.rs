use arena_sim::arith::add_clip;
use arena_sim::projectile::Bullet;
use arena_sim::timer::Timer;
use arena_sim::types::Weapon;
use arena_sim::weapon::WeaponPickup;
use arena_sim::player::MoveInput;
use arena_sim::types::{behavior_to_asset, weapon_enum_to_string, Behavior, Score, Weapons};
use arena_sim::weapon::AimInput;
use arena_sim::world::{border_block_positions, TickInput, World};

fn quiet_input(world: &World, dt_ms: u64) -> TickInput {
    TickInput {
        dt_ms,
        keys: MoveInput {
            right_just: false,
            right_held: false,
            left_just: false,
            left_held: false,
            jump_just: false,
        },
        fire_just: false,
        aim: None,
        projectile_hits: vec![false; world.projectiles.len()],
        pickup_hits: vec![false; world.pickups.len()],
    }
}

#[test]
fn the_world_starts_quiet() {
    let w = World::new();
    assert_eq!(w.score.score, 0);
    assert_eq!(w.difficulty.difficulty, 1);
    assert_eq!(w.difficulty.timer.duration_ms, 5000);
    assert_eq!(w.enemy_timer.timer.duration_ms, 2000);
    assert_eq!(w.weapon_spawns.timer.duration_ms, 1000);
    assert!(w.player.is_some());
    assert!(w.enemies.is_empty());
    assert!(w.held.is_none());
}

#[test]
fn warnings_then_enemies_appear_as_the_clock_runs() {
    let mut w = World::new();
    // After 2.0 s the first wave warning has spawned (difficulty 1: one).
    for _ in 0..4 {
        let input = quiet_input(&w, 500);
        w.step(&input);
    }
    assert_eq!(w.enemy_warnings.len(), 1);
    assert!(w.enemies.is_empty());
    // Weapon warnings fire every second; each materializes a pickup
    // a second later, and the first pickups are already falling.
    assert!(!w.weapon_warnings.is_empty() || !w.pickups.is_empty());

    // One second on, the warning has materialized into a dormant enemy.
    let mut saw_enemy = false;
    for _ in 0..3 {
        let input = quiet_input(&w, 500);
        w.step(&input);
        saw_enemy = saw_enemy || !w.enemies.is_empty();
    }
    assert!(saw_enemy);
}

#[test]
fn difficulty_ramps_while_stepping() {
    let mut w = World::new();
    for _ in 0..12 {
        let input = quiet_input(&w, 500);
        w.step(&input);
    }
    // Past 5.0 s the difficulty ticked at least once.
    assert!(w.difficulty.difficulty >= 2);
    assert!(w.enemy_timer.timer.duration_ms <= 1900);
    assert!(w.enemy_timer.timer.duration_ms >= 100);
}

#[test]
fn a_tick_with_aim_and_no_held_item_changes_no_aim() {
    let mut w = World::new();
    let mut input = quiet_input(&w, 16);
    input.aim = Some(AimInput { angle_mrad: 600, dist: 2000 });
    w.step(&input);
    assert_eq!(w.player.unwrap().looking_at, 0);
}

#[test]
fn border_blocks_wall_the_playfield() {
    let blocks = border_block_positions();
    assert_eq!(blocks.len(), 58);
    assert_eq!(blocks[0], (-240000, -120000));
    assert_eq!(blocks[19], (28000 * 19 - 240000, -120000));
    assert_eq!(blocks[20], (-235000, -92000));
    assert_eq!(blocks[28], (-235000, 28000 * 8 - 92000));
    assert_eq!(blocks[29], (235000, -92000));
    assert_eq!(blocks[38], (-240000, 138000));
    assert_eq!(blocks[57], (28000 * 19 - 240000, 138000));
}

#[test]
fn asset_lookups_are_exact() {
    assert_eq!(weapon_enum_to_string(Weapons::Base), "images/BaseGun.png");
    assert_eq!(weapon_enum_to_string(Weapons::Sniper), "images/Sniper.png");
    assert_eq!(weapon_enum_to_string(Weapons::Rock), "images/Rock.png");
    assert_eq!(weapon_enum_to_string(Weapons::Airplane), "images/Airplane.png");
    assert_eq!(weapon_enum_to_string(Weapons::Shotgun), "images/Shotgun.png");
    assert_eq!(weapon_enum_to_string(Weapons::Rocket), "images/Rocket.png");
    assert_eq!(behavior_to_asset(Behavior::Walker), "images/BaseEnemy.png");
    assert_eq!(behavior_to_asset(Behavior::Jumper), "images/Jumper.png");
    assert_eq!(behavior_to_asset(Behavior::Shooter), "images/Shooter.png");
    assert_eq!(behavior_to_asset(Behavior::BurstShooter), "images/BurstShooter.png");
}

#[test]
fn saturating_addition_clamps_at_the_edges() {
    assert_eq!(add_clip(1, 2), 3);
    assert_eq!(add_clip(i64::MAX, 1), i64::MAX);
    assert_eq!(add_clip(i64::MIN, -1), i64::MIN);
    assert_eq!(add_clip(-5, 5), 0);
}

#[test]
fn score_defaults_to_zero() {
    let s: Score = Default::default();
    assert_eq!(s.score, 0);
}

#[test]
fn dash_scenario_through_whole_ticks() {
    let mut w = World::new();
    let press_right = MoveInput {
        right_just: true,
        right_held: false,
        left_just: false,
        left_held: false,
        jump_just: false,
    };

    // First press: the scheduler has ticked the initial (already spent)
    // rearm window, so this is a fresh press: a one-unit nudge.
    let mut input = quiet_input(&w, 16);
    input.keys = press_right;
    w.step(&input);
    let p = w.player.unwrap();
    assert_eq!(p.x, 1000);
    assert!(p.dashing.is_none());

    // Second press 0.05 s later, inside the 0.2 s window: the dash commits.
    let mut input = quiet_input(&w, 50);
    input.keys = press_right;
    w.step(&input);
    assert!(w.player.unwrap().dashing.is_some());

    // Over the next 0.1 s the dash translates 250 units/s: 25 units, then
    // the dash state is removed.
    let input = quiet_input(&w, 50);
    w.step(&input);
    let input = quiet_input(&w, 50);
    w.step(&input);
    let p = w.player.unwrap();
    assert_eq!(p.x, 1000 + 25000);
    assert!(p.dashing.is_none());
}

#[test]
fn pickup_then_fire_through_whole_ticks() {
    let mut w = World::new();
    w.pickups.push(WeaponPickup {
        weapon: Weapon { asset: Weapons::Base },
        x: 0,
        y: -92000,
        lifetime: Bullet { timer: Timer::new(5000, false) },
    });

    // The pickup overlaps the player: score rises by 2 x difficulty (= 2),
    // the pickup despawns, the weapon is held.
    let mut input = quiet_input(&w, 16);
    input.pickup_hits = vec![true];
    w.step(&input);
    assert_eq!(w.score.score, 2);
    assert!(w.pickups.is_empty());
    assert!(w.held.is_some());

    // A fire press: the held item becomes a spent weapon and a bullet, and
    // the returned recoil opposes the aim at the fixed recoil speed.
    let mut input = quiet_input(&w, 16);
    input.fire_just = true;
    let recoil = w.step(&input);
    assert!(w.held.is_none());
    assert_eq!(w.projectiles.len(), 2);
    match recoil {
        Some(arena_sim::projectile::VelocityIntent::Opposite { angle_mrad, speed_x, speed_y }) => {
            assert_eq!(angle_mrad, 0);
            assert_eq!(speed_x, 100000);
            assert_eq!(speed_y, 100000);
        },
        _ => panic!("a fire tick reports the player's recoil"),
    }
}
