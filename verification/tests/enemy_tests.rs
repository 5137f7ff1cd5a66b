use arena_sim::enemy::{
    handle_jumpers, handle_shooter, handle_slides, move_enemies, spawn_enemy_warning,
    spawn_warned_enemy, ActiveBehavior, Enemy, SpawnEnemy,
};
use arena_sim::player::Player;
use arena_sim::timer::Timer;
use arena_sim::types::Behavior;

fn dormant(asset: Behavior, delay_ms: u64) -> Enemy {
    Enemy {
        asset,
        health: 1,
        direction: 1,
        delay_move: Timer::new(delay_ms, true),
        x: 0,
        y: -92000,
        scale_x: 1000000,
        scale_y: 1000000,
        vx: 0,
        vy: 0,
        state: ActiveBehavior::Dormant,
    }
}

fn active_count(e: &Enemy) -> usize {
    match e.state {
        ActiveBehavior::Dormant => 0,
        _ => 1,
    }
}

#[test]
fn delay_promotes_each_variant_into_its_own_phase() {
    let mut enemies = vec![
        dormant(Behavior::Walker, 1000),
        dormant(Behavior::Jumper, 1000),
        dormant(Behavior::Shooter, 1000),
        dormant(Behavior::BurstShooter, 1000),
    ];
    move_enemies(&mut enemies, 1000);
    match enemies[0].state {
        ActiveBehavior::Sliding(s) => assert_eq!(s.timer.duration_ms, 500),
        _ => panic!("a walker slides"),
    }
    match enemies[1].state {
        ActiveBehavior::Jumping(j) => assert_eq!(j.timer.duration_ms, 2500),
        _ => panic!("a jumper jumps"),
    }
    match enemies[2].state {
        ActiveBehavior::Shooting(s) => assert_eq!(s.timer.duration_ms, 1000),
        _ => panic!("a shooter shoots"),
    }
    match enemies[3].state {
        ActiveBehavior::BurstShooting(b) => assert_eq!(b.timer.duration_ms, 1400),
        _ => panic!("a burst shooter burst-shoots"),
    }
    // State-machine exclusivity: exactly one active behavior each.
    for e in &enemies {
        assert_eq!(active_count(e), 1);
    }
}

#[test]
fn active_enemy_does_not_tick_its_delay() {
    let mut enemies = vec![dormant(Behavior::Walker, 1000)];
    move_enemies(&mut enemies, 1000);
    let elapsed_at_promotion = enemies[0].delay_move.elapsed_ms;
    move_enemies(&mut enemies, 800);
    assert_eq!(enemies[0].delay_move.elapsed_ms, elapsed_at_promotion);
    assert_eq!(active_count(&enemies[0]), 1);
}

#[test]
fn slide_translates_then_exits_to_dormant() {
    let mut enemies = vec![dormant(Behavior::Walker, 1000)];
    move_enemies(&mut enemies, 1000);
    handle_slides(&mut enemies, 100);
    // 20 units/s for 0.1 s: 2 units to the right, and a visible stretch.
    assert_eq!(enemies[0].x, 2000);
    assert_eq!(enemies[0].scale_x, 1050000);

    handle_slides(&mut enemies, 300);
    assert_eq!(enemies[0].x, 2000 + 6000);
    handle_slides(&mut enemies, 100);
    assert!(matches!(enemies[0].state, ActiveBehavior::Dormant));
    assert_eq!(enemies[0].scale_x, 1000000, "the stretch resets on exit");
    assert_eq!(enemies[0].x, 8000, "the tick that ends the slide does not translate");
}

#[test]
fn slide_follows_the_facing() {
    let mut e = dormant(Behavior::Walker, 1000);
    e.direction = -1;
    let mut enemies = vec![e];
    move_enemies(&mut enemies, 1000);
    handle_slides(&mut enemies, 100);
    assert_eq!(enemies[0].x, -2000);
}

#[test]
fn jump_charge_squashes_then_launches() {
    let mut enemies = vec![dormant(Behavior::Jumper, 2000)];
    move_enemies(&mut enemies, 2000);
    handle_jumpers(&mut enemies, 1000);
    assert_eq!(enemies[0].scale_y, 700000, "the sprite squashes while charging");

    handle_jumpers(&mut enemies, 1500);
    assert!(matches!(enemies[0].state, ActiveBehavior::Dormant));
    assert_eq!(enemies[0].scale_y, 1000000);
    assert_eq!(enemies[0].delay_move.elapsed_ms, 0, "the delay re-arms on launch");
    let vx = enemies[0].vx;
    let vy = enemies[0].vy;
    assert!((20000..100000).contains(&vx) || (-99999..=-20000).contains(&vx));
    assert!((200000..500000).contains(&vy));
}

#[test]
fn shooter_fires_at_the_player_and_returns_to_dormant() {
    let mut enemies = vec![dormant(Behavior::Shooter, 1000)];
    move_enemies(&mut enemies, 1000);
    let mut player = Player::new();
    player.x = 5000;
    player.y = -10000;

    // Half the aim phase: a tracer is drawn, no shot yet.
    let (shots, tracers) = handle_shooter(&mut enemies, Some(player), 500);
    assert!(shots.is_empty());
    assert_eq!(tracers.len(), 1);
    assert_eq!(tracers[0].0.duration_ms, 50);

    // The phase completes: one bullet aimed at the player's location.
    let (shots, tracers) = handle_shooter(&mut enemies, Some(player), 500);
    assert_eq!(shots.len(), 1);
    assert_eq!(tracers.len(), 1);
    assert!(matches!(enemies[0].state, ActiveBehavior::Dormant));
    match shots[0].vel {
        arena_sim::projectile::VelocityIntent::Aimed { to_x, to_y, speed } => {
            assert_eq!(to_x, 5000);
            assert_eq!(to_y, -10000);
            assert_eq!(speed, 50000);
        },
        _ => panic!("the enemy bullet homes on the player's location"),
    }
    assert!(shots[0].lifetime.is_none(), "enemy bullets carry no lifetime tag");
}

#[test]
fn shooter_idles_without_a_player() {
    let mut enemies = vec![dormant(Behavior::Shooter, 1000)];
    move_enemies(&mut enemies, 1000);
    let before = enemies[0];
    let (shots, tracers) = handle_shooter(&mut enemies, None, 2000);
    assert!(shots.is_empty());
    assert!(tracers.is_empty());
    assert_eq!(enemies[0], before);
}

#[test]
fn enemy_warning_materializes_with_the_variant_delay() {
    let mut warnings = vec![
        SpawnEnemy { asset: Behavior::Jumper, x: 100, y: -92000, timer: Timer::new(1000, false) },
        SpawnEnemy { asset: Behavior::Walker, x: -300, y: -92000, timer: Timer::new(1000, false) },
    ];
    let spawned = spawn_warned_enemy(&mut warnings, 1000);
    assert!(warnings.is_empty());
    assert_eq!(spawned.len(), 2);
    assert_eq!(spawned[0].delay_move.duration_ms, 2000, "jumpers wake slower");
    assert_eq!(spawned[1].delay_move.duration_ms, 1000);
    assert_eq!(spawned[0].x, 100);
    assert_eq!(spawned[1].x, -300);
    assert_eq!(spawned[0].health, 1);
    assert!(matches!(spawned[0].state, ActiveBehavior::Dormant));
}

#[test]
fn enemy_warning_spawns_on_the_floor_band() {
    for _ in 0..20 {
        let w = spawn_enemy_warning(Behavior::Shooter);
        assert!(w.x >= -200000 && w.x < 200000);
        assert_eq!(w.y, -92000);
        assert_eq!(w.timer.duration_ms, 1000);
        assert!(matches!(w.asset, Behavior::Shooter));
    }
}
