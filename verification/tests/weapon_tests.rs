use arena_sim::player::Player;
use arena_sim::projectile::{Bullet, Projectile, VelocityIntent};
use arena_sim::timer::Timer;
use arena_sim::types::{Score, Weapon, Weapons};
use arena_sim::weapon::{
    expire_pickups, fire_weapon, grab_weapon, point_held_item, spawn_warned, warn_weapon_spawn,
    AimInput, HeldItem, SpawnWeapon, WeaponPickup,
};

fn pickup_at(x: i64, y: i64) -> WeaponPickup {
    WeaponPickup {
        weapon: Weapon { asset: Weapons::Base },
        x,
        y,
        lifetime: Bullet { timer: Timer::new(5000, false) },
    }
}

#[test]
fn pickup_awards_twice_the_difficulty_once() {
    let mut pickups = vec![pickup_at(1000, 2000)];
    let hits = vec![true];
    let mut held: Option<HeldItem> = None;
    let mut score = Score { score: 0 };
    let mut projectiles: Vec<Projectile> = Vec::new();
    grab_weapon(
        &mut pickups,
        &hits,
        Player::new(),
        &mut held,
        &mut score,
        3,
        &mut projectiles,
    );
    assert_eq!(score.score, 6, "score rises by 2 x difficulty, exactly once");
    assert!(pickups.is_empty(), "the grabbed pickup despawns");
    let h = held.expect("the grabbed weapon becomes the held item");
    assert!(matches!(h.asset, Weapons::Base));
    assert!(projectiles.is_empty(), "nothing was thrown: no item was held before");

    // The pickup is gone, so the same pickup can never score again.
    let no_hits: Vec<bool> = Vec::new();
    grab_weapon(
        &mut pickups,
        &no_hits,
        Player::new(),
        &mut held,
        &mut score,
        3,
        &mut projectiles,
    );
    assert_eq!(score.score, 6);
}

#[test]
fn pickup_without_overlap_changes_nothing() {
    let mut pickups = vec![pickup_at(0, 0)];
    let hits = vec![false];
    let mut held: Option<HeldItem> = None;
    let mut score = Score { score: 5 };
    let mut projectiles: Vec<Projectile> = Vec::new();
    grab_weapon(
        &mut pickups,
        &hits,
        Player::new(),
        &mut held,
        &mut score,
        4,
        &mut projectiles,
    );
    assert_eq!(score.score, 5);
    assert_eq!(pickups.len(), 1);
    assert!(held.is_none());
}

#[test]
fn grabbing_with_an_item_held_throws_it_as_spent() {
    let mut pickups = vec![pickup_at(0, 0)];
    let hits = vec![true];
    let mut held = Some(HeldItem { asset: Weapons::Base, angle_mrad: 0, dist: 0 });
    let mut score = Score { score: 0 };
    let mut projectiles: Vec<Projectile> = Vec::new();
    let player = Player::new();
    grab_weapon(&mut pickups, &hits, player, &mut held, &mut score, 1, &mut projectiles);
    assert_eq!(projectiles.len(), 1);
    let spent = &projectiles[0];
    assert_eq!(spent.x, player.x);
    assert_eq!(spent.y, player.y);
    assert!(matches!(spent.vel, VelocityIntent::Fixed { vx: 0, vy: 0 }));
    let life = spent.lifetime.expect("a thrown spent weapon expires on its own");
    assert_eq!(life.timer.duration_ms, 4000);
    assert!(held.is_some(), "the new pickup is held afterward");
}

#[test]
fn firing_consumes_the_held_item_and_spawns_bullet_and_spent() {
    let mut held = Some(HeldItem { asset: Weapons::Base, angle_mrad: 300, dist: 4000 });
    let mut projectiles: Vec<Projectile> = Vec::new();
    let mut player = Player::new();
    player.looking_at = 300;
    let recoil = fire_weapon(player, &mut held, &mut projectiles, true);
    assert!(held.is_none(), "a fired projectile is created only by despawning the held item");
    match recoil {
        Some(VelocityIntent::Opposite { angle_mrad, speed_x, speed_y }) => {
            assert_eq!(angle_mrad, 300, "the recoil opposes the aim");
            assert_eq!(speed_x, 100000, "the recoil speed is 100 units/s");
            assert_eq!(speed_y, 100000);
        },
        _ => panic!("firing recoils the player opposite the aim"),
    }
    assert_eq!(projectiles.len(), 2);

    let spent = &projectiles[0];
    match spent.vel {
        VelocityIntent::Opposite { angle_mrad, speed_x, speed_y } => {
            assert_eq!(angle_mrad, 300);
            assert!((30000..100000).contains(&speed_x));
            assert!((30000..100000).contains(&speed_y));
        },
        _ => panic!("the spent weapon recoils opposite the aim"),
    }
    assert!(spent.spinning.is_some(), "the spent weapon spins");
    assert_eq!(spent.lifetime.unwrap().timer.duration_ms, 4000);

    let bullet = &projectiles[1];
    match bullet.vel {
        VelocityIntent::Directed { angle_mrad, speed } => {
            assert_eq!(angle_mrad, 300);
            assert_eq!(speed, 500000);
        },
        _ => panic!("the bullet flies along the aim"),
    }
    assert_eq!(bullet.off_angle_mrad, 300);
    assert_eq!(bullet.off_dist, 4000);
    assert_eq!(bullet.lifetime.unwrap().timer.duration_ms, 5000);
    assert!(bullet.collidable);
}

#[test]
fn firing_without_a_held_item_does_nothing() {
    let mut held: Option<HeldItem> = None;
    let mut projectiles: Vec<Projectile> = Vec::new();
    let recoil = fire_weapon(Player::new(), &mut held, &mut projectiles, true);
    assert!(recoil.is_none());
    assert!(projectiles.is_empty());
}

#[test]
fn fire_needs_a_press_edge() {
    let mut held = Some(HeldItem { asset: Weapons::Base, angle_mrad: 0, dist: 0 });
    let mut projectiles: Vec<Projectile> = Vec::new();
    let recoil = fire_weapon(Player::new(), &mut held, &mut projectiles, false);
    assert!(recoil.is_none());
    assert!(held.is_some());
    assert!(projectiles.is_empty());
}

#[test]
fn warning_materializes_the_pickup_at_its_location() {
    let mut warnings = vec![SpawnWeapon {
        timer: Timer::new(1000, false),
        asset: Weapons::Base,
        x: 7000,
        y: 120000,
    }];
    let spawned = spawn_warned(&mut warnings, 400);
    assert!(spawned.is_empty());
    assert_eq!(warnings.len(), 1);

    let spawned = spawn_warned(&mut warnings, 600);
    assert!(warnings.is_empty(), "the warning despawns when it materializes");
    assert_eq!(spawned.len(), 1);
    assert_eq!(spawned[0].x, 7000);
    assert_eq!(spawned[0].y, 120000);
    assert!(matches!(spawned[0].weapon.asset, Weapons::Base));
    assert_eq!(spawned[0].lifetime.timer.duration_ms, 5000);
}

#[test]
fn unclaimed_pickup_expires() {
    let mut pickups = vec![pickup_at(0, 0)];
    expire_pickups(&mut pickups, 4999);
    assert_eq!(pickups.len(), 1);
    expire_pickups(&mut pickups, 1);
    assert!(pickups.is_empty());
}

#[test]
fn held_item_tracks_the_aim_within_the_radius() {
    let mut player = Player::new();
    let mut held = Some(HeldItem { asset: Weapons::Base, angle_mrad: 0, dist: 0 });
    point_held_item(&mut player, &mut held, AimInput { angle_mrad: 700, dist: 9000 });
    assert_eq!(player.looking_at, 700);
    let h = held.unwrap();
    assert_eq!(h.angle_mrad, 700);
    assert_eq!(h.dist, 5000, "the held item sits at most 5 units out");

    point_held_item(&mut player, &mut held, AimInput { angle_mrad: -200, dist: 3000 });
    let h = held.unwrap();
    assert_eq!(h.dist, 3000);
    assert_eq!(player.looking_at, -200);
}

#[test]
fn aim_is_not_recorded_without_a_held_item() {
    let mut player = Player::new();
    let mut held: Option<HeldItem> = None;
    point_held_item(&mut player, &mut held, AimInput { angle_mrad: 900, dist: 100 });
    assert_eq!(player.looking_at, 0);
}

#[test]
fn weapon_warning_spawns_within_the_ceiling_band() {
    for _ in 0..20 {
        let w = warn_weapon_spawn(Weapons::Base);
        assert!(w.x >= -200000 && w.x < 200000);
        assert_eq!(w.y, 120000);
        assert_eq!(w.timer.duration_ms, 1000);
        assert!(!w.timer.repeating);
    }
}
