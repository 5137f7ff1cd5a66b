use arena_sim::collision::handle_bullet_collision;
use arena_sim::projectile::{
    expire_projectiles, handle_despawner, spin_spinners, Bullet, Despawner, Projectile, Spinning,
    VelocityIntent,
};
use arena_sim::timer::Timer;

fn bullet_with_life(ms: u64) -> Projectile {
    Projectile {
        x: 0,
        y: 0,
        off_angle_mrad: 0,
        off_dist: 0,
        vel: VelocityIntent::Directed { angle_mrad: 0, speed: 500000 },
        lifetime: Some(Bullet { timer: Timer::new(ms, false) }),
        spinning: None,
        collidable: true,
    }
}

#[test]
fn collision_despawns_a_bullet_before_its_lifetime() {
    // A bullet with a 5.0 s lifetime flies for 1.2 s ...
    let mut projectiles = vec![bullet_with_life(5000)];
    expire_projectiles(&mut projectiles, 1200);
    assert_eq!(projectiles.len(), 1, "1.2 s into a 5.0 s lifetime it still flies");

    // ... then hits something: it despawns now, not at 5.0 s.
    let hits = vec![true];
    handle_bullet_collision(&mut projectiles, &hits);
    assert!(projectiles.is_empty(), "collision preempts the lifetime countdown");
}

#[test]
fn untagged_or_untracked_entities_survive_collisions() {
    let mut untagged = bullet_with_life(5000);
    untagged.lifetime = None;
    let mut untracked = bullet_with_life(5000);
    untracked.collidable = false;
    let mut projectiles = vec![untagged, untracked];
    let hits = vec![true, true];
    handle_bullet_collision(&mut projectiles, &hits);
    assert_eq!(projectiles.len(), 2);
}

#[test]
fn lifetime_despawns_on_the_tick_it_elapses_and_never_before() {
    let mut projectiles = vec![bullet_with_life(1000)];
    expire_projectiles(&mut projectiles, 999);
    assert_eq!(projectiles.len(), 1, "never before elapsed >= duration");
    expire_projectiles(&mut projectiles, 1);
    assert!(projectiles.is_empty(), "on the tick elapsed reaches the duration");
}

#[test]
fn expiry_keeps_untagged_entities_forever() {
    let mut enemy_bullet = bullet_with_life(0);
    enemy_bullet.lifetime = None;
    let mut projectiles = vec![enemy_bullet];
    expire_projectiles(&mut projectiles, 1000000);
    assert_eq!(projectiles.len(), 1);
}

#[test]
fn spinners_spin_until_their_countdown_ends() {
    let mut spent = bullet_with_life(4000);
    spent.collidable = false;
    spent.spinning = Some(Spinning { last_angle: 0, timer: Timer::new(1000, false) });
    let mut projectiles = vec![spent];

    spin_spinners(&mut projectiles);
    spin_spinners(&mut projectiles);
    assert_eq!(projectiles[0].spinning.unwrap().last_angle, 200);

    // The spin countdown runs out (ticked by the scheduler pass).
    expire_projectiles(&mut projectiles, 1000);
    spin_spinners(&mut projectiles);
    assert_eq!(projectiles[0].spinning.unwrap().last_angle, 200, "a finished spinner stops");
}

#[test]
fn tracers_despawn_on_their_short_countdown() {
    let mut tracers = vec![Despawner(Timer::new(50, false)), Despawner(Timer::new(50, false))];
    handle_despawner(&mut tracers, 49);
    assert_eq!(tracers.len(), 2);
    handle_despawner(&mut tracers, 1);
    assert!(tracers.is_empty());
}
