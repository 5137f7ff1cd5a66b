//! The weapon lifecycle: spawn warning, free pickup, held item, fired
//! projectile, expiry.
//!
//! A warning telegraphs the spawn for a short countdown, then despawns and
//! materializes the real pickup at the recorded location. A pickup that
//! overlaps the player is transferred: the pickup despawns, a held item
//! appears at the player, and the score rises by twice the current
//! difficulty. The held item tracks the player's aim point at a bounded
//! radius. Firing despawns the held item, spawns a spinning spent weapon
//! and a bullet, and recoils the player opposite the aim.

use vstd::prelude::*;

use crate::arith::{add_clip, clip, min_i64, spec_min_i64};
use crate::player::Player;
use crate::projectile::{Bullet, Projectile, Spinning, VelocityIntent};
use crate::projectile::{BULLET_LIFE_MS, BULLET_SPEED, RECOIL_SPEED, SPENT_LIFE_MS, SPIN_MS};
use crate::rng::rand_in_range;
use crate::timer::{Timer, TICK_MAX_MS};
use crate::types::{Score, Weapon, Weapons};

verus! {

/// Countdown of a spawn warning before the real entity appears, ms.
pub const WARNING_MS: u64 = 1000;

/// Vertical spawn line of weapon crates, milli-units (the ceiling).
pub const WEAPON_SPAWN_Y: i64 = 120000;

/// Horizontal spawn offsets are drawn from this half-open range, milli-units.
pub const SPAWN_X_MIN: i64 = -200000;
pub const SPAWN_X_MAX: i64 = 200000;

/// Lifetime of an unclaimed pickup crate, ms.
pub const PICKUP_LIFE_MS: u64 = 5000;

/// A held item sits at most this far from the player, milli-units.
pub const HELD_RADIUS_MAX: i64 = 5000;

/// The spent weapon thrown on firing recoils with per-axis speeds drawn
/// from this half-open range, milli-units per second.
pub const SPENT_KICK_MIN: i64 = 30000;
pub const SPENT_KICK_MAX: i64 = 100000;

/// A warning entity telegraphing a weapon spawn: where the crate will
/// appear, which variant, and the countdown until it materializes.
#[derive(Clone, Copy, PartialEq, Eq, Structural, Debug)]
pub struct SpawnWeapon {
    pub timer: Timer,
    pub asset: Weapons,
    pub x: i64,
    pub y: i64,
}

/// A free-standing weapon pickup, with the lifetime countdown after which
/// an unclaimed crate despawns.
#[derive(Clone, Copy, PartialEq, Eq, Structural, Debug)]
pub struct WeaponPickup {
    pub weapon: Weapon,
    pub x: i64,
    pub y: i64,
    pub lifetime: Bullet,
}

/// The weapon currently held by the player, tracked to the aim point as a
/// polar offset from the player's position.
#[derive(Clone, Copy, PartialEq, Eq, Structural, Debug)]
pub struct HeldItem {
    pub asset: Weapons,
    pub angle_mrad: i64,
    pub dist: i64,
}

/// The aim reading for one tick: the cursor's direction and distance from
/// the player, as resolved by the unverified screen-to-world edge.
#[derive(Clone, Copy, PartialEq, Eq, Structural, Debug)]
pub struct AimInput {
    pub angle_mrad: i64,
    pub dist: i64,
}

/// Spawn a warning for a weapon crate of the given variant, at a uniformly
/// random horizontal offset on the fixed ceiling spawn line.
pub fn warn_weapon_spawn(weapon: Weapons) -> (w: SpawnWeapon)
    ensures
        w.timer == (Timer {
            duration_ms: WARNING_MS,
            elapsed_ms: 0,
            repeating: false,
            fired: false,
        }),
        w.asset == weapon,
        w.y == WEAPON_SPAWN_Y,
        SPAWN_X_MIN <= w.x < SPAWN_X_MAX,
{
    let x = rand_in_range(SPAWN_X_MIN, SPAWN_X_MAX);
    SpawnWeapon { timer: Timer::new(WARNING_MS, false), asset: weapon, x, y: WEAPON_SPAWN_Y }
}

/// The pickup crate that a warning materializes into: at the recorded
/// location, variant Base in the minimal configuration, with the unclaimed
/// lifetime countdown.
pub open spec fn spec_materialized_pickup(w: SpawnWeapon) -> WeaponPickup {
    WeaponPickup {
        weapon: Weapon { asset: Weapons::Base },
        x: w.x,
        y: w.y,
        lifetime: Bullet {
            timer: Timer {
                duration_ms: PICKUP_LIFE_MS,
                elapsed_ms: 0,
                repeating: false,
                fired: false,
            },
        },
    }
}

/// The warnings that survive the tick: those whose countdown is still
/// running after advancing by `dt`, in order.
pub open spec fn spec_warnings_kept(ws: Seq<SpawnWeapon>, dt: u64) -> Seq<SpawnWeapon>
    decreases ws.len(),
{
    if ws.len() == 0 {
        Seq::empty()
    } else {
        let t = SpawnWeapon { timer: ws[0].timer.spec_tick(dt), ..ws[0] };
        let rest = spec_warnings_kept(ws.drop_first(), dt);
        if t.timer.fired {
            rest
        } else {
            seq![t] + rest
        }
    }
}

/// The pickups materialized this tick: one per warning whose countdown ran
/// out, in order.
pub open spec fn spec_pickups_spawned(ws: Seq<SpawnWeapon>, dt: u64) -> Seq<WeaponPickup>
    decreases ws.len(),
{
    if ws.len() == 0 {
        Seq::empty()
    } else {
        let t = SpawnWeapon { timer: ws[0].timer.spec_tick(dt), ..ws[0] };
        let rest = spec_pickups_spawned(ws.drop_first(), dt);
        if t.timer.fired {
            seq![spec_materialized_pickup(ws[0])] + rest
        } else {
            rest
        }
    }
}

/// Advance every weapon warning's countdown; each warning that ran out
/// despawns and is replaced by the real pickup at its recorded location.
#[verifier::loop_isolation(false)]
pub fn spawn_warned(ws: &mut Vec<SpawnWeapon>, dt: u64) -> (spawned: Vec<WeaponPickup>)
    requires
        forall|i: int| 0 <= i < old(ws)@.len() ==> (#[trigger] old(ws)@[i]).timer.wf(),
        dt <= TICK_MAX_MS,
    ensures
        final(ws)@ == spec_warnings_kept(old(ws)@, dt),
        spawned@ == spec_pickups_spawned(old(ws)@, dt),
        forall|i: int| 0 <= i < final(ws)@.len() ==> (#[trigger] final(ws)@[i]).timer.wf(),
        forall|i: int| 0 <= i < spawned@.len() ==> (#[trigger] spawned@[i]).lifetime.timer.wf(),
{
    let len = ws.len();
    let mut kept: Vec<SpawnWeapon> = Vec::new();
    let mut spawned: Vec<WeaponPickup> = Vec::new();
    let mut i: usize = 0;
    proof {
        assert(ws@.skip(0) =~= ws@);
        assert(kept@ + spec_warnings_kept(ws@, dt) =~= spec_warnings_kept(ws@, dt));
        assert(spawned@ + spec_pickups_spawned(ws@, dt) =~= spec_pickups_spawned(ws@, dt));
    }
    while i < len
        invariant
            i <= len,
            ws@ == old(ws)@,
            spec_warnings_kept(ws@, dt) == kept@ + spec_warnings_kept(ws@.skip(i as int), dt),
            spec_pickups_spawned(ws@, dt) == spawned@ + spec_pickups_spawned(
                ws@.skip(i as int),
                dt,
            ),
            forall|j: int| 0 <= j < kept@.len() ==> (#[trigger] kept@[j]).timer.wf(),
            forall|j: int| 0 <= j < spawned@.len() ==> (#[trigger] spawned@[j]).lifetime.timer.wf(),
        decreases len - i,
    {
        let mut w = ws[i];
        proof {
            assert(ws@.skip(i as int)[0] == ws@[i as int]);
            assert(ws@.skip(i as int).drop_first() =~= ws@.skip(i as int + 1));
        }
        w.timer.tick(dt);
        if w.timer.finished() {
            spawned.push(
                WeaponPickup {
                    weapon: Weapon { asset: Weapons::Base },
                    x: w.x,
                    y: w.y,
                    lifetime: Bullet { timer: Timer::new(PICKUP_LIFE_MS, false) },
                },
            );
            proof {
                assert(spawned@ + spec_pickups_spawned(ws@.skip(i as int + 1), dt)
                    =~= spawned@.drop_last() + (seq![spec_materialized_pickup(ws@[i as int])]
                    + spec_pickups_spawned(ws@.skip(i as int + 1), dt)));
            }
        } else {
            kept.push(w);
            proof {
                assert(kept@ + spec_warnings_kept(ws@.skip(i as int + 1), dt) =~= kept@.drop_last()
                    + (seq![w] + spec_warnings_kept(ws@.skip(i as int + 1), dt)));
            }
        }
        i = i + 1;
    }
    proof {
        assert(ws@.skip(len as int) =~= Seq::<SpawnWeapon>::empty());
        assert(kept@ + Seq::<SpawnWeapon>::empty() =~= kept@);
        assert(spawned@ + Seq::<WeaponPickup>::empty() =~= spawned@);
    }
    *ws = kept;
    spawned
}

/// The pickup-lifetime pass: every unclaimed crate's countdown advances,
/// and exactly those that ran out despawn, in order.
pub open spec fn spec_pickup_expire_pass(ps: Seq<WeaponPickup>, dt: u64) -> Seq<WeaponPickup>
    decreases ps.len(),
{
    if ps.len() == 0 {
        Seq::empty()
    } else {
        let t = WeaponPickup {
            lifetime: Bullet { timer: ps[0].lifetime.timer.spec_tick(dt) },
            ..ps[0]
        };
        let rest = spec_pickup_expire_pass(ps.drop_first(), dt);
        if t.lifetime.timer.fired {
            rest
        } else {
            seq![t] + rest
        }
    }
}

/// Advance every pickup's lifetime countdown and despawn the crates whose
/// countdown ran out.
#[verifier::loop_isolation(false)]
pub fn expire_pickups(ps: &mut Vec<WeaponPickup>, dt: u64)
    requires
        forall|i: int| 0 <= i < old(ps)@.len() ==> (#[trigger] old(ps)@[i]).lifetime.timer.wf(),
        dt <= TICK_MAX_MS,
    ensures
        final(ps)@ == spec_pickup_expire_pass(old(ps)@, dt),
        forall|i: int| 0 <= i < final(ps)@.len() ==> (#[trigger] final(ps)@[i]).lifetime.timer.wf(),
{
    let len = ps.len();
    let mut out: Vec<WeaponPickup> = Vec::new();
    let mut i: usize = 0;
    proof {
        assert(ps@.skip(0) =~= ps@);
        assert(out@ + spec_pickup_expire_pass(ps@, dt) =~= spec_pickup_expire_pass(ps@, dt));
    }
    while i < len
        invariant
            i <= len,
            ps@ == old(ps)@,
            spec_pickup_expire_pass(ps@, dt) == out@ + spec_pickup_expire_pass(
                ps@.skip(i as int),
                dt,
            ),
            forall|j: int| 0 <= j < out@.len() ==> (#[trigger] out@[j]).lifetime.timer.wf(),
        decreases len - i,
    {
        let mut p = ps[i];
        proof {
            assert(ps@.skip(i as int)[0] == ps@[i as int]);
            assert(ps@.skip(i as int).drop_first() =~= ps@.skip(i as int + 1));
        }
        p.lifetime.timer.tick(dt);
        if !p.lifetime.timer.finished() {
            out.push(p);
            proof {
                assert(out@ + spec_pickup_expire_pass(ps@.skip(i as int + 1), dt)
                    =~= out@.drop_last() + (seq![p] + spec_pickup_expire_pass(
                    ps@.skip(i as int + 1),
                    dt,
                )));
            }
        }
        i = i + 1;
    }
    proof {
        assert(ps@.skip(len as int) =~= Seq::<WeaponPickup>::empty());
        assert(out@ + Seq::<WeaponPickup>::empty() =~= out@);
    }
    *ps = out;
}

/// The spent weapon thrown to the ground when a new pickup replaces an
/// already-held item: a static lifetime-tagged entity at the player.
pub open spec fn spec_thrown_spent(player: Player) -> Projectile {
    Projectile {
        x: player.x,
        y: player.y,
        off_angle_mrad: 0,
        off_dist: 0,
        vel: VelocityIntent::Fixed { vx: 0, vy: 0 },
        lifetime: Some(
            Bullet {
                timer: Timer {
                    duration_ms: SPENT_LIFE_MS,
                    elapsed_ms: 0,
                    repeating: false,
                    fired: false,
                },
            },
        ),
        spinning: None,
        collidable: false,
    }
}

/// The held item created by grabbing a pickup: at the player, before any
/// aim tracking has offset it.
pub open spec fn spec_grabbed_held(p: WeaponPickup) -> HeldItem {
    HeldItem { asset: p.weapon.asset, angle_mrad: 0, dist: 0 }
}

/// The outcome of the pickup pass: the score and held item afterward, the
/// pickups that remain, and the spent weapons thrown while swapping.
pub struct GrabOutcome {
    pub score: i64,
    pub held: Option<HeldItem>,
    pub kept: Seq<WeaponPickup>,
    pub spawned: Seq<Projectile>,
}

/// The pickup pass over the population, in order. Each pickup overlapping
/// the player awards twice the current difficulty (saturating), throws any
/// already-held item to the ground as a spent weapon, despawns the pickup,
/// and becomes the new held item. Other pickups are untouched.
pub open spec fn spec_grab_pass(
    ps: Seq<WeaponPickup>,
    hits: Seq<bool>,
    player: Player,
    difficulty: i64,
    score: i64,
    held: Option<HeldItem>,
) -> GrabOutcome
    recommends
        ps.len() == hits.len(),
    decreases ps.len(),
{
    if ps.len() == 0 {
        GrabOutcome { score, held, kept: Seq::empty(), spawned: Seq::empty() }
    } else if hits.len() > 0 && hits[0] {
        let score1 = clip(score + clip(difficulty + difficulty)) as i64;
        let thrown: Seq<Projectile> = match held {
            Some(_) => seq![spec_thrown_spent(player)],
            None => Seq::empty(),
        };
        let rest = spec_grab_pass(
            ps.drop_first(),
            hits.drop_first(),
            player,
            difficulty,
            score1,
            Some(spec_grabbed_held(ps[0])),
        );
        GrabOutcome { spawned: thrown + rest.spawned, ..rest }
    } else {
        let rest = spec_grab_pass(ps.drop_first(), hits.drop_first(), player, difficulty, score, held);
        GrabOutcome { kept: seq![ps[0]] + rest.kept, ..rest }
    }
}

/// Transfer every pickup that overlaps the player this tick: award the
/// score, throw any held item to the ground, despawn the pickup and hold
/// its weapon.
#[verifier::loop_isolation(false)]
pub fn grab_weapon(
    pickups: &mut Vec<WeaponPickup>,
    hits: &Vec<bool>,
    player: Player,
    held: &mut Option<HeldItem>,
    score: &mut Score,
    difficulty: i64,
    projectiles: &mut Vec<Projectile>,
)
    requires
        hits@.len() == old(pickups)@.len(),
    ensures
        ({
            let outcome = spec_grab_pass(
                old(pickups)@,
                hits@,
                player,
                difficulty,
                old(score).score,
                *old(held),
            );
            &&& final(score).score == outcome.score
            &&& *final(held) == outcome.held
            &&& final(pickups)@ == outcome.kept
            &&& final(projectiles)@ == old(projectiles)@ + outcome.spawned
        }),
{
    let ghost outcome = spec_grab_pass(pickups@, hits@, player, difficulty, score.score, *held);
    let len = pickups.len();
    let mut kept: Vec<WeaponPickup> = Vec::new();
    let mut i: usize = 0;
    let ghost base = projectiles@;
    let ghost mut thrown: Seq<Projectile> = Seq::empty();
    proof {
        assert(pickups@.skip(0) =~= pickups@);
        assert(hits@.skip(0) =~= hits@);
        assert(base + thrown =~= projectiles@);
        assert(kept@ + outcome.kept =~= outcome.kept);
        assert(thrown + outcome.spawned =~= outcome.spawned);
    }
    while i < len
        invariant
            i <= len,
            pickups@ == old(pickups)@,
            projectiles@ == base + thrown,
            ({
                let rest = spec_grab_pass(
                    pickups@.skip(i as int),
                    hits@.skip(i as int),
                    player,
                    difficulty,
                    score.score,
                    *held,
                );
                &&& outcome.score == rest.score
                &&& outcome.held == rest.held
                &&& outcome.kept == kept@ + rest.kept
                &&& outcome.spawned == thrown + rest.spawned
            }),
        decreases len - i,
    {
        let p = pickups[i];
        let ghost s_before = score.score;
        let ghost h_before = *held;
        proof {
            assert(pickups@.skip(i as int)[0] == pickups@[i as int]);
            assert(hits@.skip(i as int)[0] == hits@[i as int]);
            assert(pickups@.skip(i as int).drop_first() =~= pickups@.skip(i as int + 1));
            assert(hits@.skip(i as int).drop_first() =~= hits@.skip(i as int + 1));
        }
        if hits[i] {
            score.score = add_clip(score.score, add_clip(difficulty, difficulty));
            let ghost thrown0: Seq<Projectile> = match h_before {
                Some(_) => seq![spec_thrown_spent(player)],
                None => Seq::empty(),
            };
            match *held {
                Some(_) => {
                    projectiles.push(
                        Projectile {
                            x: player.x,
                            y: player.y,
                            off_angle_mrad: 0,
                            off_dist: 0,
                            vel: VelocityIntent::Fixed { vx: 0, vy: 0 },
                            lifetime: Some(Bullet { timer: Timer::new(SPENT_LIFE_MS, false) }),
                            spinning: None,
                            collidable: false,
                        },
                    );
                },
                None => {},
            }
            *held = Some(HeldItem { asset: p.weapon.asset, angle_mrad: 0, dist: 0 });
            proof {
                let rest_old = spec_grab_pass(
                    pickups@.skip(i as int),
                    hits@.skip(i as int),
                    player,
                    difficulty,
                    s_before,
                    h_before,
                );
                let rest_new = spec_grab_pass(
                    pickups@.skip(i as int + 1),
                    hits@.skip(i as int + 1),
                    player,
                    difficulty,
                    score.score,
                    *held,
                );
                assert(rest_old.spawned == thrown0 + rest_new.spawned);
                assert(projectiles@ =~= base + (thrown + thrown0));
                assert(thrown + (thrown0 + rest_new.spawned) =~= (thrown + thrown0)
                    + rest_new.spawned);
                thrown = thrown + thrown0;
            }
        } else {
            kept.push(p);
            proof {
                let rest_new = spec_grab_pass(
                    pickups@.skip(i as int + 1),
                    hits@.skip(i as int + 1),
                    player,
                    difficulty,
                    score.score,
                    *held,
                );
                assert(kept@ + rest_new.kept =~= kept@.drop_last() + (seq![p] + rest_new.kept));
            }
        }
        i = i + 1;
    }
    proof {
        assert(pickups@.skip(len as int) =~= Seq::<WeaponPickup>::empty());
        assert(kept@ + Seq::<WeaponPickup>::empty() =~= kept@);
        assert(thrown + Seq::<Projectile>::empty() =~= thrown);
    }
    *pickups = kept;
}

/// Track the held item to the player's aim point: record the aim angle and
/// place the item at the cursor's direction, at most the bounded radius
/// away. With nothing held, neither the aim nor anything else changes.
pub fn point_held_item(player: &mut Player, held: &mut Option<HeldItem>, aim: AimInput)
    requires
        aim.dist >= 0,
    ensures
        match *old(held) {
            Some(h) => {
                &&& *final(player) == (Player { looking_at: aim.angle_mrad, ..*old(player) })
                &&& *final(held) == Some(
                    HeldItem {
                        asset: h.asset,
                        angle_mrad: aim.angle_mrad,
                        dist: spec_min_i64(aim.dist, HELD_RADIUS_MAX),
                    },
                )
            },
            None => {
                &&& *final(player) == *old(player)
                &&& *final(held) == *old(held)
            },
        },
{
    match *held {
        Some(h) => {
            player.looking_at = aim.angle_mrad;
            let dist = min_i64(aim.dist, HELD_RADIUS_MAX);
            *held = Some(HeldItem { asset: h.asset, angle_mrad: aim.angle_mrad, dist });
        },
        None => {},
    }
}

/// The bullet fired from a held item: it leaves the held position in the
/// aim direction at the muzzle speed, lifetime-tagged and collision-tracked.
pub open spec fn spec_fired_bullet(h: HeldItem, player: Player) -> Projectile {
    Projectile {
        x: player.x,
        y: player.y,
        off_angle_mrad: h.angle_mrad,
        off_dist: h.dist,
        vel: VelocityIntent::Directed { angle_mrad: player.looking_at, speed: BULLET_SPEED },
        lifetime: Some(
            Bullet {
                timer: Timer {
                    duration_ms: BULLET_LIFE_MS,
                    elapsed_ms: 0,
                    repeating: false,
                    fired: false,
                },
            },
        ),
        spinning: None,
        collidable: true,
    }
}

/// The shape of the spent weapon ejected on firing: everything about it is
/// fixed except its per-axis recoil speeds, which are random draws from the
/// kick range.
pub open spec fn spec_spent_shape(pr: Projectile, h: HeldItem, player: Player) -> bool {
    &&& pr.x == player.x
    &&& pr.y == player.y
    &&& pr.off_angle_mrad == h.angle_mrad
    &&& pr.off_dist == h.dist
    &&& (pr.vel matches VelocityIntent::Opposite { angle_mrad, speed_x, speed_y } ==> {
        &&& angle_mrad == player.looking_at
        &&& SPENT_KICK_MIN <= speed_x < SPENT_KICK_MAX
        &&& SPENT_KICK_MIN <= speed_y < SPENT_KICK_MAX
    })
    &&& pr.vel is Opposite
    &&& pr.lifetime == Some(
        Bullet {
            timer: Timer {
                duration_ms: SPENT_LIFE_MS,
                elapsed_ms: 0,
                repeating: false,
                fired: false,
            },
        },
    )
    &&& pr.spinning == Some(
        Spinning {
            last_angle: 0,
            timer: Timer { duration_ms: SPIN_MS, elapsed_ms: 0, repeating: false, fired: false },
        },
    )
    &&& !pr.collidable
}

/// The recoil applied to the player's own velocity on firing: the fixed
/// recoil speed on both axes, opposite the aim direction.
pub open spec fn spec_recoil(looking_at: i64) -> VelocityIntent {
    VelocityIntent::Opposite {
        angle_mrad: looking_at,
        speed_x: RECOIL_SPEED,
        speed_y: RECOIL_SPEED,
    }
}

/// On a fire press edge with an item held: despawn the held item, eject a
/// spinning spent weapon with a random recoil, spawn the bullet at the held
/// position along the aim, and recoil the player opposite the aim. Without
/// a press edge or a held item, nothing happens. The returned recoil is the
/// velocity the physics collaborator must give the player when firing
/// happened: the fixed recoil speed opposite the aim.
pub fn fire_weapon(
    player: Player,
    held: &mut Option<HeldItem>,
    projectiles: &mut Vec<Projectile>,
    fire_just: bool,
) -> (recoil: Option<VelocityIntent>)
    ensures
        match *old(held) {
            Some(h) => {
                if fire_just {
                    &&& *final(held) is None
                    &&& final(projectiles)@.len() == old(projectiles)@.len() + 2
                    &&& final(projectiles)@.take(old(projectiles)@.len() as int) == old(
                        projectiles,
                    )@
                    &&& spec_spent_shape(
                        final(projectiles)@[old(projectiles)@.len() as int],
                        h,
                        player,
                    )
                    &&& final(projectiles)@[old(projectiles)@.len() as int + 1] == spec_fired_bullet(
                        h,
                        player,
                    )
                    &&& recoil == Some(spec_recoil(player.looking_at))
                } else {
                    &&& *final(held) == *old(held)
                    &&& final(projectiles)@ == old(projectiles)@
                    &&& recoil is None
                }
            },
            None => {
                &&& *final(held) == *old(held)
                &&& final(projectiles)@ == old(projectiles)@
                &&& recoil is None
            },
        },
{
    if !fire_just {
        return None;
    }
    let current = *held;
    match current {
        Some(h) => {
            let kick_x = rand_in_range(SPENT_KICK_MIN, SPENT_KICK_MAX);
            let kick_y = rand_in_range(SPENT_KICK_MIN, SPENT_KICK_MAX);
            *held = None;
            projectiles.push(
                Projectile {
                    x: player.x,
                    y: player.y,
                    off_angle_mrad: h.angle_mrad,
                    off_dist: h.dist,
                    vel: VelocityIntent::Opposite {
                        angle_mrad: player.looking_at,
                        speed_x: kick_x,
                        speed_y: kick_y,
                    },
                    lifetime: Some(Bullet { timer: Timer::new(SPENT_LIFE_MS, false) }),
                    spinning: Some(Spinning { last_angle: 0, timer: Timer::new(SPIN_MS, false) }),
                    collidable: false,
                },
            );
            projectiles.push(
                Projectile {
                    x: player.x,
                    y: player.y,
                    off_angle_mrad: h.angle_mrad,
                    off_dist: h.dist,
                    vel: VelocityIntent::Directed {
                        angle_mrad: player.looking_at,
                        speed: BULLET_SPEED,
                    },
                    lifetime: Some(Bullet { timer: Timer::new(BULLET_LIFE_MS, false) }),
                    spinning: None,
                    collidable: true,
                },
            );
            proof {
                assert(projectiles@.take(old(projectiles)@.len() as int) =~= old(projectiles)@);
            }
            Some(
                VelocityIntent::Opposite {
                    angle_mrad: player.looking_at,
                    speed_x: RECOIL_SPEED,
                    speed_y: RECOIL_SPEED,
                },
            )
        },
        None => None,
    }
}

/// Weapon lifecycle ordering, pickup side: the pickup pass changes the held
/// item only by consuming a pickup. If the held item afterward differs from
/// the one before, some pickup was despawned, and whenever no pickup
/// overlaps the player the pass changes nothing at all.
pub proof fn lemma_held_needs_pickup(
    ps: Seq<WeaponPickup>,
    hits: Seq<bool>,
    player: Player,
    difficulty: i64,
    score: i64,
    held: Option<HeldItem>,
)
    requires
        ps.len() == hits.len(),
    ensures
        ({
            let outcome = spec_grab_pass(ps, hits, player, difficulty, score, held);
            &&& outcome.held != held ==> outcome.kept.len() < ps.len()
            &&& (forall|i: int| 0 <= i < hits.len() ==> !hits[i]) ==> outcome == (GrabOutcome {
                score,
                held,
                kept: ps,
                spawned: Seq::<Projectile>::empty(),
            })
        }),
    decreases ps.len(),
{
    let outcome = spec_grab_pass(ps, hits, player, difficulty, score, held);
    if ps.len() > 0 {
        if hits[0] {
            let score1 = clip(score + clip(difficulty + difficulty)) as i64;
            lemma_grab_consumes(
                ps.drop_first(),
                hits.drop_first(),
                player,
                difficulty,
                score1,
                Some(spec_grabbed_held(ps[0])),
            );
            let rest = spec_grab_pass(
                ps.drop_first(),
                hits.drop_first(),
                player,
                difficulty,
                score1,
                Some(spec_grabbed_held(ps[0])),
            );
            assert(outcome.kept.len() == rest.kept.len() <= ps.drop_first().len());
        } else {
            lemma_held_needs_pickup(
                ps.drop_first(),
                hits.drop_first(),
                player,
                difficulty,
                score,
                held,
            );
            let rest = spec_grab_pass(ps.drop_first(), hits.drop_first(), player, difficulty, score, held);
            if forall|i: int| 0 <= i < hits.len() ==> !hits[i] {
                assert(forall|i: int|
                    0 <= i < hits.drop_first().len() ==> !hits.drop_first()[i]);
                assert(outcome.kept =~= ps);
            }
        }
    } else {
        if forall|i: int| 0 <= i < hits.len() ==> !hits[i] {
            assert(outcome.kept =~= ps);
        }
    }
}

/// Weapon lifecycle ordering, pickup side, counting: the pickup pass
/// despawns exactly the overlapping pickups, so the population never grows
/// and shrinks by one for every overlap.
pub proof fn lemma_grab_consumes(
    ps: Seq<WeaponPickup>,
    hits: Seq<bool>,
    player: Player,
    difficulty: i64,
    score: i64,
    held: Option<HeldItem>,
)
    requires
        ps.len() == hits.len(),
    ensures
        spec_grab_pass(ps, hits, player, difficulty, score, held).kept.len() <= ps.len(),
    decreases ps.len(),
{
    if ps.len() > 0 {
        let score1 = clip(score + clip(difficulty + difficulty)) as i64;
        if hits[0] {
            lemma_grab_consumes(
                ps.drop_first(),
                hits.drop_first(),
                player,
                difficulty,
                score1,
                Some(spec_grabbed_held(ps[0])),
            );
        } else {
            lemma_grab_consumes(ps.drop_first(), hits.drop_first(), player, difficulty, score, held);
        }
    }
}

/// A pickup crate despawns on or before the tick its lifetime runs out,
/// and never before: after the lifetime pass every surviving crate's
/// countdown is still running, and a crate whose advanced countdown is
/// still running always survives.
pub proof fn lemma_pickup_expiry_exact(ps: Seq<WeaponPickup>, dt: u64)
    ensures
        forall|i: int|
            0 <= i < spec_pickup_expire_pass(ps, dt).len() ==> !(#[trigger] spec_pickup_expire_pass(
                ps,
                dt,
            )[i]).lifetime.timer.fired,
        forall|i: int|
            0 <= i < ps.len() && !(#[trigger] ps[i]).lifetime.timer.spec_tick(dt).fired
                ==> spec_pickup_expire_pass(ps, dt).contains(
                WeaponPickup {
                    lifetime: Bullet { timer: ps[i].lifetime.timer.spec_tick(dt) },
                    ..ps[i]
                },
            ),
    decreases ps.len(),
{
    if ps.len() > 0 {
        lemma_pickup_expiry_exact(ps.drop_first(), dt);
        let t0 = WeaponPickup { lifetime: Bullet { timer: ps[0].lifetime.timer.spec_tick(dt) }, ..ps[0] };
        let rest = spec_pickup_expire_pass(ps.drop_first(), dt);
        assert forall|i: int|
            0 <= i < ps.len() && !(#[trigger] ps[i]).lifetime.timer.spec_tick(dt).fired
                implies spec_pickup_expire_pass(ps, dt).contains(
            WeaponPickup { lifetime: Bullet { timer: ps[i].lifetime.timer.spec_tick(dt) }, ..ps[i] },
        ) by {
            let u = WeaponPickup {
                lifetime: Bullet { timer: ps[i].lifetime.timer.spec_tick(dt) },
                ..ps[i]
            };
            if i == 0 {
                assert(spec_pickup_expire_pass(ps, dt)[0] == u);
            } else {
                assert(ps.drop_first()[i - 1] == ps[i]);
                assert(rest.contains(u));
                let j = choose|j: int| 0 <= j < rest.len() && rest[j] == u;
                if t0.lifetime.timer.fired {
                    assert(spec_pickup_expire_pass(ps, dt)[j] == u);
                } else {
                    assert(spec_pickup_expire_pass(ps, dt)[j + 1] == u);
                }
            }
        }
    }
}

/// The score never decreases through the pickup pass.
pub proof fn lemma_grab_score_monotone(
    ps: Seq<WeaponPickup>,
    hits: Seq<bool>,
    player: Player,
    difficulty: i64,
    score: i64,
    held: Option<HeldItem>,
)
    requires
        difficulty >= 0,
    ensures
        spec_grab_pass(ps, hits, player, difficulty, score, held).score >= score,
    decreases ps.len(),
{
    if ps.len() > 0 {
        if hits.len() > 0 && hits[0] {
            let score1 = clip(score + clip(difficulty + difficulty)) as i64;
            lemma_grab_score_monotone(
                ps.drop_first(),
                hits.drop_first(),
                player,
                difficulty,
                score1,
                Some(spec_grabbed_held(ps[0])),
            );
        } else {
            lemma_grab_score_monotone(ps.drop_first(), hits.drop_first(), player, difficulty, score, held);
        }
    }
}

/// Everything the pickup pass keeps or spawns is well-formed: surviving
/// pickups come from the starting population, and thrown spent weapons
/// carry fresh countdowns.
pub proof fn lemma_grab_pass_wf(
    ps: Seq<WeaponPickup>,
    hits: Seq<bool>,
    player: Player,
    difficulty: i64,
    score: i64,
    held: Option<HeldItem>,
)
    requires
        forall|i: int| 0 <= i < ps.len() ==> (#[trigger] ps[i]).lifetime.timer.wf(),
    ensures
        ({
            let outcome = spec_grab_pass(ps, hits, player, difficulty, score, held);
            &&& forall|i: int| 0 <= i < outcome.kept.len() ==> (#[trigger] outcome.kept[i]).lifetime.timer.wf()
            &&& forall|i: int| 0 <= i < outcome.spawned.len() ==> (#[trigger] outcome.spawned[i]).wf()
        }),
    decreases ps.len(),
{
    if ps.len() > 0 {
        assert(forall|i: int|
            0 <= i < ps.drop_first().len() ==> (#[trigger] ps.drop_first()[i]).lifetime.timer.wf());
        if hits.len() > 0 && hits[0] {
            let score1 = clip(score + clip(difficulty + difficulty)) as i64;
            lemma_grab_pass_wf(
                ps.drop_first(),
                hits.drop_first(),
                player,
                difficulty,
                score1,
                Some(spec_grabbed_held(ps[0])),
            );
        } else {
            lemma_grab_pass_wf(ps.drop_first(), hits.drop_first(), player, difficulty, score, held);
        }
    }
}

} // verus!
