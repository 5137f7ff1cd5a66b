//! The per-enemy behavior state machine.
//!
//! An enemy rests in the dormant state with only its movement-delay
//! countdown ticking. When the countdown fires and the enemy holds no
//! active behavior, exactly one behavior state is attached, matching the
//! enemy's variant. The active phase runs its own countdown and, on exit,
//! returns the enemy to dormant: at most one active behavior exists at any
//! tick, by construction of the state as a single field.

use vstd::prelude::*;

use crate::arith::{add_clip, clip};
use crate::projectile::{Despawner, Projectile, VelocityIntent};
use crate::projectile::{ENEMY_BULLET_SPEED, TRACER_MS};
use crate::player::Player;
use crate::rng::rand_in_range;
use crate::timer::{Timer, TICK_MAX_MS};
use crate::types::{Behavior, Sounds};

verus! {

/// Duration of a walker's slide phase, ms.
pub const SLIDE_MS: u64 = 500;

/// Duration of a jumper's charge phase, ms.
pub const JUMP_CHARGE_MS: u64 = 2500;

/// Duration of a shooter's aim phase, ms.
pub const SHOOT_MS: u64 = 1000;

/// Duration of a burst shooter's aim phase, ms.
pub const BURST_MS: u64 = 1400;

/// Movement-delay period of a jumper, ms.
pub const DELAY_JUMPER_MS: u64 = 2000;

/// Movement-delay period of every other variant, ms.
pub const DELAY_OTHER_MS: u64 = 1000;

/// Vertical spawn line of enemies, milli-units (the floor).
pub const ENEMY_SPAWN_Y: i64 = -92000;

/// The neutral sprite scale, in millionths.
pub const SCALE_ONE: i64 = 1000000;

/// Slide speed, milli-units per millisecond (20 units/s).
pub const SLIDE_SPEED: i64 = 20;

/// Slide stretch rate, millionths of scale per millisecond (0.5/s).
pub const SLIDE_STRETCH: i64 = 500;

/// Jump-charge squash rate, millionths of scale per millisecond (0.3/s).
pub const JUMP_SQUASH: i64 = 300;

/// A jumper's exit impulse magnitudes are drawn from these half-open
/// ranges, milli-units per second.
pub const JUMP_KICK_X_MIN: i64 = 20000;
pub const JUMP_KICK_X_MAX: i64 = 100000;
pub const JUMP_KICK_Y_MIN: i64 = 200000;
pub const JUMP_KICK_Y_MAX: i64 = 500000;

/// The jump charge phase: its countdown and the sound cue on exit.
#[derive(Clone, Copy, PartialEq, Eq, Structural, Debug)]
pub struct Jump {
    pub timer: Timer,
    pub audio: Sounds,
}

/// The slide phase: its countdown.
#[derive(Clone, Copy, PartialEq, Eq, Structural, Debug)]
pub struct Slide {
    pub timer: Timer,
}

/// The burst-fire aim phase: its countdown and sound cue.
#[derive(Clone, Copy, PartialEq, Eq, Structural, Debug)]
pub struct BurstShot {
    pub timer: Timer,
    pub audio: Sounds,
}

/// The aim phase of a shooter: its countdown and sound cue.
#[derive(Clone, Copy, PartialEq, Eq, Structural, Debug)]
pub struct Shooter {
    pub timer: Timer,
    pub audio: Sounds,
}

/// The behavior state of one enemy: dormant, or exactly one active phase.
/// Holding the state as a single field rules out two active behaviors
/// coexisting, by construction.
#[derive(Clone, Copy, PartialEq, Eq, Structural, Debug)]
pub enum ActiveBehavior {
    Dormant,
    Jumping(Jump),
    Sliding(Slide),
    Shooting(Shooter),
    BurstShooting(BurstShot),
}

/// How many active behavior components the state amounts to.
pub open spec fn spec_active_count(s: ActiveBehavior) -> nat {
    match s {
        ActiveBehavior::Dormant => 0,
        _ => 1,
    }
}

/// An enemy: its variant, health, facing, movement-delay countdown,
/// position and scale, velocity intent, and behavior state.
#[derive(Clone, Copy, PartialEq, Eq, Structural, Debug)]
pub struct Enemy {
    pub asset: Behavior,
    pub health: i8,
    /// Facing, +1 or -1.
    pub direction: i64,
    /// Repeating countdown gating entry into the active behavior.
    pub delay_move: Timer,
    /// Position, milli-units.
    pub x: i64,
    pub y: i64,
    /// Sprite scale, millionths.
    pub scale_x: i64,
    pub scale_y: i64,
    /// Velocity intent, milli-units per second.
    pub vx: i64,
    pub vy: i64,
    pub state: ActiveBehavior,
}

impl Enemy {
    /// Well-formedness: countdowns are well-formed and the facing is a unit.
    pub open spec fn wf(self) -> bool {
        &&& self.delay_move.wf()
        &&& (self.direction == 1 || self.direction == -1)
        &&& match self.state {
            ActiveBehavior::Dormant => true,
            ActiveBehavior::Jumping(j) => j.timer.wf(),
            ActiveBehavior::Sliding(s) => s.timer.wf(),
            ActiveBehavior::Shooting(s) => s.timer.wf(),
            ActiveBehavior::BurstShooting(b) => b.timer.wf(),
        }
    }
}

/// A warning entity telegraphing an enemy spawn: the variant, the recorded
/// location, and the countdown until the enemy materializes.
#[derive(Clone, Copy, PartialEq, Eq, Structural, Debug)]
pub struct SpawnEnemy {
    pub asset: Behavior,
    pub x: i64,
    pub y: i64,
    pub timer: Timer,
}

/// The active phase attached when a dormant enemy's delay fires: exactly
/// one behavior state, matching the variant, with its fresh countdown.
pub open spec fn spec_promoted(asset: Behavior) -> ActiveBehavior {
    match asset {
        Behavior::Walker => ActiveBehavior::Sliding(
            Slide {
                timer: Timer {
                    duration_ms: SLIDE_MS,
                    elapsed_ms: 0,
                    repeating: false,
                    fired: false,
                },
            },
        ),
        Behavior::BurstShooter => ActiveBehavior::BurstShooting(
            BurstShot {
                timer: Timer {
                    duration_ms: BURST_MS,
                    elapsed_ms: 0,
                    repeating: false,
                    fired: false,
                },
                audio: Sounds::EnemyShot,
            },
        ),
        Behavior::Jumper => ActiveBehavior::Jumping(
            Jump {
                timer: Timer {
                    duration_ms: JUMP_CHARGE_MS,
                    elapsed_ms: 0,
                    repeating: false,
                    fired: false,
                },
                audio: Sounds::EnemyJump,
            },
        ),
        Behavior::Shooter => ActiveBehavior::Shooting(
            Shooter {
                timer: Timer {
                    duration_ms: SHOOT_MS,
                    elapsed_ms: 0,
                    repeating: false,
                    fired: false,
                },
                audio: Sounds::EnemyShot,
            },
        ),
    }
}

/// One tick of the dormancy gate: only a dormant enemy ticks its movement
/// delay, and when the delay fires exactly one active behavior is attached.
/// An enemy in an active phase is untouched.
pub open spec fn spec_move_enemy(e: Enemy, dt: u64) -> Enemy {
    if e.state is Dormant {
        let t = e.delay_move.spec_tick(dt);
        Enemy {
            delay_move: t,
            state: if t.fired {
                spec_promoted(e.asset)
            } else {
                ActiveBehavior::Dormant
            },
            ..e
        }
    } else {
        e
    }
}

/// Advance the dormancy gate of every enemy: dormant enemies whose delay
/// fires enter the active behavior of their variant.
#[verifier::loop_isolation(false)]
pub fn move_enemies(enemies: &mut Vec<Enemy>, dt: u64)
    requires
        forall|i: int| 0 <= i < old(enemies)@.len() ==> (#[trigger] old(enemies)@[i]).wf(),
        dt <= TICK_MAX_MS,
    ensures
        final(enemies)@.len() == old(enemies)@.len(),
        forall|i: int| 0 <= i < old(enemies)@.len() ==> final(enemies)@[i] == spec_move_enemy(
            #[trigger] old(enemies)@[i],
            dt,
        ),
        forall|i: int| 0 <= i < final(enemies)@.len() ==> (#[trigger] final(enemies)@[i]).wf(),
{
    let len = enemies.len();
    let mut i: usize = 0;
    while i < len
        invariant
            i <= len,
            enemies@.len() == old(enemies)@.len(),
            forall|j: int| 0 <= j < i ==> enemies@[j] == spec_move_enemy(
                #[trigger] old(enemies)@[j],
                dt,
            ),
            forall|j: int| 0 <= j < i ==> (#[trigger] enemies@[j]).wf(),
            forall|j: int| i <= j < len ==> enemies@[j] == old(enemies)@[j],
        decreases len - i,
    {
        let mut e = enemies[i];
        let dormant = match e.state {
            ActiveBehavior::Dormant => true,
            _ => false,
        };
        if dormant {
            e.delay_move.tick(dt);
            if e.delay_move.finished() {
                e.state = match e.asset {
                    Behavior::Walker => ActiveBehavior::Sliding(
                        Slide { timer: Timer::new(SLIDE_MS, false) },
                    ),
                    Behavior::BurstShooter => ActiveBehavior::BurstShooting(
                        BurstShot { timer: Timer::new(BURST_MS, false), audio: Sounds::EnemyShot },
                    ),
                    Behavior::Jumper => ActiveBehavior::Jumping(
                        Jump { timer: Timer::new(JUMP_CHARGE_MS, false), audio: Sounds::EnemyJump },
                    ),
                    Behavior::Shooter => ActiveBehavior::Shooting(
                        Shooter { timer: Timer::new(SHOOT_MS, false), audio: Sounds::EnemyShot },
                    ),
                };
            }
            enemies.set(i, e);
        }
        i = i + 1;
    }
}

/// One tick of the slide phase: while the countdown runs, the enemy slides
/// horizontally in its facing and stretches; when it fires, the scale
/// resets and the enemy returns to dormant.
pub open spec fn spec_slide_step(e: Enemy, dt: u64) -> Enemy {
    match e.state {
        ActiveBehavior::Sliding(s) => {
            let t = s.timer.spec_tick(dt);
            if t.fired {
                Enemy { scale_x: SCALE_ONE, state: ActiveBehavior::Dormant, ..e }
            } else {
                Enemy {
                    x: clip(e.x + SLIDE_SPEED * dt * e.direction) as i64,
                    scale_x: clip(e.scale_x + SLIDE_STRETCH * dt) as i64,
                    state: ActiveBehavior::Sliding(Slide { timer: t }),
                    ..e
                }
            }
        },
        _ => e,
    }
}

/// Advance every sliding enemy: translate and stretch while the phase
/// runs, reset and return to dormant when it completes.
#[verifier::loop_isolation(false)]
pub fn handle_slides(enemies: &mut Vec<Enemy>, dt: u64)
    requires
        forall|i: int| 0 <= i < old(enemies)@.len() ==> (#[trigger] old(enemies)@[i]).wf(),
        dt <= TICK_MAX_MS,
    ensures
        final(enemies)@.len() == old(enemies)@.len(),
        forall|i: int| 0 <= i < old(enemies)@.len() ==> final(enemies)@[i] == spec_slide_step(
            #[trigger] old(enemies)@[i],
            dt,
        ),
        forall|i: int| 0 <= i < final(enemies)@.len() ==> (#[trigger] final(enemies)@[i]).wf(),
{
    let len = enemies.len();
    let mut i: usize = 0;
    while i < len
        invariant
            i <= len,
            enemies@.len() == old(enemies)@.len(),
            forall|j: int| 0 <= j < i ==> enemies@[j] == spec_slide_step(
                #[trigger] old(enemies)@[j],
                dt,
            ),
            forall|j: int| 0 <= j < i ==> (#[trigger] enemies@[j]).wf(),
            forall|j: int| i <= j < len ==> enemies@[j] == old(enemies)@[j],
        decreases len - i,
    {
        let mut e = enemies[i];
        match e.state {
            ActiveBehavior::Sliding(mut s) => {
                s.timer.tick(dt);
                if s.timer.finished() {
                    e.scale_x = SCALE_ONE;
                    e.state = ActiveBehavior::Dormant;
                } else {
                    e.x = add_clip(e.x, SLIDE_SPEED * (dt as i64) * e.direction);
                    e.scale_x = add_clip(e.scale_x, SLIDE_STRETCH * (dt as i64));
                    e.state = ActiveBehavior::Sliding(s);
                }
                enemies.set(i, e);
            },
            _ => {},
        }
        i = i + 1;
    }
}

/// How one tick relates a jumping enemy to its successor. While the charge
/// runs, the enemy squashes. When it fires, the scale resets, the movement
/// delay re-arms, the enemy returns to dormant, and it receives a random
/// exit impulse: a horizontal speed from the kick range in either
/// direction, and an upward speed from the vertical kick range.
pub open spec fn spec_jump_rel(e: Enemy, r: Enemy, dt: u64) -> bool {
    match e.state {
        ActiveBehavior::Jumping(j) => {
            let t = j.timer.spec_tick(dt);
            if t.fired {
                &&& r == (Enemy {
                    scale_y: SCALE_ONE,
                    delay_move: Timer { elapsed_ms: 0, fired: false, ..e.delay_move },
                    vx: r.vx,
                    vy: r.vy,
                    state: ActiveBehavior::Dormant,
                    ..e
                })
                &&& (JUMP_KICK_X_MIN <= r.vx < JUMP_KICK_X_MAX) || (-JUMP_KICK_X_MAX < r.vx
                    <= -JUMP_KICK_X_MIN)
                &&& JUMP_KICK_Y_MIN <= r.vy < JUMP_KICK_Y_MAX
            } else {
                r == (Enemy {
                    scale_y: clip(e.scale_y - JUMP_SQUASH * dt) as i64,
                    state: ActiveBehavior::Jumping(Jump { timer: t, ..j }),
                    ..e
                })
            }
        },
        _ => r == e,
    }
}

/// Advance every jumping enemy: squash during the charge; on completion,
/// reset the scale, re-arm the movement delay, return to dormant and impart
/// the random exit impulse.
#[verifier::loop_isolation(false)]
pub fn handle_jumpers(enemies: &mut Vec<Enemy>, dt: u64)
    requires
        forall|i: int| 0 <= i < old(enemies)@.len() ==> (#[trigger] old(enemies)@[i]).wf(),
        dt <= TICK_MAX_MS,
    ensures
        final(enemies)@.len() == old(enemies)@.len(),
        forall|i: int| 0 <= i < old(enemies)@.len() ==> spec_jump_rel(
            #[trigger] old(enemies)@[i],
            final(enemies)@[i],
            dt,
        ),
        forall|i: int| 0 <= i < final(enemies)@.len() ==> (#[trigger] final(enemies)@[i]).wf(),
{
    let len = enemies.len();
    let mut i: usize = 0;
    while i < len
        invariant
            i <= len,
            enemies@.len() == old(enemies)@.len(),
            forall|j: int| 0 <= j < i ==> spec_jump_rel(
                #[trigger] old(enemies)@[j],
                enemies@[j],
                dt,
            ),
            forall|j: int| 0 <= j < i ==> (#[trigger] enemies@[j]).wf(),
            forall|j: int| i <= j < len ==> enemies@[j] == old(enemies)@[j],
        decreases len - i,
    {
        let mut e = enemies[i];
        match e.state {
            ActiveBehavior::Jumping(mut j) => {
                j.timer.tick(dt);
                if j.timer.finished() {
                    e.scale_y = SCALE_ONE;
                    e.delay_move.reset();
                    let side = rand_in_range(-1000, 1000);
                    let mag = rand_in_range(JUMP_KICK_X_MIN, JUMP_KICK_X_MAX);
                    e.vx = if side < 0 {
                        -mag
                    } else {
                        mag
                    };
                    e.vy = rand_in_range(JUMP_KICK_Y_MIN, JUMP_KICK_Y_MAX);
                    e.state = ActiveBehavior::Dormant;
                } else {
                    e.scale_y = add_clip(e.scale_y, -(JUMP_SQUASH * (dt as i64)));
                    e.state = ActiveBehavior::Jumping(j);
                }
                enemies.set(i, e);
            },
            _ => {},
        }
        i = i + 1;
    }
}

/// One tick of an aim phase (shooting or burst-shooting): the countdown
/// advances; when it fires the enemy returns to dormant. Other states are
/// untouched.
pub open spec fn spec_shooter_step(e: Enemy, dt: u64) -> Enemy {
    match e.state {
        ActiveBehavior::Shooting(s) => {
            let t = s.timer.spec_tick(dt);
            Enemy {
                state: if t.fired {
                    ActiveBehavior::Dormant
                } else {
                    ActiveBehavior::Shooting(Shooter { timer: t, ..s })
                },
                ..e
            }
        },
        ActiveBehavior::BurstShooting(b) => {
            let t = b.timer.spec_tick(dt);
            Enemy {
                state: if t.fired {
                    ActiveBehavior::Dormant
                } else {
                    ActiveBehavior::BurstShooting(BurstShot { timer: t, ..b })
                },
                ..e
            }
        },
        _ => e,
    }
}

/// The homing-angle bullet an aim phase releases: it leaves the enemy
/// toward the player's current location. It carries no lifetime tag, so
/// only a collision removes it.
pub open spec fn spec_enemy_bullet(e: Enemy, player: Player) -> Projectile {
    Projectile {
        x: e.x,
        y: e.y,
        off_angle_mrad: 0,
        off_dist: 0,
        vel: VelocityIntent::Aimed { to_x: player.x, to_y: player.y, speed: ENEMY_BULLET_SPEED },
        lifetime: None,
        spinning: None,
        collidable: true,
    }
}

/// Whether this tick completes an aim phase of the enemy.
pub open spec fn spec_shot_fires(e: Enemy, dt: u64) -> bool {
    match e.state {
        ActiveBehavior::Shooting(s) => s.timer.spec_tick(dt).fired,
        ActiveBehavior::BurstShooting(b) => b.timer.spec_tick(dt).fired,
        _ => false,
    }
}

/// The bullets released this tick: one per enemy whose aim phase
/// completes, in order, each aimed at the player's current location.
pub open spec fn spec_shots(es: Seq<Enemy>, player: Player, dt: u64) -> Seq<Projectile>
    decreases es.len(),
{
    if es.len() == 0 {
        Seq::empty()
    } else {
        let rest = spec_shots(es.drop_first(), player, dt);
        if spec_shot_fires(es[0], dt) {
            seq![spec_enemy_bullet(es[0], player)] + rest
        } else {
            rest
        }
    }
}

/// The tracer sprites drawn this tick: one short-lived entity per enemy in
/// the shooting phase, whether or not the phase completes this tick.
pub open spec fn spec_tracers(es: Seq<Enemy>, dt: u64) -> Seq<Despawner>
    decreases es.len(),
{
    if es.len() == 0 {
        Seq::empty()
    } else {
        let rest = spec_tracers(es.drop_first(), dt);
        if es[0].state is Shooting {
            seq![
                Despawner(
                    Timer { duration_ms: TRACER_MS, elapsed_ms: 0, repeating: false, fired: false },
                ),
            ] + rest
        } else {
            rest
        }
    }
}

/// Advance every aiming enemy. With no live player nothing happens at all.
/// Otherwise each aim countdown advances; an enemy whose countdown fires
/// releases one bullet aimed at the player's location and returns to
/// dormant, and every enemy in the shooting phase draws one tracer.
#[verifier::loop_isolation(false)]
pub fn handle_shooter(enemies: &mut Vec<Enemy>, player: Option<Player>, dt: u64) -> (out: (
    Vec<Projectile>,
    Vec<Despawner>,
))
    requires
        forall|i: int| 0 <= i < old(enemies)@.len() ==> (#[trigger] old(enemies)@[i]).wf(),
        dt <= TICK_MAX_MS,
    ensures
        match player {
            Some(pl) => {
                &&& final(enemies)@.len() == old(enemies)@.len()
                &&& forall|i: int| 0 <= i < old(enemies)@.len() ==> final(enemies)@[i]
                    == spec_shooter_step(#[trigger] old(enemies)@[i], dt)
                &&& out.0@ == spec_shots(old(enemies)@, pl, dt)
                &&& out.1@ == spec_tracers(old(enemies)@, dt)
            },
            None => {
                &&& final(enemies)@ == old(enemies)@
                &&& out.0@ == Seq::<Projectile>::empty()
                &&& out.1@ == Seq::<Despawner>::empty()
            },
        },
        forall|i: int| 0 <= i < final(enemies)@.len() ==> (#[trigger] final(enemies)@[i]).wf(),
        forall|i: int| 0 <= i < out.0@.len() ==> (#[trigger] out.0@[i]).wf(),
        forall|i: int| 0 <= i < out.1@.len() ==> (#[trigger] out.1@[i]).0.wf(),
{
    let mut shots: Vec<Projectile> = Vec::new();
    let mut tracers: Vec<Despawner> = Vec::new();
    let pl = match player {
        Some(pl) => pl,
        None => {
            return (shots, tracers);
        },
    };
    let len = enemies.len();
    let mut i: usize = 0;
    proof {
        assert(enemies@.skip(0) =~= enemies@);
        assert(shots@ + spec_shots(enemies@, pl, dt) =~= spec_shots(enemies@, pl, dt));
        assert(tracers@ + spec_tracers(enemies@, dt) =~= spec_tracers(enemies@, dt));
    }
    while i < len
        invariant
            i <= len,
            enemies@.len() == old(enemies)@.len(),
            forall|j: int| 0 <= j < i ==> enemies@[j] == spec_shooter_step(
                #[trigger] old(enemies)@[j],
                dt,
            ),
            forall|j: int| 0 <= j < i ==> (#[trigger] enemies@[j]).wf(),
            forall|j: int| i <= j < len ==> enemies@[j] == old(enemies)@[j],
            spec_shots(old(enemies)@, pl, dt) == shots@ + spec_shots(
                old(enemies)@.skip(i as int),
                pl,
                dt,
            ),
            spec_tracers(old(enemies)@, dt) == tracers@ + spec_tracers(
                old(enemies)@.skip(i as int),
                dt,
            ),
            forall|j: int| 0 <= j < shots@.len() ==> (#[trigger] shots@[j]).wf(),
            forall|j: int| 0 <= j < tracers@.len() ==> (#[trigger] tracers@[j]).0.wf(),
        decreases len - i,
    {
        let mut e = enemies[i];
        proof {
            assert(old(enemies)@.skip(i as int)[0] == old(enemies)@[i as int]);
            assert(old(enemies)@.skip(i as int).drop_first() =~= old(enemies)@.skip(i as int + 1));
        }
        let shooting = match e.state {
            ActiveBehavior::Shooting(_) => true,
            _ => false,
        };
        if shooting {
            tracers.push(Despawner(Timer::new(TRACER_MS, false)));
            proof {
                assert(tracers@ + spec_tracers(old(enemies)@.skip(i as int + 1), dt)
                    =~= tracers@.drop_last() + (seq![tracers@.last()] + spec_tracers(
                    old(enemies)@.skip(i as int + 1),
                    dt,
                )));
            }
        }
        match e.state {
            ActiveBehavior::Shooting(mut s) => {
                s.timer.tick(dt);
                if s.timer.finished() {
                    shots.push(
                        Projectile {
                            x: e.x,
                            y: e.y,
                            off_angle_mrad: 0,
                            off_dist: 0,
                            vel: VelocityIntent::Aimed {
                                to_x: pl.x,
                                to_y: pl.y,
                                speed: ENEMY_BULLET_SPEED,
                            },
                            lifetime: None,
                            spinning: None,
                            collidable: true,
                        },
                    );
                    e.state = ActiveBehavior::Dormant;
                    proof {
                        assert(shots@ + spec_shots(old(enemies)@.skip(i as int + 1), pl, dt)
                            =~= shots@.drop_last() + (seq![shots@.last()] + spec_shots(
                            old(enemies)@.skip(i as int + 1),
                            pl,
                            dt,
                        )));
                    }
                } else {
                    e.state = ActiveBehavior::Shooting(s);
                }
                enemies.set(i, e);
            },
            ActiveBehavior::BurstShooting(mut b) => {
                b.timer.tick(dt);
                if b.timer.finished() {
                    shots.push(
                        Projectile {
                            x: e.x,
                            y: e.y,
                            off_angle_mrad: 0,
                            off_dist: 0,
                            vel: VelocityIntent::Aimed {
                                to_x: pl.x,
                                to_y: pl.y,
                                speed: ENEMY_BULLET_SPEED,
                            },
                            lifetime: None,
                            spinning: None,
                            collidable: true,
                        },
                    );
                    e.state = ActiveBehavior::Dormant;
                    proof {
                        assert(shots@ + spec_shots(old(enemies)@.skip(i as int + 1), pl, dt)
                            =~= shots@.drop_last() + (seq![shots@.last()] + spec_shots(
                            old(enemies)@.skip(i as int + 1),
                            pl,
                            dt,
                        )));
                    }
                } else {
                    e.state = ActiveBehavior::BurstShooting(b);
                }
                enemies.set(i, e);
            },
            _ => {},
        }
        i = i + 1;
    }
    proof {
        assert(old(enemies)@.skip(len as int) =~= Seq::<Enemy>::empty());
        assert(shots@ + Seq::<Projectile>::empty() =~= shots@);
        assert(tracers@ + Seq::<Despawner>::empty() =~= tracers@);
    }
    (shots, tracers)
}

/// The enemy a warning materializes into: the recorded variant at the
/// recorded location, full health, facing right, dormant, with the
/// per-variant movement-delay period.
pub open spec fn spec_materialized_enemy(w: SpawnEnemy) -> Enemy {
    Enemy {
        asset: w.asset,
        health: 1,
        direction: 1,
        delay_move: Timer {
            duration_ms: if w.asset is Jumper {
                DELAY_JUMPER_MS
            } else {
                DELAY_OTHER_MS
            },
            elapsed_ms: 0,
            repeating: true,
            fired: false,
        },
        x: w.x,
        y: w.y,
        scale_x: SCALE_ONE,
        scale_y: SCALE_ONE,
        vx: 0,
        vy: 0,
        state: ActiveBehavior::Dormant,
    }
}

/// The enemy warnings that survive the tick, in order.
pub open spec fn spec_enemy_warnings_kept(ws: Seq<SpawnEnemy>, dt: u64) -> Seq<SpawnEnemy>
    decreases ws.len(),
{
    if ws.len() == 0 {
        Seq::empty()
    } else {
        let t = SpawnEnemy { timer: ws[0].timer.spec_tick(dt), ..ws[0] };
        let rest = spec_enemy_warnings_kept(ws.drop_first(), dt);
        if t.timer.fired {
            rest
        } else {
            seq![t] + rest
        }
    }
}

/// The enemies materialized this tick: one per warning whose countdown ran
/// out, in order.
pub open spec fn spec_enemies_spawned(ws: Seq<SpawnEnemy>, dt: u64) -> Seq<Enemy>
    decreases ws.len(),
{
    if ws.len() == 0 {
        Seq::empty()
    } else {
        let t = SpawnEnemy { timer: ws[0].timer.spec_tick(dt), ..ws[0] };
        let rest = spec_enemies_spawned(ws.drop_first(), dt);
        if t.timer.fired {
            seq![spec_materialized_enemy(ws[0])] + rest
        } else {
            rest
        }
    }
}

/// Advance every enemy warning's countdown; each warning that ran out
/// despawns and is replaced by the real enemy at its recorded location.
#[verifier::loop_isolation(false)]
pub fn spawn_warned_enemy(ws: &mut Vec<SpawnEnemy>, dt: u64) -> (spawned: Vec<Enemy>)
    requires
        forall|i: int| 0 <= i < old(ws)@.len() ==> (#[trigger] old(ws)@[i]).timer.wf(),
        dt <= TICK_MAX_MS,
    ensures
        final(ws)@ == spec_enemy_warnings_kept(old(ws)@, dt),
        spawned@ == spec_enemies_spawned(old(ws)@, dt),
        forall|i: int| 0 <= i < final(ws)@.len() ==> (#[trigger] final(ws)@[i]).timer.wf(),
        forall|i: int| 0 <= i < spawned@.len() ==> (#[trigger] spawned@[i]).wf(),
{
    let len = ws.len();
    let mut kept: Vec<SpawnEnemy> = Vec::new();
    let mut spawned: Vec<Enemy> = Vec::new();
    let mut i: usize = 0;
    proof {
        assert(ws@.skip(0) =~= ws@);
        assert(kept@ + spec_enemy_warnings_kept(ws@, dt) =~= spec_enemy_warnings_kept(ws@, dt));
        assert(spawned@ + spec_enemies_spawned(ws@, dt) =~= spec_enemies_spawned(ws@, dt));
    }
    while i < len
        invariant
            i <= len,
            ws@ == old(ws)@,
            spec_enemy_warnings_kept(ws@, dt) == kept@ + spec_enemy_warnings_kept(
                ws@.skip(i as int),
                dt,
            ),
            spec_enemies_spawned(ws@, dt) == spawned@ + spec_enemies_spawned(
                ws@.skip(i as int),
                dt,
            ),
            forall|j: int| 0 <= j < kept@.len() ==> (#[trigger] kept@[j]).timer.wf(),
            forall|j: int| 0 <= j < spawned@.len() ==> (#[trigger] spawned@[j]).wf(),
        decreases len - i,
    {
        let mut w = ws[i];
        proof {
            assert(ws@.skip(i as int)[0] == ws@[i as int]);
            assert(ws@.skip(i as int).drop_first() =~= ws@.skip(i as int + 1));
        }
        w.timer.tick(dt);
        if w.timer.finished() {
            let delay = match w.asset {
                Behavior::Jumper => DELAY_JUMPER_MS,
                _ => DELAY_OTHER_MS,
            };
            spawned.push(
                Enemy {
                    asset: w.asset,
                    health: 1,
                    direction: 1,
                    delay_move: Timer::new(delay, true),
                    x: w.x,
                    y: w.y,
                    scale_x: SCALE_ONE,
                    scale_y: SCALE_ONE,
                    vx: 0,
                    vy: 0,
                    state: ActiveBehavior::Dormant,
                },
            );
            proof {
                assert(spawned@ + spec_enemies_spawned(ws@.skip(i as int + 1), dt)
                    =~= spawned@.drop_last() + (seq![spec_materialized_enemy(ws@[i as int])]
                    + spec_enemies_spawned(ws@.skip(i as int + 1), dt)));
            }
        } else {
            kept.push(w);
            proof {
                assert(kept@ + spec_enemy_warnings_kept(ws@.skip(i as int + 1), dt)
                    =~= kept@.drop_last() + (seq![w] + spec_enemy_warnings_kept(
                    ws@.skip(i as int + 1),
                    dt,
                )));
            }
        }
        i = i + 1;
    }
    proof {
        assert(ws@.skip(len as int) =~= Seq::<SpawnEnemy>::empty());
        assert(kept@ + Seq::<SpawnEnemy>::empty() =~= kept@);
        assert(spawned@ + Seq::<Enemy>::empty() =~= spawned@);
    }
    *ws = kept;
    spawned
}

/// Spawn a warning for an enemy of the given variant, at a uniformly
/// random horizontal offset on the floor spawn line.
pub fn spawn_enemy_warning(behavior: Behavior) -> (w: SpawnEnemy)
    ensures
        w.timer == (Timer {
            duration_ms: crate::weapon::WARNING_MS,
            elapsed_ms: 0,
            repeating: false,
            fired: false,
        }),
        w.asset == behavior,
        w.y == ENEMY_SPAWN_Y,
        crate::weapon::SPAWN_X_MIN <= w.x < crate::weapon::SPAWN_X_MAX,
{
    let x = rand_in_range(crate::weapon::SPAWN_X_MIN, crate::weapon::SPAWN_X_MAX);
    SpawnEnemy {
        asset: behavior,
        x,
        y: ENEMY_SPAWN_Y,
        timer: Timer::new(crate::weapon::WARNING_MS, false),
    }
}

/// State-machine exclusivity: an enemy holds at most one active behavior
/// at any tick, and the dormancy gate attaches exactly one on promotion.
pub proof fn lemma_behavior_exclusive(e: Enemy, dt: u64)
    ensures
        spec_active_count(e.state) <= 1,
        spec_active_count(spec_move_enemy(e, dt).state) <= 1,
        e.state is Dormant && e.delay_move.spec_tick(dt).fired ==> spec_active_count(
            spec_move_enemy(e, dt).state,
        ) == 1,
        !(e.state is Dormant) ==> spec_move_enemy(e, dt) == e,
{
}

} // verus!
