//! The simulation world and the fixed-order tick.
//!
//! All process-wide resources and entity populations live in one context
//! struct, passed by reference into each tick: no ambient global state.
//! One call to `step` runs every system to completion in a fixed order.
//! Collision reactions consume the overlap flags the physics collaborator
//! produced for the tick's starting populations; despawns apply within the
//! consuming pass; entities spawned during a tick are appended at its end,
//! so they become visible to queries only on the next tick.

use vstd::prelude::*;

use crate::arith::{clip, spec_min_i64};
use crate::collision::{handle_bullet_collision, spec_collision_pass};
use crate::enemy::{handle_jumpers, handle_shooter, handle_slides, move_enemies, spawn_warned_enemy};
use crate::enemy::{spec_enemies_spawned, spec_enemy_warnings_kept, spec_jump_rel, spec_move_enemy};
use crate::enemy::{spec_shooter_step, spec_shots, spec_slide_step, spec_tracers};
use crate::enemy::{Enemy, SpawnEnemy};
use crate::player::{move_player, spec_move_player, DashTimer, Dashing, MoveInput, Player};
use crate::projectile::{handle_despawner, spin_spinners, Despawner, Projectile, VelocityIntent};
use crate::projectile::{spec_despawner_pass, spec_expire_pass, spec_spin};
use crate::schedule::{tick_timers, DifficultyTimer, EnemyTimer, WeaponSpawns};
use crate::schedule::{spec_shrink, spec_valid_enemy_warning, spec_valid_weapon_warning};
use crate::schedule::{spec_wave_count, DIFF_ACCEL_THRESHOLD, ENEMY_CAP};
use crate::schedule::{DIFFICULTY_PERIOD_MS, ENEMY_PERIOD_MS, PERIOD_FLOOR_MS, WEAPON_PERIOD_MS};
use crate::timer::{Timer, TICK_MAX_MS};
use crate::types::{Directions, Score};
use crate::weapon::{fire_weapon, grab_weapon, point_held_item, spawn_warned};
use crate::weapon::{spec_fired_bullet, spec_grab_pass, spec_pickup_expire_pass, spec_pickups_spawned};
use crate::weapon::{spec_recoil, spec_spent_shape, spec_warnings_kept, GrabOutcome};
use crate::weapon::{AimInput, HeldItem, SpawnWeapon, WeaponPickup, HELD_RADIUS_MAX};

verus! {

/// Number of border blocks the world is walled with.
pub const BORDER_BLOCK_COUNT: usize = 58;

/// Edge length of one border block, milli-units.
pub const BORDER_BLOCK_MILLI: i64 = 28000;

/// The whole simulation state: process-wide resources and the entity
/// populations.
pub struct World {
    pub score: Score,
    pub difficulty: DifficultyTimer,
    pub enemy_timer: EnemyTimer,
    pub weapon_spawns: WeaponSpawns,
    pub dash_timer: DashTimer,
    pub player: Option<Player>,
    pub enemies: Vec<Enemy>,
    pub enemy_warnings: Vec<SpawnEnemy>,
    pub weapon_warnings: Vec<SpawnWeapon>,
    pub pickups: Vec<WeaponPickup>,
    pub held: Option<HeldItem>,
    pub projectiles: Vec<Projectile>,
    pub tracers: Vec<Despawner>,
}

impl World {
    /// Well-formedness: every resource and every entity is well-formed.
    pub open spec fn wf(self) -> bool {
        &&& self.difficulty.wf()
        &&& self.enemy_timer.wf()
        &&& self.weapon_spawns.timer.wf()
        &&& self.dash_timer.timer.wf()
        &&& (self.player matches Some(p) ==> p.wf())
        &&& (forall|i: int| 0 <= i < self.enemies@.len() ==> (#[trigger] self.enemies@[i]).wf())
        &&& (forall|i: int| 0 <= i < self.enemy_warnings@.len()
            ==> (#[trigger] self.enemy_warnings@[i]).timer.wf())
        &&& (forall|i: int| 0 <= i < self.weapon_warnings@.len()
            ==> (#[trigger] self.weapon_warnings@[i]).timer.wf())
        &&& (forall|i: int| 0 <= i < self.pickups@.len()
            ==> (#[trigger] self.pickups@[i]).lifetime.timer.wf())
        &&& (forall|i: int| 0 <= i < self.projectiles@.len()
            ==> (#[trigger] self.projectiles@[i]).wf())
        &&& (forall|i: int| 0 <= i < self.tracers@.len() ==> (#[trigger] self.tracers@[i]).0.wf())
    }

    /// The world as the game starts: difficulty one on a five-second
    /// cadence, a two-second wave interval, a one-second weapon interval,
    /// an immediately rearmed dash memory, one live player, and no other
    /// entities.
    pub fn new() -> (w: World)
        ensures
            w.score.score == 0,
            w.difficulty.difficulty == 1,
            w.difficulty.timer == (Timer {
                duration_ms: DIFFICULTY_PERIOD_MS,
                elapsed_ms: 0,
                repeating: true,
                fired: false,
            }),
            w.enemy_timer.timer == (Timer {
                duration_ms: ENEMY_PERIOD_MS,
                elapsed_ms: 0,
                repeating: true,
                fired: false,
            }),
            w.weapon_spawns.timer == (Timer {
                duration_ms: WEAPON_PERIOD_MS,
                elapsed_ms: 0,
                repeating: true,
                fired: false,
            }),
            w.dash_timer == (DashTimer {
                timer: Timer { duration_ms: 0, elapsed_ms: 0, repeating: false, fired: false },
                direction: Directions::Left,
            }),
            w.player == Some(
                Player {
                    x: 0,
                    y: crate::player::PLAYER_START_Y,
                    vx: 0,
                    vy: 0,
                    jump_height: crate::player::JUMP_HEIGHT,
                    looking_at: 0,
                    dashing: None::<Dashing>,
                },
            ),
            w.enemies@.len() == 0,
            w.enemy_warnings@.len() == 0,
            w.weapon_warnings@.len() == 0,
            w.pickups@.len() == 0,
            w.held is None,
            w.projectiles@.len() == 0,
            w.tracers@.len() == 0,
            w.wf(),
    {
        World {
            score: Score { score: 0 },
            difficulty: DifficultyTimer {
                difficulty: 1,
                timer: Timer::new(DIFFICULTY_PERIOD_MS, true),
            },
            enemy_timer: EnemyTimer { timer: Timer::new(ENEMY_PERIOD_MS, true) },
            weapon_spawns: WeaponSpawns { timer: Timer::new(WEAPON_PERIOD_MS, true) },
            dash_timer: DashTimer { timer: Timer::new(0, false), direction: Directions::Left },
            player: Some(Player::new()),
            enemies: Vec::new(),
            enemy_warnings: Vec::new(),
            weapon_warnings: Vec::new(),
            pickups: Vec::new(),
            held: None,
            projectiles: Vec::new(),
            tracers: Vec::new(),
        }
    }
}

/// Everything the outside collaborators hand the simulation for one tick:
/// the timestep, the key and fire edges, the aim reading when a cursor is
/// present, and the per-entity overlap flags for the tick's starting
/// projectile and pickup populations.
pub struct TickInput {
    pub dt_ms: u64,
    pub keys: MoveInput,
    pub fire_just: bool,
    pub aim: Option<AimInput>,
    pub projectile_hits: Vec<bool>,
    pub pickup_hits: Vec<bool>,
}

/// The outcome of the pickup pass for this tick: the real pass when a
/// player is live, and a no-op (an absence of precondition, not an error)
/// when none is.
pub open spec fn spec_grab_outcome(pre: World, input: TickInput) -> GrabOutcome {
    match pre.player {
        Some(pl) => spec_grab_pass(
            pre.pickups@,
            input.pickup_hits@,
            pl,
            pre.difficulty.difficulty,
            pre.score.score,
            pre.held,
        ),
        None => GrabOutcome {
            score: pre.score.score,
            held: pre.held,
            kept: pre.pickups@,
            spawned: Seq::empty(),
        },
    }
}

/// Whether this tick fires the held weapon: a live player, a fire press
/// edge, and an item still held after the pickup pass.
pub open spec fn spec_fires(pre: World, input: TickInput) -> bool {
    pre.player is Some && input.fire_just && spec_grab_outcome(pre, input).held is Some
}

/// The aim angle the player fires along this tick: the cursor angle when an
/// aim reading arrived while an item was held, else the angle recorded
/// before the tick.
pub open spec fn spec_fire_angle(pre: World, input: TickInput) -> i64 {
    match (pre.player, input.aim) {
        (Some(pl), Some(aim)) => {
            if spec_grab_outcome(pre, input).held is Some {
                aim.angle_mrad
            } else {
                pl.looking_at
            }
        },
        (Some(pl), None) => pl.looking_at,
        (None, _) => 0,
    }
}

/// The projectile population after the collision pass on the starting
/// populations.
pub open spec fn spec_stage_collided(pre: World, input: TickInput) -> Seq<Projectile> {
    spec_collision_pass(pre.projectiles@, input.projectile_hits@)
}

/// The projectile population after the lifetime pass: the collision
/// survivors plus whatever the pickup pass threw, every countdown advanced
/// and the expired despawned.
pub open spec fn spec_stage_expired(pre: World, input: TickInput) -> Seq<Projectile> {
    spec_expire_pass(
        spec_stage_collided(pre, input) + spec_grab_outcome(pre, input).spawned,
        input.dt_ms,
    )
}

/// The projectile population after the spin pass.
pub open spec fn spec_stage_spun(pre: World, input: TickInput) -> Seq<Projectile> {
    spec_stage_expired(pre, input).map_values(|pr: Projectile| spec_spin(pr))
}

/// The pickup population after the pickup pass and its lifetime pass.
pub open spec fn spec_stage_pickups(pre: World, input: TickInput) -> Seq<WeaponPickup> {
    spec_pickup_expire_pass(spec_grab_outcome(pre, input).kept, input.dt_ms)
}

/// The dash rearm memory after the scheduler ticked it.
pub open spec fn spec_stage_dash(pre: World, input: TickInput) -> DashTimer {
    DashTimer { timer: pre.dash_timer.timer.spec_tick(input.dt_ms), ..pre.dash_timer }
}

/// The player and the dash memory after the movement controller (with no
/// live player, only the ticked dash memory).
pub open spec fn spec_stage_moved(pre: World, input: TickInput) -> (Option<Player>, DashTimer) {
    match pre.player {
        Some(pl) => {
            let m = spec_move_player(pl, spec_stage_dash(pre, input), input.keys, input.dt_ms);
            (Some(m.0), m.1)
        },
        None => (None, spec_stage_dash(pre, input)),
    }
}

/// The enemy population after the dormancy gate and the slide pass: what
/// the random jump pass then acts on.
pub open spec fn spec_stage_slid(pre: World, input: TickInput) -> Seq<Enemy> {
    pre.enemies@.map_values(|e: Enemy| spec_move_enemy(e, input.dt_ms)).map_values(
        |e: Enemy| spec_slide_step(e, input.dt_ms),
    )
}

/// The player and the held item after aim tracking: with a live player, a
/// cursor reading and a held item, both record the aim; otherwise nothing
/// changes.
pub open spec fn spec_stage_aimed(pre: World, input: TickInput) -> (
    Option<Player>,
    Option<HeldItem>,
) {
    let held1 = spec_grab_outcome(pre, input).held;
    match (spec_stage_moved(pre, input).0, input.aim) {
        (Some(pl), Some(aim)) => {
            match held1 {
                Some(h) => (
                    Some(Player { looking_at: aim.angle_mrad, ..pl }),
                    Some(
                        HeldItem {
                            asset: h.asset,
                            angle_mrad: aim.angle_mrad,
                            dist: spec_min_i64(aim.dist, HELD_RADIUS_MAX),
                        },
                    ),
                ),
                None => (Some(pl), held1),
            }
        },
        (p1, _) => (p1, held1),
    }
}

/// One whole tick, stage by stage in the fixed order, with the random
/// outcomes as parameters: `jumped` is the enemy population after the jump
/// pass (related to its input element-wise through the random exit
/// impulse), `wave` and `wwarn` are the warnings the scheduler spawned, and
/// `fired` is what the fire pass appended (empty, or the spent weapon and
/// the bullet). Everything else is fixed by the stage functions above.
pub open spec fn spec_step_stages(
    pre: World,
    input: TickInput,
    post: World,
    recoil: Option<VelocityIntent>,
    jumped: Seq<Enemy>,
    wave: Seq<SpawnEnemy>,
    wwarn: Seq<SpawnWeapon>,
    fired: Seq<Projectile>,
) -> bool {
    let dt = input.dt_ms;
    let dticked = pre.difficulty.timer.spec_tick(dt);
    let eticked = pre.enemy_timer.timer.spec_tick(dt);
    let wticked = pre.weapon_spawns.timer.spec_tick(dt);
    let e2 = spec_stage_slid(pre, input);
    let player1 = spec_stage_moved(pre, input).0;
    let aimed = spec_stage_aimed(pre, input);
    let fires = spec_fires(pre, input);
    // The random outcomes are constrained, not fixed.
    &&& jumped.len() == e2.len()
    &&& (forall|i: int| 0 <= i < e2.len() ==> spec_jump_rel(#[trigger] e2[i], jumped[i], dt))
    &&& wave.len() == (if eticked.fired && pre.enemies@.len() <= ENEMY_CAP {
        spec_wave_count(pre.difficulty.difficulty)
    } else {
        0
    })
    &&& (forall|i: int| 0 <= i < wave.len() ==> spec_valid_enemy_warning(
        #[trigger] wave[i],
        pre.difficulty.difficulty,
    ))
    &&& wwarn.len() == (if wticked.fired {
        1int
    } else {
        0int
    })
    &&& (forall|i: int| 0 <= i < wwarn.len() ==> spec_valid_weapon_warning(#[trigger] wwarn[i]))
    &&& (match (aimed.0, aimed.1) {
        (Some(pl2), Some(h2)) => {
            if input.fire_just {
                &&& fired.len() == 2
                &&& spec_spent_shape(fired[0], h2, pl2)
                &&& fired[1] == spec_fired_bullet(h2, pl2)
            } else {
                fired == Seq::<Projectile>::empty()
            }
        },
        _ => fired == Seq::<Projectile>::empty(),
    })
    // The tick's effects, composed in order.
    &&& post.projectiles@ == (spec_stage_spun(pre, input) + fired) + (match player1 {
        Some(pl) => spec_shots(jumped, pl, dt),
        None => Seq::<Projectile>::empty(),
    })
    &&& post.tracers@ == spec_despawner_pass(pre.tracers@, dt) + (match player1 {
        Some(_) => spec_tracers(jumped, dt),
        None => Seq::<Despawner>::empty(),
    })
    &&& post.pickups@ == spec_stage_pickups(pre, input) + spec_pickups_spawned(
        pre.weapon_warnings@,
        dt,
    )
    &&& post.enemies@ == (match player1 {
        Some(_) => jumped.map_values(|e: Enemy| spec_shooter_step(e, dt)),
        None => jumped,
    }) + spec_enemies_spawned(pre.enemy_warnings@, dt)
    &&& post.enemy_warnings@ == spec_enemy_warnings_kept(pre.enemy_warnings@, dt) + wave
    &&& post.weapon_warnings@ == spec_warnings_kept(pre.weapon_warnings@, dt) + wwarn
    &&& post.player == aimed.0
    &&& post.held == (if fires {
        None
    } else {
        aimed.1
    })
    &&& post.score.score == spec_grab_outcome(pre, input).score
    &&& post.dash_timer == spec_stage_moved(pre, input).1
    &&& post.enemy_timer.timer == (if dticked.fired {
        Timer { duration_ms: spec_shrink(pre.enemy_timer.timer.duration_ms), ..eticked }
    } else {
        eticked
    })
    &&& post.difficulty.difficulty == (if dticked.fired {
        clip(pre.difficulty.difficulty + 1)
    } else {
        pre.difficulty.difficulty as int
    })
    &&& post.difficulty.timer == (if dticked.fired && clip(pre.difficulty.difficulty + 1)
        >= DIFF_ACCEL_THRESHOLD {
        Timer { duration_ms: spec_shrink(pre.difficulty.timer.duration_ms), ..dticked }
    } else {
        dticked
    })
    &&& post.weapon_spawns.timer == wticked
    &&& recoil == (if fires {
        Some(spec_recoil(spec_fire_angle(pre, input)))
    } else {
        None::<VelocityIntent>
    })
}

/// One whole tick: the final state is the fixed-order composition of the
/// subsystem specifications, for some values of the tick's random draws.
pub open spec fn spec_step(
    pre: World,
    input: TickInput,
    post: World,
    recoil: Option<VelocityIntent>,
) -> bool {
    exists|jumped: Seq<Enemy>, wave: Seq<SpawnEnemy>, wwarn: Seq<SpawnWeapon>, fired: Seq<
        Projectile,
    >| #[trigger] spec_step_stages(pre, input, post, recoil, jumped, wave, wwarn, fired)
}

impl World {
    /// Run one simulation tick in the fixed order. Returns the recoil the
    /// physics collaborator must give the player's velocity when the player
    /// fired this tick: the fixed recoil speed opposite the aim.
    #[verifier::rlimit(100)]
    pub fn step(&mut self, input: &TickInput) -> (recoil: Option<VelocityIntent>)
        requires
            old(self).wf(),
            input.dt_ms <= TICK_MAX_MS,
            input.projectile_hits@.len() == old(self).projectiles@.len(),
            input.pickup_hits@.len() == old(self).pickups@.len(),
            input.aim matches Some(a) ==> a.dist >= 0,
        ensures
            spec_step(*old(self), *input, *final(self), recoil),
            final(self).wf(),
            recoil is Some <==> spec_fires(*old(self), *input),
            recoil is Some ==> recoil == Some(spec_recoil(spec_fire_angle(*old(self), *input))),
            final(self).difficulty.difficulty >= old(self).difficulty.difficulty,
            final(self).difficulty.difficulty <= clip(old(self).difficulty.difficulty + 1),
            final(self).enemy_timer.timer.duration_ms
                <= old(self).enemy_timer.timer.duration_ms,
            final(self).enemy_timer.timer.duration_ms >= PERIOD_FLOOR_MS,
            final(self).score.score >= old(self).score.score,
            (forall|i: int| 0 <= i < input.pickup_hits@.len() ==> !input.pickup_hits@[i])
                ==> final(self).score.score == old(self).score.score,
            old(self).player is None ==> {
                &&& final(self).player is None
                &&& final(self).score == old(self).score
                &&& final(self).held == old(self).held
                &&& recoil is None
            },
    {
        let dt = input.dt_ms;
        let ghost grab = spec_grab_outcome(*old(self), *input);

        // Collision reactions, on the populations physics saw.
        handle_bullet_collision(&mut self.projectiles, &input.projectile_hits);
        proof {
            crate::collision::lemma_collision_pass_wf(
                old(self).projectiles@,
                input.projectile_hits@,
            );
        }
        let ghost p1 = self.projectiles@;
        let mut held = self.held;
        match self.player {
            Some(pl) => {
                grab_weapon(
                    &mut self.pickups,
                    &input.pickup_hits,
                    pl,
                    &mut held,
                    &mut self.score,
                    self.difficulty.difficulty,
                    &mut self.projectiles,
                );
                proof {
                    crate::weapon::lemma_grab_score_monotone(
                        old(self).pickups@,
                        input.pickup_hits@,
                        pl,
                        old(self).difficulty.difficulty,
                        old(self).score.score,
                        old(self).held,
                    );
                    crate::weapon::lemma_held_needs_pickup(
                        old(self).pickups@,
                        input.pickup_hits@,
                        pl,
                        old(self).difficulty.difficulty,
                        old(self).score.score,
                        old(self).held,
                    );
                    crate::weapon::lemma_grab_pass_wf(
                        old(self).pickups@,
                        input.pickup_hits@,
                        pl,
                        old(self).difficulty.difficulty,
                        old(self).score.score,
                        old(self).held,
                    );
                    assert forall|i: int|
                        0 <= i < self.projectiles@.len() implies (
                    #[trigger] self.projectiles@[i]).wf() by {
                        if i < p1.len() {
                            assert(self.projectiles@[i] == p1[i]);
                        } else {
                            assert(self.projectiles@[i] == grab.spawned[i - p1.len()]);
                        }
                    }
                }
            },
            None => {
                proof {
                    assert(self.projectiles@ =~= p1 + grab.spawned);
                }
            },
        }
        let ghost p2 = self.projectiles@;
        proof {
            assert(p1 == spec_stage_collided(*old(self), *input));
            assert(p2 == p1 + grab.spawned);
            assert(self.pickups@ == grab.kept);
            assert(self.score.score == grab.score);
            assert(held == grab.held);
        }

        // Timekeeping: the scheduler, the lifetime passes, the rearm window.
        let enemy_count = self.enemies.len();
        let (wave, weapon_warnings) = tick_timers(
            &mut self.difficulty,
            &mut self.enemy_timer,
            &mut self.weapon_spawns,
            &mut self.dash_timer,
            &mut self.projectiles,
            &mut self.pickups,
            enemy_count,
            dt,
        );
        proof {
            assert(self.projectiles@ == spec_stage_expired(*old(self), *input));
            assert(self.pickups@ == spec_stage_pickups(*old(self), *input));
            assert(self.dash_timer == spec_stage_dash(*old(self), *input));
        }
        let ghost p3 = self.projectiles@;

        // The player controller, then the enemy state machine.
        let mut player = self.player;
        match &mut player {
            Some(p) => {
                move_player(p, &mut self.dash_timer, input.keys, dt);
            },
            None => {},
        }
        self.player = player;
        proof {
            assert(self.player == spec_stage_moved(*old(self), *input).0);
            assert(self.dash_timer == spec_stage_moved(*old(self), *input).1);
        }
        move_enemies(&mut self.enemies, dt);
        proof {
            assert(self.enemies@ =~= old(self).enemies@.map_values(
                |e: Enemy| spec_move_enemy(e, dt),
            ));
        }
        let ghost e1 = self.enemies@;
        handle_slides(&mut self.enemies, dt);
        proof {
            assert(self.enemies@ =~= e1.map_values(|e: Enemy| spec_slide_step(e, dt)));
            assert(self.enemies@ == spec_stage_slid(*old(self), *input));
        }
        let ghost e2 = self.enemies@;
        handle_jumpers(&mut self.enemies, dt);
        let ghost jumped = self.enemies@;
        let (shots, new_tracers) = handle_shooter(&mut self.enemies, self.player, dt);
        proof {
            if self.player is Some {
                assert(self.enemies@ =~= jumped.map_values(|e: Enemy| spec_shooter_step(e, dt)));
            }
        }

        // Warnings that ran out materialize their real entities.
        let new_pickups = spawn_warned(&mut self.weapon_warnings, dt);
        let new_enemies = spawn_warned_enemy(&mut self.enemy_warnings, dt);

        // Aim, spin, fire.
        match (self.player, input.aim) {
            (Some(_), Some(aim)) => {
                let mut pl2 = self.player;
                match &mut pl2 {
                    Some(p) => {
                        point_held_item(p, &mut held, aim);
                    },
                    None => {},
                }
                self.player = pl2;
            },
            _ => {},
        }
        proof {
            assert(self.player == spec_stage_aimed(*old(self), *input).0);
            assert(held == spec_stage_aimed(*old(self), *input).1);
        }
        spin_spinners(&mut self.projectiles);
        proof {
            assert(self.projectiles@ =~= p3.map_values(|pr: Projectile| spec_spin(pr)));
            assert(self.projectiles@ == spec_stage_spun(*old(self), *input));
            assert forall|i: int|
                0 <= i < self.projectiles@.len() implies (#[trigger] self.projectiles@[i]).wf() by {
                assert(self.projectiles@[i] == spec_spin(p3[i]));
                assert(p3[i].wf());
            }
        }
        let ghost p4 = self.projectiles@;
        let recoil = match self.player {
            Some(pl) => fire_weapon(pl, &mut held, &mut self.projectiles, input.fire_just),
            None => None,
        };
        let ghost fired = self.projectiles@.skip(p4.len() as int);
        proof {
            assert(self.projectiles@ =~= p4 + fired);
            if self.projectiles@.len() == p4.len() {
                assert(fired =~= Seq::<Projectile>::empty());
            }
            assert(recoil == (if spec_fires(*old(self), *input) {
                Some(spec_recoil(spec_fire_angle(*old(self), *input)))
            } else {
                None::<VelocityIntent>
            }));
            assert forall|i: int|
                0 <= i < self.projectiles@.len() implies (#[trigger] self.projectiles@[i]).wf() by {
                if i < p4.len() {
                    assert(self.projectiles@.take(p4.len() as int)[i] == self.projectiles@[i]);
                } else {
                    assert(self.projectiles@.len() == p4.len() + 2);
                }
            }
        }
        self.held = held;
        handle_despawner(&mut self.tracers, dt);

        // Deferred spawns become visible next tick.
        let ghost before_shots = self.projectiles@;
        append_all(&mut self.projectiles, &shots);
        proof {
            assert forall|i: int|
                0 <= i < self.projectiles@.len() implies (#[trigger] self.projectiles@[i]).wf() by {
                if i < before_shots.len() {
                    assert(self.projectiles@[i] == before_shots[i]);
                } else {
                    assert(self.projectiles@[i] == shots@[i - before_shots.len()]);
                }
            }
        }
        append_all(&mut self.tracers, &new_tracers);
        append_all(&mut self.pickups, &new_pickups);
        append_all(&mut self.enemies, &new_enemies);
        append_all(&mut self.enemy_warnings, &wave);
        append_all(&mut self.weapon_warnings, &weapon_warnings);

        proof {
            assert(spec_step_stages(
                *old(self),
                *input,
                *self,
                recoil,
                jumped,
                wave@,
                weapon_warnings@,
                fired,
            ));
        }
        recoil
    }
}

/// Append newly spawned entities to a population.
#[verifier::loop_isolation(false)]
fn append_all<T: Copy>(v: &mut Vec<T>, add: &Vec<T>)
    ensures
        final(v)@ == old(v)@ + add@,
{
    let len = add.len();
    let mut i: usize = 0;
    proof {
        assert(old(v)@ + add@.take(0) =~= old(v)@);
    }
    while i < len
        invariant
            i <= len,
            v@ == old(v)@ + add@.take(i as int),
        decreases len - i,
    {
        let e = add[i];
        v.push(e);
        proof {
            assert(old(v)@ + add@.take(i as int + 1) =~= (old(v)@ + add@.take(i as int)).push(e));
        }
        i = i + 1;
    }
    proof {
        assert(add@.take(len as int) =~= add@);
    }
}

/// The positions of the border blocks walling the playfield, milli-units:
/// a floor row, a left and a right column, and a ceiling row of blocks.
pub fn border_block_positions() -> (blocks: Vec<(i64, i64)>)
    ensures
        blocks@.len() == BORDER_BLOCK_COUNT,
        forall|i: int| 0 <= i < 20 ==> (#[trigger] blocks@[i]).0 == BORDER_BLOCK_MILLI * i - 240000int && blocks@[i].1 == -120000int,
        forall|i: int| 0 <= i < 9 ==> (#[trigger] blocks@[20 + i]).0 == -235000int && blocks@[20 + i].1 == BORDER_BLOCK_MILLI * i - 92000int,
        forall|i: int| 0 <= i < 9 ==> (#[trigger] blocks@[29 + i]).0 == 235000int && blocks@[29 + i].1 == BORDER_BLOCK_MILLI * i - 92000int,
        forall|i: int| 0 <= i < 20 ==> (#[trigger] blocks@[38 + i]).0 == BORDER_BLOCK_MILLI * i - 240000int && blocks@[38 + i].1 == 138000int,
{
    let mut blocks: Vec<(i64, i64)> = Vec::new();
    let mut i: usize = 0;
    while i < 20
        invariant
            i <= 20,
            blocks@.len() == i,
            forall|j: int| 0 <= j < i ==> (#[trigger] blocks@[j]).0 == BORDER_BLOCK_MILLI * j - 240000int && blocks@[j].1 == -120000int,
        decreases 20 - i,
    {
        blocks.push((i as i64 * BORDER_BLOCK_MILLI - 240000, -120000));
        i = i + 1;
    }
    let mut i: usize = 0;
    while i < 9
        invariant
            i <= 9,
            blocks@.len() == 20 + i,
            forall|j: int| 0 <= j < 20 ==> (#[trigger] blocks@[j]).0 == BORDER_BLOCK_MILLI * j - 240000int && blocks@[j].1 == -120000int,
            forall|j: int| 0 <= j < i ==> (#[trigger] blocks@[20 + j]).0 == -235000int && blocks@[20 + j].1 == BORDER_BLOCK_MILLI * j - 92000int,
        decreases 9 - i,
    {
        blocks.push((-235000, i as i64 * BORDER_BLOCK_MILLI - 92000));
        i = i + 1;
    }
    let mut i: usize = 0;
    while i < 9
        invariant
            i <= 9,
            blocks@.len() == 29 + i,
            forall|j: int| 0 <= j < 20 ==> (#[trigger] blocks@[j]).0 == BORDER_BLOCK_MILLI * j - 240000int && blocks@[j].1 == -120000int,
            forall|j: int| 0 <= j < 9 ==> (#[trigger] blocks@[20 + j]).0 == -235000int && blocks@[20 + j].1 == BORDER_BLOCK_MILLI * j - 92000int,
            forall|j: int| 0 <= j < i ==> (#[trigger] blocks@[29 + j]).0 == 235000int && blocks@[29 + j].1 == BORDER_BLOCK_MILLI * j - 92000int,
        decreases 9 - i,
    {
        blocks.push((235000, i as i64 * BORDER_BLOCK_MILLI - 92000));
        i = i + 1;
    }
    let mut i: usize = 0;
    while i < 20
        invariant
            i <= 20,
            blocks@.len() == 38 + i,
            forall|j: int| 0 <= j < 20 ==> (#[trigger] blocks@[j]).0 == BORDER_BLOCK_MILLI * j - 240000int && blocks@[j].1 == -120000int,
            forall|j: int| 0 <= j < 9 ==> (#[trigger] blocks@[20 + j]).0 == -235000int && blocks@[20 + j].1 == BORDER_BLOCK_MILLI * j - 92000int,
            forall|j: int| 0 <= j < 9 ==> (#[trigger] blocks@[29 + j]).0 == 235000int && blocks@[29 + j].1 == BORDER_BLOCK_MILLI * j - 92000int,
            forall|j: int| 0 <= j < i ==> (#[trigger] blocks@[38 + j]).0 == BORDER_BLOCK_MILLI * j - 240000int && blocks@[38 + j].1 == 138000int,
        decreases 20 - i,
    {
        blocks.push((i as i64 * BORDER_BLOCK_MILLI - 240000, 138000));
        i = i + 1;
    }
    blocks
}

} // verus!
