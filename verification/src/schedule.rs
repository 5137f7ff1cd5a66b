//! The spawn and difficulty scheduler.
//!
//! A repeating enemy timer paces waves of enemy warnings; a repeating
//! difficulty timer raises the difficulty level and tightens the wave
//! interval, clamped at a floor; past a threshold difficulty the
//! difficulty cadence itself accelerates. Weapon warnings appear on their
//! own fixed-interval timer. Wave size and variant weighting scale with
//! the difficulty level.

use vstd::prelude::*;

use crate::arith::{add_clip, clip};
use crate::enemy::{spawn_enemy_warning, SpawnEnemy, ENEMY_SPAWN_Y};
use crate::player::DashTimer;
use crate::projectile::Projectile;
use crate::projectile::{spec_expire_pass, expire_projectiles};
use crate::rng::rand_in_range;
use crate::timer::{Timer, TICK_MAX_MS};
use crate::types::{Behavior, Weapons};
use crate::weapon::{expire_pickups, spec_pickup_expire_pass, warn_weapon_spawn};
use crate::weapon::{SpawnWeapon, WeaponPickup, SPAWN_X_MAX, SPAWN_X_MIN, WARNING_MS, WEAPON_SPAWN_Y};

verus! {

/// Initial period between difficulty ticks, ms.
pub const DIFFICULTY_PERIOD_MS: u64 = 5000;

/// Initial period between enemy waves, ms.
pub const ENEMY_PERIOD_MS: u64 = 2000;

/// Period between weapon warnings, ms.
pub const WEAPON_PERIOD_MS: u64 = 1000;

/// Floor under every shrinking period, ms (0.1 s).
pub const PERIOD_FLOOR_MS: u64 = 100;

/// How much a period shrinks per difficulty tick, ms (0.1 s).
pub const PERIOD_STEP_MS: u64 = 100;

/// From this difficulty on, the difficulty cadence itself accelerates.
pub const DIFF_ACCEL_THRESHOLD: i64 = 25;

/// No wave spawns while more enemies than this are alive.
pub const ENEMY_CAP: usize = 100;

/// Wave sizes are capped at this many warnings.
pub const WAVE_CAP: i64 = 6;

/// The difficulty level and the countdown pacing its increments.
#[derive(Clone, Copy, PartialEq, Eq, Structural, Debug)]
pub struct DifficultyTimer {
    pub difficulty: i64,
    pub timer: Timer,
}

impl DifficultyTimer {
    /// Well-formedness: the level is positive and the period is a
    /// well-formed repeating countdown above the floor.
    pub open spec fn wf(self) -> bool {
        &&& self.difficulty >= 1
        &&& self.timer.wf()
        &&& self.timer.duration_ms >= PERIOD_FLOOR_MS
    }
}

/// The countdown pacing enemy waves.
#[derive(Clone, Copy, PartialEq, Eq, Structural, Debug)]
pub struct EnemyTimer {
    pub timer: Timer,
}

impl EnemyTimer {
    /// Well-formedness: the period is well-formed and above the floor.
    pub open spec fn wf(self) -> bool {
        &&& self.timer.wf()
        &&& self.timer.duration_ms >= PERIOD_FLOOR_MS
    }
}

/// The countdown pacing weapon warnings.
#[derive(Clone, Copy, PartialEq, Eq, Structural, Debug)]
pub struct WeaponSpawns {
    pub timer: Timer,
}

/// The shrinking rule for a wave or difficulty period: one step shorter,
/// clamped at the floor.
pub open spec fn spec_shrink(d: u64) -> u64 {
    if d > PERIOD_FLOOR_MS + PERIOD_STEP_MS {
        (d - PERIOD_STEP_MS) as u64
    } else {
        PERIOD_FLOOR_MS
    }
}

/// One difficulty tick: the wave interval shrinks by one step (clamped at
/// the floor), the difficulty level rises by one, and at or above the
/// acceleration threshold the difficulty period itself shrinks by the same
/// rule.
pub fn handle_difficulty(enemy_timer: &mut EnemyTimer, difficulty: &mut DifficultyTimer)
    requires
        old(enemy_timer).wf(),
        old(difficulty).wf(),
    ensures
        final(enemy_timer).timer == (Timer {
            duration_ms: spec_shrink(old(enemy_timer).timer.duration_ms),
            ..old(enemy_timer).timer
        }),
        final(difficulty).difficulty == clip(old(difficulty).difficulty + 1),
        final(difficulty).timer == (if clip(old(difficulty).difficulty + 1)
            >= DIFF_ACCEL_THRESHOLD {
            Timer { duration_ms: spec_shrink(old(difficulty).timer.duration_ms), ..old(
                difficulty,
            ).timer }
        } else {
            old(difficulty).timer
        }),
        final(enemy_timer).wf(),
        final(difficulty).wf(),
{
    let old_dur = enemy_timer.timer.duration_ms;
    enemy_timer.timer.duration_ms = if old_dur - PERIOD_STEP_MS > PERIOD_FLOOR_MS {
        old_dur - PERIOD_STEP_MS
    } else {
        PERIOD_FLOOR_MS
    };
    difficulty.difficulty = add_clip(difficulty.difficulty, 1);
    if difficulty.difficulty >= DIFF_ACCEL_THRESHOLD {
        let old_diff = difficulty.timer.duration_ms;
        difficulty.timer.duration_ms = if old_diff - PERIOD_STEP_MS > PERIOD_FLOOR_MS {
            old_diff - PERIOD_STEP_MS
        } else {
            PERIOD_FLOOR_MS
        };
    }
}

/// Difficulty only increases, and the wave interval only decreases and
/// never below the floor: `next = max(floor, interval - step)`.
pub proof fn lemma_difficulty_ramp(enemy_timer: EnemyTimer, difficulty: DifficultyTimer)
    requires
        enemy_timer.wf(),
        difficulty.wf(),
    ensures
        clip(difficulty.difficulty + 1) >= difficulty.difficulty,
        difficulty.difficulty < i64::MAX ==> clip(difficulty.difficulty + 1)
            == difficulty.difficulty + 1,
        spec_shrink(enemy_timer.timer.duration_ms) <= enemy_timer.timer.duration_ms,
        spec_shrink(enemy_timer.timer.duration_ms) >= PERIOD_FLOOR_MS,
        spec_shrink(enemy_timer.timer.duration_ms) == (if enemy_timer.timer.duration_ms
            - PERIOD_STEP_MS >= PERIOD_FLOOR_MS {
            enemy_timer.timer.duration_ms - PERIOD_STEP_MS
        } else {
            PERIOD_FLOOR_MS as int
        }),
        spec_shrink(difficulty.timer.duration_ms) <= difficulty.timer.duration_ms,
        spec_shrink(difficulty.timer.duration_ms) >= PERIOD_FLOOR_MS,
{
}

/// How many enemy warnings one wave spawns: the difficulty level itself at
/// low levels, capped thereafter.
pub open spec fn spec_wave_count(difficulty: i64) -> int {
    if difficulty < 8 {
        difficulty as int
    } else {
        WAVE_CAP as int
    }
}

/// The fixed weighted variant table: a decider drawn uniformly below the
/// difficulty level picks a variant through its residue. Jumpers and
/// shooters are deliberately overrepresented; the fallthrough is a jumper.
pub open spec fn spec_spawn_variant(decider: int) -> Behavior {
    let r = decider % 12;
    if r == 0 {
        Behavior::Walker
    } else if r == 1 {
        Behavior::Jumper
    } else if r == 2 {
        Behavior::Shooter
    } else if r == 3 {
        Behavior::BurstShooter
    } else if r == 4 {
        Behavior::Jumper
    } else if r == 5 {
        Behavior::Jumper
    } else if r == 6 {
        Behavior::Shooter
    } else if r == 7 {
        Behavior::Jumper
    } else if r == 8 {
        Behavior::BurstShooter
    } else if r == 9 {
        Behavior::Walker
    } else if r == 10 {
        Behavior::Shooter
    } else if r == 11 {
        Behavior::Shooter
    } else {
        Behavior::Jumper
    }
}

/// What holds of every enemy warning a wave spawns at a given difficulty:
/// it sits on the floor spawn line at a random offset, carries the fresh
/// warning countdown, and its variant comes from the weighted table under
/// some decider below the difficulty.
pub open spec fn spec_valid_enemy_warning(w: SpawnEnemy, difficulty: i64) -> bool {
    &&& w.y == ENEMY_SPAWN_Y
    &&& SPAWN_X_MIN <= w.x < SPAWN_X_MAX
    &&& w.timer == (Timer { duration_ms: WARNING_MS, elapsed_ms: 0, repeating: false, fired: false })
    &&& exists|d: int| 0 <= d < difficulty && w.asset == spec_spawn_variant(d)
}

/// Spawn one wave of enemy warnings: as many as the difficulty level, up
/// to the cap, each with a fresh decider drawn below the difficulty and
/// mapped through the weighted variant table.
#[verifier::loop_isolation(false)]
pub fn spawn_wave(difficulty: i64) -> (ws: Vec<SpawnEnemy>)
    requires
        difficulty >= 1,
    ensures
        ws@.len() == spec_wave_count(difficulty),
        forall|i: int| 0 <= i < ws@.len() ==> spec_valid_enemy_warning(
            #[trigger] ws@[i],
            difficulty,
        ),
{
    let count: usize = if difficulty < 8 {
        difficulty as usize
    } else {
        6
    };
    let mut ws: Vec<SpawnEnemy> = Vec::new();
    let mut i: usize = 0;
    while i < count
        invariant
            i <= count,
            ws@.len() == i,
            forall|j: int| 0 <= j < ws@.len() ==> spec_valid_enemy_warning(
                #[trigger] ws@[j],
                difficulty,
            ),
        decreases count - i,
    {
        let decider = rand_in_range(0, difficulty);
        let r = decider % 12;
        let variant = match r {
            0 => Behavior::Walker,
            1 => Behavior::Jumper,
            2 => Behavior::Shooter,
            3 => Behavior::BurstShooter,
            4 => Behavior::Jumper,
            5 => Behavior::Jumper,
            6 => Behavior::Shooter,
            7 => Behavior::Jumper,
            8 => Behavior::BurstShooter,
            9 => Behavior::Walker,
            10 => Behavior::Shooter,
            11 => Behavior::Shooter,
            _ => Behavior::Jumper,
        };
        assert(variant == spec_spawn_variant(decider as int));
        let w = spawn_enemy_warning(variant);
        ws.push(w);
        i = i + 1;
    }
    ws
}

/// What holds of the weapon warning spawned on the weapon timer: variant
/// Base on the ceiling spawn line at a random offset, with the fresh
/// warning countdown.
pub open spec fn spec_valid_weapon_warning(w: SpawnWeapon) -> bool {
    &&& w.asset == Weapons::Base
    &&& w.y == WEAPON_SPAWN_Y
    &&& SPAWN_X_MIN <= w.x < SPAWN_X_MAX
    &&& w.timer == (Timer { duration_ms: WARNING_MS, elapsed_ms: 0, repeating: false, fired: false })
}

/// One tick of timekeeping across the scheduler and the lifetime-tagged
/// populations, in the fixed order: the difficulty and wave timers
/// advance; a wave of warnings spawns when the wave timer fires while the
/// enemy population is within the cap; a difficulty tick applies when the
/// difficulty timer fires; projectile and pickup lifetimes advance and the
/// expired despawn; the dash rearm window and the weapon timer advance,
/// and a weapon warning spawns when the latter fires. Spawned warnings are
/// returned, not inserted: they become visible to queries on the next
/// tick.
pub fn tick_timers(
    difficulty: &mut DifficultyTimer,
    enemy_timer: &mut EnemyTimer,
    weapon_time: &mut WeaponSpawns,
    dash_time: &mut DashTimer,
    projectiles: &mut Vec<Projectile>,
    pickups: &mut Vec<WeaponPickup>,
    enemy_count: usize,
    dt: u64,
) -> (spawned: (Vec<SpawnEnemy>, Vec<SpawnWeapon>))
    requires
        old(difficulty).wf(),
        old(enemy_timer).wf(),
        old(weapon_time).timer.wf(),
        old(dash_time).timer.wf(),
        forall|i: int| 0 <= i < old(projectiles)@.len() ==> (#[trigger] old(projectiles)@[i]).wf(),
        forall|i: int| 0 <= i < old(pickups)@.len()
            ==> (#[trigger] old(pickups)@[i]).lifetime.timer.wf(),
        dt <= TICK_MAX_MS,
    ensures
        ({
            let dticked = old(difficulty).timer.spec_tick(dt);
            let eticked = old(enemy_timer).timer.spec_tick(dt);
            let wticked = old(weapon_time).timer.spec_tick(dt);
            &&& final(enemy_timer).timer == (if dticked.fired {
                Timer { duration_ms: spec_shrink(old(enemy_timer).timer.duration_ms), ..eticked }
            } else {
                eticked
            })
            &&& final(difficulty).difficulty == (if dticked.fired {
                clip(old(difficulty).difficulty + 1)
            } else {
                old(difficulty).difficulty as int
            })
            &&& final(difficulty).timer == (if dticked.fired && clip(
                old(difficulty).difficulty + 1,
            ) >= DIFF_ACCEL_THRESHOLD {
                Timer { duration_ms: spec_shrink(old(difficulty).timer.duration_ms), ..dticked }
            } else {
                dticked
            })
            &&& spawned.0@.len() == (if eticked.fired && enemy_count <= ENEMY_CAP {
                spec_wave_count(old(difficulty).difficulty)
            } else {
                0
            })
            &&& forall|i: int| 0 <= i < spawned.0@.len() ==> spec_valid_enemy_warning(
                #[trigger] spawned.0@[i],
                old(difficulty).difficulty,
            )
            &&& final(projectiles)@ == spec_expire_pass(old(projectiles)@, dt)
            &&& final(pickups)@ == spec_pickup_expire_pass(old(pickups)@, dt)
            &&& *final(dash_time) == (DashTimer {
                timer: old(dash_time).timer.spec_tick(dt),
                ..*old(dash_time)
            })
            &&& final(weapon_time).timer == wticked
            &&& spawned.1@.len() == (if wticked.fired {
                1int
            } else {
                0int
            })
            &&& forall|i: int| 0 <= i < spawned.1@.len() ==> spec_valid_weapon_warning(
                #[trigger] spawned.1@[i],
            )
        }),
        final(difficulty).wf(),
        final(enemy_timer).wf(),
        final(weapon_time).timer.wf(),
        final(dash_time).timer.wf(),
        forall|i: int| 0 <= i < final(projectiles)@.len()
            ==> (#[trigger] final(projectiles)@[i]).wf(),
        forall|i: int| 0 <= i < final(pickups)@.len()
            ==> (#[trigger] final(pickups)@[i]).lifetime.timer.wf(),
{
    difficulty.timer.tick(dt);
    enemy_timer.timer.tick(dt);
    let wave: Vec<SpawnEnemy> = if enemy_timer.timer.finished() && enemy_count <= ENEMY_CAP {
        spawn_wave(difficulty.difficulty)
    } else {
        Vec::new()
    };
    if difficulty.timer.finished() {
        handle_difficulty(enemy_timer, difficulty);
    }
    expire_projectiles(projectiles, dt);
    expire_pickups(pickups, dt);
    dash_time.timer.tick(dt);
    weapon_time.timer.tick(dt);
    let mut weapon_warnings: Vec<SpawnWeapon> = Vec::new();
    if weapon_time.timer.finished() {
        weapon_warnings.push(warn_weapon_spawn(Weapons::Base));
    }
    (wave, weapon_warnings)
}

} // verus!
