//! Projectiles, spent weapons and other lifetime-limited entities.
//!
//! Any physics-enabled entity tagged with a `Bullet` lifetime countdown
//! despawns when the countdown finishes, or immediately on a registered
//! collision, whichever comes first. Spent weapons additionally spin while
//! their spin countdown runs, and tracer sprites despawn on their own short
//! countdown.

use vstd::prelude::*;

use crate::arith::{add_clip, clip};
use crate::timer::{Timer, TICK_MAX_MS};

verus! {

/// Lifetime of a player bullet, in milliseconds.
pub const BULLET_LIFE_MS: u64 = 5000;

/// Lifetime of a spent weapon, in milliseconds.
pub const SPENT_LIFE_MS: u64 = 4000;

/// Duration of a spent weapon's spin, in milliseconds.
pub const SPIN_MS: u64 = 1000;

/// Lifetime of a shooter's tracer sprite, in milliseconds.
pub const TRACER_MS: u64 = 50;

/// Spin advance per tick, in milliradians.
pub const SPIN_STEP_MRAD: i64 = 100;

/// Muzzle speed of a player bullet, in milli-units per second.
pub const BULLET_SPEED: i64 = 500000;

/// Speed of an enemy's homing-angle bullet, in milli-units per second.
pub const ENEMY_BULLET_SPEED: i64 = 50000;

/// Recoil speed applied to the player on firing, milli-units per second.
pub const RECOIL_SPEED: i64 = 100000;

/// The lifetime tag: a one-shot countdown after which the entity despawns.
#[derive(Clone, Copy, PartialEq, Eq, Structural, Debug)]
pub struct Bullet {
    pub timer: Timer,
}

/// An outward spin on a spent weapon: the current angle and how long the
/// spin keeps going.
#[derive(Clone, Copy, PartialEq, Eq, Structural, Debug)]
pub struct Spinning {
    /// Current rotation, milliradians.
    pub last_angle: i64,
    pub timer: Timer,
}

/// A short-lived visual entity (a shooter's tracer): despawns when its
/// countdown finishes.
#[derive(Clone, Copy, PartialEq, Eq, Structural, Debug)]
pub struct Despawner(pub Timer);

/// A velocity handed to the physics collaborator. Velocities that need
/// trigonometry are recorded as intents; the unverified edge resolves them
/// to cartesian components.
#[derive(Clone, Copy, PartialEq, Eq, Structural, Debug)]
pub enum VelocityIntent {
    /// Cartesian components, milli-units per second.
    Fixed { vx: i64, vy: i64 },
    /// `speed` in the direction `angle_mrad`.
    Directed { angle_mrad: i64, speed: i64 },
    /// Per-axis speeds opposite the direction `angle_mrad` (a recoil).
    Opposite { angle_mrad: i64, speed_x: i64, speed_y: i64 },
    /// `speed` toward the point `(to_x, to_y)` from the entity's position.
    Aimed { to_x: i64, to_y: i64, speed: i64 },
}

/// A projectile-like entity: a player bullet, an enemy bullet or a spent
/// weapon. Position is a cartesian base plus a polar offset (milli-units and
/// milliradians); entities spawned at a plain point have a zero offset.
#[derive(Clone, Copy, PartialEq, Eq, Structural, Debug)]
pub struct Projectile {
    pub x: i64,
    pub y: i64,
    pub off_angle_mrad: i64,
    pub off_dist: i64,
    pub vel: VelocityIntent,
    /// The lifetime tag, when the entity carries one.
    pub lifetime: Option<Bullet>,
    pub spinning: Option<Spinning>,
    /// Whether the physics collaborator reports collisions for it.
    pub collidable: bool,
}

impl Projectile {
    /// Well-formedness: every countdown the entity carries is well-formed.
    pub open spec fn wf(self) -> bool {
        &&& (self.lifetime matches Some(b) ==> b.timer.wf())
        &&& (self.spinning matches Some(s) ==> s.timer.wf())
    }
}

/// One tick of timekeeping on a projectile: its lifetime countdown and its
/// spin countdown (when present) advance by `dt`.
pub open spec fn spec_tick_projectile(pr: Projectile, dt: u64) -> Projectile {
    Projectile {
        lifetime: match pr.lifetime {
            Some(b) => Some(Bullet { timer: b.timer.spec_tick(dt) }),
            None => None,
        },
        spinning: match pr.spinning {
            Some(s) => Some(Spinning { timer: s.timer.spec_tick(dt), ..s }),
            None => None,
        },
        ..pr
    }
}

/// Whether a projectile's lifetime has run out.
pub open spec fn spec_expired(pr: Projectile) -> bool {
    pr.lifetime matches Some(b) && b.timer.fired
}

/// The lifetime pass over a whole population: every projectile's countdowns
/// advance, and exactly those whose lifetime has run out despawn, in order.
pub open spec fn spec_expire_pass(ps: Seq<Projectile>, dt: u64) -> Seq<Projectile>
    decreases ps.len(),
{
    if ps.len() == 0 {
        Seq::empty()
    } else {
        let t = spec_tick_projectile(ps[0], dt);
        let rest = spec_expire_pass(ps.drop_first(), dt);
        if spec_expired(t) {
            rest
        } else {
            seq![t] + rest
        }
    }
}

/// Advance all projectile countdowns by `dt` and despawn every projectile
/// whose lifetime finished, on the tick it finishes and never before.
#[verifier::loop_isolation(false)]
pub fn expire_projectiles(ps: &mut Vec<Projectile>, dt: u64)
    requires
        forall|i: int| 0 <= i < old(ps)@.len() ==> (#[trigger] old(ps)@[i]).wf(),
        dt <= TICK_MAX_MS,
    ensures
        final(ps)@ == spec_expire_pass(old(ps)@, dt),
        forall|i: int| 0 <= i < final(ps)@.len() ==> (#[trigger] final(ps)@[i]).wf(),
{
    let len = ps.len();
    let mut out: Vec<Projectile> = Vec::new();
    let mut i: usize = 0;
    proof {
        assert(ps@.skip(0) =~= ps@);
        assert(out@ + spec_expire_pass(ps@, dt) =~= spec_expire_pass(ps@, dt));
    }
    while i < len
        invariant
            i <= len,
            ps@ == old(ps)@,
            spec_expire_pass(ps@, dt) == out@ + spec_expire_pass(ps@.skip(i as int), dt),
            forall|j: int| 0 <= j < out@.len() ==> (#[trigger] out@[j]).wf(),
        decreases len - i,
    {
        let mut pr = ps[i];
        proof {
            assert(ps@.skip(i as int)[0] == ps@[i as int]);
            assert(ps@.skip(i as int).drop_first() =~= ps@.skip(i as int + 1));
        }
        match pr.lifetime {
            Some(mut b) => {
                b.timer.tick(dt);
                pr.lifetime = Some(b);
            },
            None => {},
        }
        match pr.spinning {
            Some(mut s) => {
                s.timer.tick(dt);
                pr.spinning = Some(s);
            },
            None => {},
        }
        assert(pr == spec_tick_projectile(ps@[i as int], dt));
        let expired = match pr.lifetime {
            Some(b) => b.timer.fired,
            None => false,
        };
        if !expired {
            out.push(pr);
            proof {
                assert(out@ + spec_expire_pass(ps@.skip(i as int + 1), dt) =~= out@.drop_last()
                    + (seq![pr] + spec_expire_pass(ps@.skip(i as int + 1), dt)));
            }
        }
        i = i + 1;
    }
    proof {
        assert(ps@.skip(len as int) =~= Seq::<Projectile>::empty());
        assert(out@ + Seq::<Projectile>::empty() =~= out@);
    }
    *ps = out;
}

/// One tick of spin: while the spin countdown has not finished, the spent
/// weapon's rotation advances by the fixed spin step.
pub open spec fn spec_spin(pr: Projectile) -> Projectile {
    match pr.spinning {
        Some(s) => {
            if s.timer.fired {
                pr
            } else {
                Projectile {
                    spinning: Some(
                        Spinning { last_angle: clip(s.last_angle + SPIN_STEP_MRAD) as i64, ..s },
                    ),
                    ..pr
                }
            }
        },
        None => pr,
    }
}

/// Advance the rotation of every spinning entity whose spin countdown is
/// still running.
#[verifier::loop_isolation(false)]
pub fn spin_spinners(ps: &mut Vec<Projectile>)
    ensures
        final(ps)@.len() == old(ps)@.len(),
        forall|i: int| 0 <= i < old(ps)@.len() ==> final(ps)@[i] == spec_spin(
            #[trigger] old(ps)@[i],
        ),
{
    let len = ps.len();
    let mut i: usize = 0;
    while i < len
        invariant
            i <= len,
            ps@.len() == old(ps)@.len(),
            forall|j: int| 0 <= j < i ==> ps@[j] == spec_spin(#[trigger] old(ps)@[j]),
            forall|j: int| i <= j < len ==> ps@[j] == old(ps)@[j],
        decreases len - i,
    {
        let mut pr = ps[i];
        match pr.spinning {
            Some(mut s) => {
                if !s.timer.finished() {
                    s.last_angle = add_clip(s.last_angle, SPIN_STEP_MRAD);
                    pr.spinning = Some(s);
                    ps.set(i, pr);
                }
            },
            None => {},
        }
        i = i + 1;
    }
}

/// The tracer pass: every tracer countdown advances, and exactly those that
/// finished despawn, in order.
pub open spec fn spec_despawner_pass(ds: Seq<Despawner>, dt: u64) -> Seq<Despawner>
    decreases ds.len(),
{
    if ds.len() == 0 {
        Seq::empty()
    } else {
        let t = Despawner(ds[0].0.spec_tick(dt));
        let rest = spec_despawner_pass(ds.drop_first(), dt);
        if t.0.fired {
            rest
        } else {
            seq![t] + rest
        }
    }
}

/// Advance every short-lived visual entity and despawn those whose
/// countdown finished.
#[verifier::loop_isolation(false)]
pub fn handle_despawner(ds: &mut Vec<Despawner>, dt: u64)
    requires
        forall|i: int| 0 <= i < old(ds)@.len() ==> (#[trigger] old(ds)@[i]).0.wf(),
        dt <= TICK_MAX_MS,
    ensures
        final(ds)@ == spec_despawner_pass(old(ds)@, dt),
        forall|i: int| 0 <= i < final(ds)@.len() ==> (#[trigger] final(ds)@[i]).0.wf(),
{
    let len = ds.len();
    let mut out: Vec<Despawner> = Vec::new();
    let mut i: usize = 0;
    proof {
        assert(ds@.skip(0) =~= ds@);
        assert(out@ + spec_despawner_pass(ds@, dt) =~= spec_despawner_pass(ds@, dt));
    }
    while i < len
        invariant
            i <= len,
            ds@ == old(ds)@,
            spec_despawner_pass(ds@, dt) == out@ + spec_despawner_pass(ds@.skip(i as int), dt),
            forall|j: int| 0 <= j < out@.len() ==> (#[trigger] out@[j]).0.wf(),
        decreases len - i,
    {
        let mut d = ds[i];
        proof {
            assert(ds@.skip(i as int)[0] == ds@[i as int]);
            assert(ds@.skip(i as int).drop_first() =~= ds@.skip(i as int + 1));
        }
        d.0.tick(dt);
        if !d.0.finished() {
            out.push(d);
            proof {
                assert(out@ + spec_despawner_pass(ds@.skip(i as int + 1), dt) =~= out@.drop_last()
                    + (seq![d] + spec_despawner_pass(ds@.skip(i as int + 1), dt)));
            }
        }
        i = i + 1;
    }
    proof {
        assert(ds@.skip(len as int) =~= Seq::<Despawner>::empty());
        assert(out@ + Seq::<Despawner>::empty() =~= out@);
    }
    *ds = out;
}

/// A lifetime-tagged entity despawns on or before the tick its countdown
/// runs out, and never before: after the lifetime pass, every survivor's
/// countdown is still running, and a projectile whose advanced countdown is
/// still running always survives, unchanged but for its countdowns.
pub proof fn lemma_expiry_exact(ps: Seq<Projectile>, dt: u64)
    ensures
        forall|i: int| 0 <= i < spec_expire_pass(ps, dt).len() ==> !spec_expired(
            #[trigger] spec_expire_pass(ps, dt)[i],
        ),
        forall|i: int|
            0 <= i < ps.len() && !spec_expired(spec_tick_projectile(#[trigger] ps[i], dt))
                ==> spec_expire_pass(ps, dt).contains(spec_tick_projectile(ps[i], dt)),
    decreases ps.len(),
{
    if ps.len() > 0 {
        lemma_expiry_exact(ps.drop_first(), dt);
        let t = spec_tick_projectile(ps[0], dt);
        let rest = spec_expire_pass(ps.drop_first(), dt);
        assert forall|i: int|
            0 <= i < ps.len() && !spec_expired(spec_tick_projectile(#[trigger] ps[i], dt))
                implies spec_expire_pass(ps, dt).contains(spec_tick_projectile(ps[i], dt)) by {
            if i == 0 {
                assert(spec_expire_pass(ps, dt)[0] == t);
            } else {
                assert(ps.drop_first()[i - 1] == ps[i]);
                let u = spec_tick_projectile(ps[i], dt);
                assert(rest.contains(u));
                let j = choose|j: int| 0 <= j < rest.len() && rest[j] == u;
                if spec_expired(t) {
                    assert(spec_expire_pass(ps, dt)[j] == u);
                } else {
                    assert(spec_expire_pass(ps, dt)[j + 1] == u);
                }
            }
        }
    }
}

} // verus!
