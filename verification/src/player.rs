//! Player movement and the dash controller.
//!
//! Horizontal input is edge- and hold-sensitive. A fresh press of a
//! direction opens a rearm window and applies a one-unit nudge; a second
//! press of the same direction inside the window commits to a dash. While
//! dashing, the player's velocity is forced to zero and the player is
//! translated kinematically at the fixed dash speed until the dash countdown
//! completes, through the tick on which it completes; the dash state is then
//! removed.

use vstd::prelude::*;

use crate::arith::{add_clip, clip};
use crate::timer::{Timer, TICK_MAX_MS};
use crate::types::Directions;

verus! {

/// Length of the dash rearm window, in milliseconds.
pub const DASH_REARM_MS: u64 = 200;

/// Duration of a committed dash, in milliseconds.
pub const DASH_MS: u64 = 100;

/// Kinematic dash speed, in milli-units per millisecond (250 units/s).
pub const DASH_SPEED: i64 = 250;

/// The nudge applied on a fresh directional press, in milli-units (1 unit).
pub const NUDGE_MILLI: i64 = 1000;

/// A nudge only applies while the opposing velocity is at most 50 units/s.
pub const VX_GATE: i64 = 50000;

/// The player may jump only at or below this height, in milli-units.
pub const JUMP_Y_GATE: i64 = -85000;

/// The initial jump impulse, in milli-units per second.
pub const JUMP_HEIGHT: i64 = 100000;

/// Vertical position where the player first appears, in milli-units.
pub const PLAYER_START_Y: i64 = -92000;

/// Process-wide memory of the last dash-direction press, used to detect a
/// double tap within the rearm window.
#[derive(Clone, Copy, PartialEq, Eq, Structural, Debug)]
pub struct DashTimer {
    pub timer: Timer,
    pub direction: Directions,
}

impl Default for DashTimer {
    /// A rearm window that is already closed, pointing left.
    fn default() -> (d: DashTimer)
        ensures
            d.timer == (Timer { duration_ms: 500, elapsed_ms: 0, repeating: false, fired: false }),
            d.direction == Directions::Left,
            d.timer.wf(),
    {
        DashTimer { timer: Timer::new(500, false), direction: Directions::Left }
    }
}

/// The active dash state: a direction and a finite countdown.
#[derive(Clone, Copy, PartialEq, Eq, Structural, Debug)]
pub struct Dashing {
    pub timer: Timer,
    pub direction: Directions,
}

impl Default for Dashing {
    /// A fresh leftward dash with the standard countdown.
    fn default() -> (d: Dashing)
        ensures
            d.timer == (Timer {
                duration_ms: DASH_MS,
                elapsed_ms: 0,
                repeating: false,
                fired: false,
            }),
            d.direction == Directions::Left,
            d.timer.wf(),
    {
        Dashing { timer: Timer::new(DASH_MS, false), direction: Directions::Left }
    }
}

/// The player: location and aim, velocity as last exchanged with the
/// physics collaborator, and the dash state when one is active.
#[derive(Clone, Copy, PartialEq, Eq, Structural, Debug)]
pub struct Player {
    /// Location, milli-units.
    pub x: i64,
    pub y: i64,
    /// Velocity intent, milli-units per second.
    pub vx: i64,
    pub vy: i64,
    /// Vertical impulse applied on a jump, milli-units per second.
    pub jump_height: i64,
    /// Aim angle, milliradians.
    pub looking_at: i64,
    /// The active dash, if any.
    pub dashing: Option<Dashing>,
}

impl Player {
    /// Well-formedness: an active dash carries a well-formed one-shot
    /// countdown of the standard dash duration.
    pub open spec fn wf(self) -> bool {
        self.dashing matches Some(d) ==> {
            &&& d.timer.wf()
            &&& !d.timer.repeating
            &&& d.timer.duration_ms == DASH_MS
        }
    }

    /// The player as first spawned: at the start location, at rest,
    /// aiming to the right, not dashing.
    pub fn new() -> (p: Player)
        ensures
            p == (Player {
                x: 0,
                y: PLAYER_START_Y,
                vx: 0,
                vy: 0,
                jump_height: JUMP_HEIGHT,
                looking_at: 0,
                dashing: None::<Dashing>,
            }),
            p.wf(),
    {
        Player {
            x: 0,
            y: PLAYER_START_Y,
            vx: 0,
            vy: 0,
            jump_height: JUMP_HEIGHT,
            looking_at: 0,
            dashing: None,
        }
    }
}

/// The digital movement input read for one tick: press edges and holds.
#[derive(Clone, Copy, PartialEq, Eq, Structural, Debug)]
pub struct MoveInput {
    pub right_just: bool,
    pub right_held: bool,
    pub left_just: bool,
    pub left_held: bool,
    pub jump_just: bool,
}

/// A press of `dir` is fresh when the rearm window is closed or remembers
/// the other direction; otherwise it is a double tap that commits a dash.
pub open spec fn fresh_press(d: DashTimer, dir: Directions) -> bool {
    d.timer.fired || d.direction != dir
}

/// The nudge on a fresh rightward press: one unit right and the horizontal
/// velocity zeroed, gated on not moving too fast leftward.
pub open spec fn spec_nudge_right(p: Player) -> Player {
    if p.vx >= -VX_GATE {
        Player { x: clip(p.x + NUDGE_MILLI) as i64, vx: 0, ..p }
    } else {
        p
    }
}

/// The nudge on a fresh leftward press, mirrored.
pub open spec fn spec_nudge_left(p: Player) -> Player {
    if p.vx <= VX_GATE {
        Player { x: clip(p.x - NUDGE_MILLI) as i64, vx: 0, ..p }
    } else {
        p
    }
}

/// A rearm window freshly opened for `dir`.
pub open spec fn spec_rearm(dir: Directions) -> DashTimer {
    DashTimer {
        timer: Timer { duration_ms: DASH_REARM_MS, elapsed_ms: 0, repeating: false, fired: false },
        direction: dir,
    }
}

/// A dash commit: the rearm window is consumed and a fresh dash of the
/// standard duration is attached in direction `dir`.
pub open spec fn spec_commit(p: Player, d: DashTimer, dir: Directions) -> (Player, DashTimer) {
    (
        Player {
            dashing: Some(
                Dashing {
                    timer: Timer {
                        duration_ms: DASH_MS,
                        elapsed_ms: 0,
                        repeating: false,
                        fired: false,
                    },
                    direction: dir,
                },
            ),
            ..p
        },
        DashTimer { timer: Timer { elapsed_ms: d.timer.duration_ms, ..d.timer }, ..d },
    )
}

/// The effect of the rightward key on one tick, for a non-dashing player.
pub open spec fn spec_step_right(p: Player, d: DashTimer, keys: MoveInput) -> (Player, DashTimer) {
    if keys.right_just {
        if fresh_press(d, Directions::Right) {
            (spec_nudge_right(p), spec_rearm(Directions::Right))
        } else {
            spec_commit(p, d, Directions::Right)
        }
    } else if keys.right_held {
        (spec_nudge_right(p), d)
    } else {
        (p, d)
    }
}

/// The effect of the leftward key on one tick, mirrored.
pub open spec fn spec_step_left(p: Player, d: DashTimer, keys: MoveInput) -> (Player, DashTimer) {
    if keys.left_just {
        if fresh_press(d, Directions::Left) {
            (spec_nudge_left(p), spec_rearm(Directions::Left))
        } else {
            spec_commit(p, d, Directions::Left)
        }
    } else if keys.left_held {
        (spec_nudge_left(p), d)
    } else {
        (p, d)
    }
}

/// The effect of the jump key: an upward impulse, only from at or below the
/// ground threshold.
pub open spec fn spec_step_jump(p: Player, keys: MoveInput) -> Player {
    if keys.jump_just && p.y <= JUMP_Y_GATE {
        Player { vy: p.jump_height, ..p }
    } else {
        p
    }
}

/// One tick of kinematic dash motion: velocity forced to zero, the player
/// translated at the dash speed, the countdown advanced, and the dash state
/// removed once the countdown has completed (after that tick's translation).
pub open spec fn spec_step_dash(p: Player, dsh: Dashing, dt: u64) -> Player {
    let moved = if dsh.direction == Directions::Right {
        clip(p.x + DASH_SPEED * dt) as i64
    } else {
        clip(p.x - DASH_SPEED * dt) as i64
    };
    let ticked = dsh.timer.spec_tick(dt);
    Player {
        x: moved,
        vx: 0,
        vy: 0,
        dashing: if ticked.fired {
            None
        } else {
            Some(Dashing { timer: ticked, ..dsh })
        },
        ..p
    }
}

/// The whole player controller for one tick: while a dash is active the
/// input is ignored and the dash advances; otherwise the rightward key, the
/// leftward key and the jump key apply in that order.
pub open spec fn spec_move_player(p: Player, d: DashTimer, keys: MoveInput, dt: u64) -> (
    Player,
    DashTimer,
) {
    match p.dashing {
        Some(dsh) => (spec_step_dash(p, dsh, dt), d),
        None => {
            let (p1, d1) = spec_step_right(p, d, keys);
            let (p2, d2) = spec_step_left(p1, d1, keys);
            (spec_step_jump(p2, keys), d2)
        },
    }
}

/// Apply one tick of the movement and dash controller to the player and the
/// process-wide dash memory.
pub fn move_player(p: &mut Player, dash_time: &mut DashTimer, keys: MoveInput, dt: u64)
    requires
        old(p).wf(),
        old(dash_time).timer.wf(),
        dt <= TICK_MAX_MS,
    ensures
        (*final(p), *final(dash_time)) == spec_move_player(*old(p), *old(dash_time), keys, dt),
        final(p).wf(),
        final(dash_time).timer.wf(),
{
    let dashing = p.dashing;
    match dashing {
        Some(mut dsh) => {
            p.vx = 0;
            p.vy = 0;
            if dsh.direction == Directions::Right {
                p.x = add_clip(p.x, DASH_SPEED * (dt as i64));
            } else {
                p.x = add_clip(p.x, -(DASH_SPEED * (dt as i64)));
            }
            dsh.timer.tick(dt);
            if dsh.timer.finished() {
                p.dashing = None;
            } else {
                p.dashing = Some(dsh);
            }
        },
        None => {
            if keys.right_just {
                if dash_time.timer.finished() || dash_time.direction != Directions::Right {
                    dash_time.timer = Timer::new(DASH_REARM_MS, false);
                    dash_time.direction = Directions::Right;
                    if p.vx >= -VX_GATE {
                        p.x = add_clip(p.x, NUDGE_MILLI);
                        p.vx = 0;
                    }
                } else {
                    dash_time.timer.exhaust();
                    p.dashing = Some(
                        Dashing { timer: Timer::new(DASH_MS, false), direction: Directions::Right },
                    );
                }
            } else if keys.right_held {
                if p.vx >= -VX_GATE {
                    p.x = add_clip(p.x, NUDGE_MILLI);
                    p.vx = 0;
                }
            }
            if keys.left_just {
                if dash_time.timer.finished() || dash_time.direction != Directions::Left {
                    dash_time.timer = Timer::new(DASH_REARM_MS, false);
                    dash_time.direction = Directions::Left;
                    if p.vx <= VX_GATE {
                        p.x = add_clip(p.x, -NUDGE_MILLI);
                        p.vx = 0;
                    }
                } else {
                    dash_time.timer.exhaust();
                    p.dashing = Some(
                        Dashing { timer: Timer::new(DASH_MS, false), direction: Directions::Left },
                    );
                }
            } else if keys.left_held {
                if p.vx <= VX_GATE {
                    p.x = add_clip(p.x, -NUDGE_MILLI);
                    p.vx = 0;
                }
            }
            if keys.jump_just {
                if p.y <= JUMP_Y_GATE {
                    p.vy = p.jump_height;
                }
            }
        },
    }
}

/// A single isolated press never commits a dash: from a state with the
/// rearm window closed (or remembering the other direction) and no dash
/// active, a rightward press leaves no dash attached and moves the player
/// by exactly the one-unit nudge, with the horizontal velocity zeroed.
pub proof fn lemma_single_press_no_dash(p: Player, d: DashTimer, keys: MoveInput, dt: u64)
    requires
        p.dashing is None,
        fresh_press(d, Directions::Right),
        keys.right_just,
        !keys.left_just,
        !keys.left_held,
        p.vx >= -VX_GATE,
    ensures
        spec_move_player(p, d, keys, dt).0.dashing is None,
        spec_move_player(p, d, keys, dt).0.x == clip(p.x + NUDGE_MILLI),
        spec_move_player(p, d, keys, dt).0.vx == 0,
        spec_move_player(p, d, keys, dt).1.direction == Directions::Right,
{
}

/// A dash commits only on a second press within the rearm window: with the
/// window open for the pressed direction, the press attaches a dash in that
/// direction, does not move the player that tick, and consumes the window.
pub proof fn lemma_second_press_commits(p: Player, d: DashTimer, keys: MoveInput, dt: u64)
    requires
        p.dashing is None,
        !fresh_press(d, Directions::Right),
        keys.right_just,
        !keys.left_just,
        !keys.left_held,
    ensures
        spec_move_player(p, d, keys, dt).0.dashing == Some(
            Dashing {
                timer: Timer {
                    duration_ms: DASH_MS,
                    elapsed_ms: 0,
                    repeating: false,
                    fired: false,
                },
                direction: Directions::Right,
            },
        ),
        spec_move_player(p, d, keys, dt).0.x == p.x,
        spec_move_player(p, d, keys, dt).1.timer.elapsed_ms == d.timer.duration_ms,
{
}


/// Dash lifecycle exactness: while attached, the dash state carries a
/// direction and the finite standard countdown, the player is translated at
/// the dash speed every tick it is attached (the completing tick included),
/// and the state is removed exactly when the countdown completes: never
/// earlier, and never left attached after.
pub proof fn lemma_dash_lifecycle(p: Player, dsh: Dashing, d: DashTimer, keys: MoveInput, dt: u64)
    requires
        p.wf(),
        p.dashing == Some(dsh),
    ensures
        ({
            let r = spec_move_player(p, d, keys, dt).0;
            &&& (r.dashing is None <==> dsh.timer.elapsed_ms + dt >= DASH_MS)
            &&& (r.dashing matches Some(d2) ==> {
                &&& d2.direction == dsh.direction
                &&& d2.timer.duration_ms == DASH_MS
                &&& d2.timer.elapsed_ms == dsh.timer.elapsed_ms + dt
            })
            &&& r.x == (if dsh.direction == Directions::Right {
                clip(p.x + DASH_SPEED * dt)
            } else {
                clip(p.x - DASH_SPEED * dt)
            })
            &&& r.vx == 0 && r.vy == 0
            &&& spec_move_player(p, d, keys, dt).1 == d
        }),
{
}

} // verus!
