use arena_sim::player::{move_player, DashTimer, Player, MoveInput, DASH_REARM_MS};
use arena_sim::timer::Timer;
use arena_sim::types::Directions;

fn no_keys() -> MoveInput {
    MoveInput {
        right_just: false,
        right_held: false,
        left_just: false,
        left_held: false,
        jump_just: false,
    }
}

/// A rearm window that has already closed, as after a long quiet spell.
fn rearmed(direction: Directions) -> DashTimer {
    DashTimer {
        timer: Timer { duration_ms: 0, elapsed_ms: 0, repeating: false, fired: true },
        direction,
    }
}

#[test]
fn single_right_press_nudges_one_unit() {
    let mut p = Player::new();
    let mut dash = rearmed(Directions::Left);
    let keys = MoveInput { right_just: true, ..no_keys() };
    move_player(&mut p, &mut dash, keys, 16);
    assert_eq!(p.x, 1000);
    assert_eq!(p.vx, 0);
    assert!(p.dashing.is_none());
    assert_eq!(dash.direction, Directions::Right);
    assert_eq!(dash.timer.duration_ms, DASH_REARM_MS);
}

#[test]
fn single_press_never_dashes_even_right_after_other_direction() {
    let mut p = Player::new();
    // The window is open but remembers the other direction.
    let mut dash = DashTimer {
        timer: Timer { duration_ms: 200, elapsed_ms: 50, repeating: false, fired: false },
        direction: Directions::Left,
    };
    let keys = MoveInput { right_just: true, ..no_keys() };
    move_player(&mut p, &mut dash, keys, 16);
    assert!(p.dashing.is_none());
    assert_eq!(p.x, 1000);
}

#[test]
fn double_press_in_window_commits_dash_and_moves_25_units() {
    let mut p = Player::new();
    let mut dash = rearmed(Directions::Left);
    let press_right = MoveInput { right_just: true, ..no_keys() };

    // First press: nudge, window opens.
    move_player(&mut p, &mut dash, press_right, 16);
    assert!(p.dashing.is_none());
    let x_after_first = p.x;

    // 50 ms pass: the rearm window is ticked by the scheduler.
    dash.timer.tick(50);
    assert!(!dash.timer.finished());

    // Second press 0.05 s later: commits the dash, no translation yet.
    move_player(&mut p, &mut dash, press_right, 16);
    let d = p.dashing.expect("second press in the window must attach a dash");
    assert_eq!(d.direction, Directions::Right);
    assert_eq!(p.x, x_after_first);
    // The window is consumed: the next tick reports it finished.
    assert_eq!(dash.timer.elapsed_ms, dash.timer.duration_ms);

    // Over the next 0.1 s (two 50 ms ticks) the dash translates
    // 250 units/s kinematically: exactly 25 units in all.
    move_player(&mut p, &mut dash, no_keys(), 50);
    assert!(p.dashing.is_some());
    assert_eq!(p.vx, 0);
    move_player(&mut p, &mut dash, no_keys(), 50);
    assert_eq!(p.x - x_after_first, 25000);
    assert!(p.dashing.is_none(), "the dash state is removed when its countdown completes");
}

#[test]
fn dash_ignores_input_while_active() {
    let mut p = Player::new();
    p.dashing = Some(arena_sim::player::Dashing {
        timer: Timer::new(100, false),
        direction: Directions::Left,
    });
    let mut dash = rearmed(Directions::Left);
    let keys = MoveInput { right_just: true, jump_just: true, ..no_keys() };
    move_player(&mut p, &mut dash, keys, 20);
    // Kinematic leftward dash, not a rightward nudge, and no jump.
    assert_eq!(p.x, -5000);
    assert_eq!(p.vy, 0);
}

#[test]
fn hold_keeps_nudging() {
    let mut p = Player::new();
    let mut dash = rearmed(Directions::Left);
    let keys = MoveInput { left_held: true, ..no_keys() };
    move_player(&mut p, &mut dash, keys, 16);
    move_player(&mut p, &mut dash, keys, 16);
    assert_eq!(p.x, -2000);
}

#[test]
fn nudge_gated_by_opposing_velocity() {
    let mut p = Player::new();
    p.vx = -60000;
    let mut dash = rearmed(Directions::Left);
    let keys = MoveInput { right_just: true, ..no_keys() };
    move_player(&mut p, &mut dash, keys, 16);
    assert_eq!(p.x, 0, "moving fast the other way suppresses the nudge");
    assert_eq!(p.vx, -60000);
}

#[test]
fn jump_only_from_ground() {
    let mut p = Player::new();
    let mut dash = rearmed(Directions::Left);
    let keys = MoveInput { jump_just: true, ..no_keys() };
    // At the start height (on the floor) the jump applies.
    move_player(&mut p, &mut dash, keys, 16);
    assert_eq!(p.vy, p.jump_height);

    // Airborne, above the threshold, it does not.
    let mut q = Player::new();
    q.y = 0;
    move_player(&mut q, &mut dash, keys, 16);
    assert_eq!(q.vy, 0);
}
