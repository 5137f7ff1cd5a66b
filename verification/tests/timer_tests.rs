use arena_sim::timer::Timer;

fn fresh(duration_ms: u64, repeating: bool) -> Timer {
    Timer::new(duration_ms, repeating)
}

#[test]
fn one_shot_accumulates_and_finishes() {
    let mut t = fresh(1000, false);
    t.tick(400);
    assert!(!t.finished());
    assert_eq!(t.elapsed_ms, 400);
    t.tick(600);
    assert!(t.finished());
    assert_eq!(t.elapsed_ms, 1000);
}

#[test]
fn one_shot_clamps_and_stays_finished() {
    let mut t = fresh(100, false);
    t.tick(250);
    assert!(t.finished());
    assert_eq!(t.elapsed_ms, 100);
    t.tick(1);
    assert!(t.finished());
}

#[test]
fn repeating_wraps_overshoot() {
    let mut t = fresh(500, true);
    t.tick(700);
    assert!(t.finished());
    assert_eq!(t.elapsed_ms, 200);
    t.tick(100);
    assert!(!t.finished());
    assert_eq!(t.elapsed_ms, 300);
    t.tick(200);
    assert!(t.finished());
    assert_eq!(t.elapsed_ms, 0);
}

#[test]
fn zero_duration_fires_immediately() {
    let mut t = fresh(0, false);
    assert!(!t.finished());
    t.tick(0);
    assert!(t.finished());
}

#[test]
fn reset_starts_over() {
    let mut t = fresh(300, false);
    t.tick(300);
    assert!(t.finished());
    t.reset();
    assert!(!t.finished());
    assert_eq!(t.elapsed_ms, 0);
    t.tick(299);
    assert!(!t.finished());
}

#[test]
fn exhaust_finishes_on_next_tick() {
    let mut t = fresh(200, false);
    t.tick(50);
    assert!(!t.finished());
    t.exhaust();
    assert_eq!(t.elapsed_ms, 200);
    t.tick(0);
    assert!(t.finished());
}
