use terminal_invaders::shot::Shot;
use terminal_invaders::timer::Timer;

#[test]
fn timer_counts_down_and_latches() {
    let mut t = Timer::new(100);
    assert!(!t.is_ready());
    t.advance(40);
    assert!(!t.is_ready());
    t.advance(60);
    assert!(t.is_ready());
    // Ready stays latched until a reset, however far time runs on.
    t.advance(1);
    assert!(t.is_ready());
    t.reset();
    assert!(!t.is_ready());
    assert_eq!(t.elapsed_ms, 0);
}

#[test]
fn timer_rearm_compares_against_new_duration() {
    let mut t = Timer::new(50);
    t.advance(50);
    assert!(t.is_ready());
    t.rearm(250);
    assert!(!t.is_ready());
    t.advance(249);
    assert!(!t.is_ready());
    t.advance(1);
    assert!(t.is_ready());
}

#[test]
fn timer_advance_saturates() {
    let mut t = Timer::new(u64::MAX);
    t.advance(u64::MAX);
    t.advance(u64::MAX);
    assert_eq!(t.elapsed_ms, u64::MAX);
    assert!(t.is_ready());
}

#[test]
fn timer_phase_splits_at_half() {
    let mut t = Timer::new(100);
    assert!(t.in_first_half());
    t.advance(49);
    assert!(t.in_first_half());
    t.advance(1);
    // Exactly half the duration left is no longer "more than half".
    assert!(!t.in_first_half());
    t.advance(50);
    assert!(!t.in_first_half());
}

#[test]
fn shot_flies_one_cell_per_tick() {
    let mut s = Shot::new(4, 7);
    assert!(!s.exploding);
    assert!(!s.died());
    s.update(49);
    assert_eq!((s.x, s.y), (4, 7));
    s.update(1);
    assert_eq!((s.x, s.y), (4, 6));
    // The flight timer restarts after each move.
    assert_eq!(s.timer.elapsed_ms, 0);
    s.update(50);
    assert_eq!((s.x, s.y), (4, 5));
}

#[test]
fn shot_dies_at_top_boundary() {
    let mut s = Shot::new(2, 1);
    assert!(!s.died());
    s.update(50);
    assert_eq!(s.y, 0);
    assert!(s.died());
}

#[test]
fn shot_explosion_runs_its_display_time() {
    let mut s = Shot::new(3, 5);
    s.update(50);
    assert_eq!(s.y, 4);
    s.explode();
    assert!(s.exploding);
    assert!(!s.died());
    // An exploding shot no longer moves.
    s.update(249);
    assert_eq!(s.y, 4);
    assert!(!s.died());
    // The re-armed 250 ms explosion timer elapses: the shot is dead.
    s.update(1);
    assert_eq!(s.y, 4);
    assert!(s.died());
}
