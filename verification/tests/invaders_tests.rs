use terminal_invaders::invaders::Invaders;
use terminal_invaders::invaders::Invader;
use terminal_invaders::timer::Timer;

fn positions(inv: &Invaders) -> Vec<(u16, u16)> {
    inv.army.iter().map(|v| (v.x, v.y)).collect()
}

fn formation(cells: &[(u16, u16)], direction: i32, move_ms: u64, bounds: (u16, u16)) -> Invaders {
    Invaders {
        army: cells.iter().map(|&(x, y)| Invader { x, y }).collect(),
        move_timer: Timer::new(move_ms),
        direction,
        bounds: vec![bounds.0, bounds.1],
    }
}

#[test]
fn new_formation_follows_the_lattice_rule() {
    let inv = Invaders::new(&vec![12, 12]);
    // Even columns past the margin (1 < x, x + 2 < 12) and even rows in the
    // upper band (0 < y, y + 2 < 12 / 2).
    assert_eq!(positions(&inv), vec![(2, 2), (4, 2), (6, 2), (8, 2)]);
    assert_eq!(inv.direction, 1);
    assert_eq!(inv.move_timer.duration_ms, 2000);
}

#[test]
fn update_before_ready_moves_nothing() {
    let mut inv = Invaders::new(&vec![12, 12]);
    inv.update(1999);
    assert_eq!(positions(&inv), vec![(2, 2), (4, 2), (6, 2), (8, 2)]);
    assert_eq!(inv.move_timer.elapsed_ms, 1999);
}

#[test]
fn update_on_ready_steps_sideways() {
    let mut inv = Invaders::new(&vec![12, 12]);
    inv.update(2000);
    assert_eq!(positions(&inv), vec![(3, 2), (5, 2), (7, 2), (9, 2)]);
    assert_eq!(inv.direction, 1);
    // The timer restarted at the same pace: no bound was touched.
    assert_eq!(inv.move_timer.duration_ms, 2000);
    assert_eq!(inv.move_timer.elapsed_ms, 0);
}

#[test]
fn left_bound_flips_direction_and_descends() {
    let mut inv = formation(&[(0, 3), (2, 3), (4, 3)], -1, 1000, (10, 10));
    inv.update(1000);
    // The minimum x reached 0: direction flips to +1 and every enemy moves
    // one row down instead of sideways.
    assert_eq!(inv.direction, 1);
    assert_eq!(positions(&inv), vec![(0, 4), (2, 4), (4, 4)]);
    // The move duration shrank by one step.
    assert_eq!(inv.move_timer.duration_ms, 750);
    assert_eq!(inv.move_timer.elapsed_ms, 0);
}

#[test]
fn right_bound_flips_direction_and_descends() {
    let mut inv = formation(&[(7, 1), (9, 1)], 1, 2000, (10, 10));
    inv.update(2000);
    assert_eq!(inv.direction, -1);
    assert_eq!(positions(&inv), vec![(7, 2), (9, 2)]);
    assert_eq!(inv.move_timer.duration_ms, 1750);
}

#[test]
fn speedup_never_drops_below_the_floor() {
    let mut inv = formation(&[(0, 1)], -1, 400, (10, 10));
    inv.update(400);
    // 400 - 250 would fall under the floor: the duration clamps to 250.
    assert_eq!(inv.move_timer.duration_ms, 250);
    let mut again = formation(&[(0, 1)], -1, 250, (10, 10));
    again.update(250);
    assert_eq!(again.move_timer.duration_ms, 250);
}

#[test]
fn kill_invader_at_removes_only_an_exact_match() {
    let mut inv = formation(&[(2, 2), (4, 2)], 1, 2000, (10, 10));
    assert!(!inv.kill_invader_at(3, 2));
    assert_eq!(inv.army.len(), 2);
    assert!(inv.kill_invader_at(4, 2));
    assert_eq!(positions(&inv), vec![(2, 2)]);
    // A second kill at the same spot finds nothing.
    assert!(!inv.kill_invader_at(4, 2));
}

#[test]
fn all_killed_exactly_when_empty() {
    let mut inv = formation(&[(2, 2)], 1, 2000, (10, 10));
    assert!(!inv.all_killed());
    assert!(inv.kill_invader_at(2, 2));
    assert!(inv.all_killed());
}

#[test]
fn reached_bottom_exactly_at_the_last_row() {
    let inv = formation(&[(2, 7), (4, 8)], 1, 2000, (10, 10));
    assert!(!inv.reached_bottom());
    let low = formation(&[(2, 7), (4, 9)], 1, 2000, (10, 10));
    assert!(low.reached_bottom());
    // An empty formation has reached nothing.
    let empty = formation(&[], 1, 2000, (10, 10));
    assert!(!empty.reached_bottom());
    assert!(empty.all_killed());
}
