use terminal_invaders::player::Player;
use terminal_invaders::shot::Shot;
use terminal_invaders::NUM_SHOTS;

fn field(w: u16, h: u16) -> Vec<u16> {
    vec![w, h]
}

#[test]
fn new_player_starts_center_bottom() {
    let p = Player::new(&field(20, 10));
    assert_eq!(p.x, 10);
    assert_eq!(p.y, 9);
    assert!(p.shots.is_empty());
}

#[test]
fn moves_clamp_to_field() {
    let dims = field(3, 8);
    let mut p = Player::new(&dims);
    assert_eq!((p.x, p.y), (1, 7));
    p.move_left();
    assert_eq!(p.x, 0);
    // At the left bound the move is a silent no-op.
    p.move_left();
    assert_eq!(p.x, 0);
    p.move_right();
    p.move_right();
    assert_eq!(p.x, 2);
    // At the right bound (width - 1) the move is a silent no-op.
    p.move_right();
    assert_eq!(p.x, 2);
    p.move_down();
    assert_eq!(p.y, 7);
}

#[test]
fn vertical_movement_stops_at_midpoint() {
    let mut p = Player::new(&field(10, 8));
    assert_eq!(p.y, 7);
    p.move_up();
    p.move_up();
    p.move_up();
    assert_eq!(p.y, 4);
    // The ship never rises above the midpoint of the vertical bound.
    p.move_up();
    assert_eq!(p.y, 4);
    p.move_down();
    p.move_down();
    p.move_down();
    assert_eq!(p.y, 7);
    p.move_down();
    assert_eq!(p.y, 7);
}

#[test]
fn shoot_spawns_at_muzzle() {
    let mut p = Player::new(&field(10, 8));
    p.shoot();
    assert_eq!(p.shots.len(), 1);
    assert_eq!((p.shots[0].x, p.shots[0].y), (5, 6));
    assert!(!p.shots[0].exploding);
}

#[test]
fn shoot_never_exceeds_capacity() {
    let mut p = Player::new(&field(10, 8));
    for _ in 0..25 {
        p.shoot();
    }
    assert_eq!(p.shots.len(), NUM_SHOTS);
    // Further fire requests are silent no-ops, however often repeated.
    p.shoot();
    assert_eq!(p.shots.len(), NUM_SHOTS);
}

#[test]
fn update_moves_shots_and_discards_dead_ones() {
    let mut p = Player::new(&field(10, 8));
    p.shots.push(Shot::new(1, 1));
    p.shots.push(Shot::new(2, 5));
    p.update(50);
    // The first shot crossed the top boundary and was removed; the second
    // moved one cell up and survives.
    assert_eq!(p.shots.len(), 1);
    assert_eq!((p.shots[0].x, p.shots[0].y), (2, 4));
}

#[test]
fn update_removes_finished_explosions() {
    let mut p = Player::new(&field(10, 8));
    let mut s = Shot::new(3, 4);
    s.explode();
    p.shots.push(s);
    p.shots.push(Shot::new(4, 4));
    p.update(250);
    // The explosion ran out its 250 ms display and was removed; the flying
    // shot merely moved.
    assert_eq!(p.shots.len(), 1);
    assert_eq!((p.shots[0].x, p.shots[0].y), (4, 3));
    assert!(!p.shots[0].exploding);
}
