use terminal_invaders::game::Game;
use terminal_invaders::game::GameStatus;
use terminal_invaders::game::Key;
use terminal_invaders::invaders::Invader;
use terminal_invaders::invaders::Invaders;
use terminal_invaders::player::Player;
use terminal_invaders::shot::Shot;
use terminal_invaders::timer::Timer;

fn positions(inv: &Invaders) -> Vec<(u16, u16)> {
    inv.army.iter().map(|v| (v.x, v.y)).collect()
}

#[test]
fn detect_hit_removes_the_enemy_and_explodes_the_shot() {
    let bounds = vec![10u16, 10u16];
    let mut player = Player::new(&bounds);
    player.shots.push(Shot::new(3, 4));
    let mut invaders = Invaders {
        army: vec![Invader { x: 3, y: 4 }, Invader { x: 5, y: 4 }],
        move_timer: Timer::new(2000),
        direction: 1,
        bounds: bounds.clone(),
    };
    player.detect_hit(&mut invaders);
    // The enemy at (3, 4) is gone: a later kill there finds nothing.
    assert_eq!(positions(&invaders), vec![(5, 4)]);
    assert!(!invaders.kill_invader_at(3, 4));
    // The shot that hit is now exploding.
    assert!(player.shots[0].exploding);
}

#[test]
fn an_exploding_shot_hits_nothing() {
    let bounds = vec![10u16, 10u16];
    let mut player = Player::new(&bounds);
    let mut s = Shot::new(3, 4);
    s.explode();
    player.shots.push(s);
    let mut invaders = Invaders {
        army: vec![Invader { x: 3, y: 4 }],
        move_timer: Timer::new(2000),
        direction: 1,
        bounds: bounds.clone(),
    };
    player.detect_hit(&mut invaders);
    assert_eq!(invaders.army.len(), 1);
}

#[test]
fn one_hit_per_enemy_within_a_tick() {
    let bounds = vec![10u16, 10u16];
    let mut player = Player::new(&bounds);
    // Two flying shots share a cell with a single enemy: the first (in pool
    // order) takes the kill, the second finds the cell already empty.
    player.shots.push(Shot::new(4, 4));
    player.shots.push(Shot::new(4, 4));
    let mut invaders = Invaders {
        army: vec![Invader { x: 4, y: 4 }],
        move_timer: Timer::new(2000),
        direction: 1,
        bounds: bounds.clone(),
    };
    player.detect_hit(&mut invaders);
    assert!(invaders.army.is_empty());
    assert!(player.shots[0].exploding);
    assert!(!player.shots[1].exploding);
}

#[test]
fn keys_steer_the_player() {
    let mut g = Game::new(&vec![12u16, 12u16]);
    assert_eq!((g.player.x, g.player.y), (6, 11));
    g.handle_key(Key::Left);
    assert_eq!(g.player.x, 5);
    g.handle_key(Key::Right);
    g.handle_key(Key::Right);
    assert_eq!(g.player.x, 7);
    g.handle_key(Key::Up);
    assert_eq!(g.player.y, 10);
    g.handle_key(Key::Down);
    assert_eq!(g.player.y, 11);
    g.handle_key(Key::Fire);
    assert_eq!(g.player.shots.len(), 1);
    assert_eq!((g.player.shots[0].x, g.player.shots[0].y), (7, 10));
}

#[test]
fn fired_shot_kills_exactly_one_enemy() {
    // Full starting state: a populated formation, the player center-bottom
    // with an empty pool.
    let mut g = Game::new(&vec![12u16, 12u16]);
    assert_eq!(positions(&g.invaders), vec![(2, 2), (4, 2), (6, 2), (8, 2)]);
    assert_eq!((g.player.x, g.player.y), (6, 11));
    assert!(g.player.shots.is_empty());

    // Fire once and run ticks until the shot reaches the enemy cell (6, 2):
    // eight flight ticks of 50 ms, far less than the 2000 ms formation pace.
    g.handle_key(Key::Fire);
    assert_eq!((g.player.shots[0].x, g.player.shots[0].y), (6, 10));
    let mut hits = 0;
    for _ in 0..8 {
        let status = g.tick(50);
        assert!(matches!(status, GameStatus::Playing));
        if g.invaders.army.len() == 3 {
            hits += 1;
        }
    }
    // The enemy count decreased by exactly one, the other enemies are
    // untouched, and the shot is exploding on the spot.
    assert_eq!(positions(&g.invaders), vec![(2, 2), (4, 2), (8, 2)]);
    assert!(hits >= 1);
    assert_eq!(g.player.shots.len(), 1);
    assert!(g.player.shots[0].exploding);
    assert_eq!((g.player.shots[0].x, g.player.shots[0].y), (6, 2));
}

#[test]
fn clearing_the_formation_wins() {
    let bounds = vec![10u16, 10u16];
    let mut g = Game::new(&bounds);
    g.invaders.army = vec![Invader { x: 5, y: 4 }];
    g.player.shots = vec![Shot::new(5, 5)];
    let status = g.tick(50);
    // The shot moved onto the last enemy and killed it.
    assert!(matches!(status, GameStatus::Won));
    assert!(g.invaders.all_killed());
}

#[test]
fn formation_reaching_the_bottom_loses() {
    let bounds = vec![10u16, 10u16];
    let mut g = Game::new(&bounds);
    // One enemy on the left bound, moving left, one descent away from the
    // bottom row.
    g.invaders.army = vec![Invader { x: 0, y: 8 }];
    g.invaders.direction = -1;
    g.invaders.move_timer = Timer::new(250);
    let status = g.tick(250);
    assert!(matches!(status, GameStatus::Lost));
    assert_eq!(positions(&g.invaders), vec![(0, 9)]);
}
