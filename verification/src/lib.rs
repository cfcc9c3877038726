//! Simulation and rendering core of a terminal arcade game: a player ship
//! fires projectiles at a descending, horizontally oscillating formation of
//! enemies. The library holds the verified game logic — timers, entity
//! movement, collision resolution, frame construction and frame diffing —
//! while terminal I/O, input polling and thread plumbing live outside it.

use vstd::prelude::*;

pub mod frame;
pub mod game;
pub mod invaders;
pub mod overlay;
pub mod player;
pub mod render;
pub mod shot;
pub mod timer;

verus! {

/// Capacity of the player's projectile pool. `Player::shoot` refuses to fire
/// while the pool already holds this many projectiles (strict `<` policy:
/// the pool never exceeds `NUM_SHOTS` entries).
pub const NUM_SHOTS: usize = 9;

} // verus!
