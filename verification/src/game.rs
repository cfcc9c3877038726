use vstd::prelude::*;

use crate::frame::frame_dims;
use crate::frame::new_frame;
use crate::frame::Drawable;
use crate::frame::Frame;
use crate::invaders::spawn_here;
use crate::invaders::Invaders;
use crate::overlay::Overlay;
use crate::player::resolve_hits;
use crate::player::shots_after_update;
use crate::player::Player;
use crate::timer::Timer;
use crate::NUM_SHOTS;

verus! {

/// A discrete input event the simulation reacts to. Quitting is the
/// orchestrator's business and never reaches the simulation.
#[derive(Clone, Copy, PartialEq, Eq, Structural, Debug)]
pub enum Key {
    Left,
    Right,
    Up,
    Down,
    Fire,
}

/// The session outcome reported after a tick: still playing, won once the
/// formation is cleared, lost once it reached the bottom.
#[derive(Clone, Copy, PartialEq, Eq, Structural, Debug)]
pub enum GameStatus {
    Playing,
    Won,
    Lost,
}

/// The whole simulation state of one session: the player, the enemy
/// formation, and the fixed play-field dimensions captured at startup.
pub struct Game {
    pub player: Player,
    pub invaders: Invaders,
    pub dimensions: Vec<u16>,
}

impl Game {
    /// Well-formedness: a positive play field at least two rows tall, both
    /// entities well-formed and bounded by the same field.
    pub open spec fn wf(self) -> bool {
        &&& self.dimensions@.len() == 2
        &&& self.dimensions@[0] >= 1
        &&& self.dimensions@[1] >= 2
        &&& self.player.wf()
        &&& self.invaders.wf()
        &&& self.player.bounds@ == self.dimensions@
        &&& self.invaders.bounds@ == self.dimensions@
    }

    /// Creates a fresh session: the player centered on the bottom row with
    /// no shots, and the formation populated by the lattice placement rule,
    /// moving rightward at the initial pace.
    pub fn new(dimensions: &Vec<u16>) -> (g: Game)
        requires
            dimensions@.len() == 2,
            dimensions@[0] >= 1,
            dimensions@[1] >= 2,
        ensures
            g.wf(),
            g.dimensions@ == dimensions@,
            g.player.x == dimensions@[0] / 2,
            g.player.y == dimensions@[1] - 1,
            g.player.shots@.len() == 0,
            g.invaders.direction == 1,
            g.invaders.move_timer == (Timer {
                duration_ms: crate::invaders::INITIAL_MOVE_MS,
                elapsed_ms: 0u64,
            }),
            forall|k: int|
                0 <= k < g.invaders.army@.len() ==> spawn_here(
                    dimensions@,
                    (#[trigger] g.invaders.army@[k]).x,
                    g.invaders.army@[k].y,
                ),
            forall|a: u16, b: u16|
                #[trigger] spawn_here(dimensions@, a, b) ==> exists|k: int|
                    0 <= k < g.invaders.army@.len() && g.invaders.army@[k] == (
                    crate::invaders::Invader { x: a, y: b }),
    {
        Game {
            player: Player::new(dimensions),
            invaders: Invaders::new(dimensions),
            dimensions: dimensions.clone(),
        }
    }

    /// Applies one input event to the player: the four moves clamp to the
    /// field (vertically to its lower half), fire appends a shot unless the
    /// pool is at capacity. The formation is untouched.
    pub fn handle_key(&mut self, key: Key)
        requires
            old(self).wf(),
        ensures
            final(self).wf(),
            final(self).dimensions@ == old(self).dimensions@,
            final(self).invaders == old(self).invaders,
            match key {
                Key::Left => final(self).player == old(self).player.spec_move_left(),
                Key::Right => final(self).player == old(self).player.spec_move_right(),
                Key::Up => final(self).player == old(self).player.spec_move_up(),
                Key::Down => final(self).player == old(self).player.spec_move_down(),
                Key::Fire => {
                    &&& final(self).player.x == old(self).player.x
                    &&& final(self).player.y == old(self).player.y
                    &&& final(self).player.bounds@ == old(self).player.bounds@
                    &&& final(self).player.shots@ == if old(self).player.shots@.len()
                        < NUM_SHOTS {
                        old(self).player.shots@.push(
                            crate::shot::Shot::spec_new(
                                old(self).player.x,
                                (old(self).player.y - 1) as u16,
                            ),
                        )
                    } else {
                        old(self).player.shots@
                    }
                },
            },
    {
        match key {
            Key::Left => self.player.move_left(),
            Key::Right => self.player.move_right(),
            Key::Up => self.player.move_up(),
            Key::Down => self.player.move_down(),
            Key::Fire => self.player.shoot(),
        }
    }

    /// Advances the whole simulation by one tick of `delta_ms` elapsed
    /// wall-clock milliseconds: the player's shots move and expire, the
    /// formation moves, this tick's collisions are resolved in shot-pool
    /// order, and the session outcome is reported — won once the formation
    /// is cleared, lost once it reached the bottom, still playing otherwise.
    /// Callable while the formation has not reached the bottom; the
    /// orchestrator ends the session on any other outcome.
    pub fn tick(&mut self, delta_ms: u64) -> (status: GameStatus)
        requires
            old(self).wf(),
            !old(self).invaders.spec_reached_bottom(),
        ensures
            final(self).wf(),
            final(self).dimensions@ == old(self).dimensions@,
            final(self).player.x == old(self).player.x,
            final(self).player.y == old(self).player.y,
            ({
                let shots1 = shots_after_update(old(self).player.shots@, delta_ms);
                let army1 = Invaders::army_after(old(self).invaders, delta_ms);
                let r = resolve_hits(shots1, army1);
                &&& final(self).player.shots@ == r.0
                &&& final(self).invaders.army@ == r.1
                &&& final(self).invaders.direction == Invaders::direction_after(
                    old(self).invaders,
                    delta_ms,
                )
                &&& final(self).invaders.move_timer == Invaders::timer_after(
                    old(self).invaders,
                    delta_ms,
                )
            }),
            status == (if final(self).invaders.spec_all_killed() {
                GameStatus::Won
            } else if final(self).invaders.spec_reached_bottom() {
                GameStatus::Lost
            } else {
                GameStatus::Playing
            }),
            status == GameStatus::Playing ==> !final(self).invaders.spec_reached_bottom(),
    {
        self.player.update(delta_ms);
        self.invaders.update(delta_ms);
        self.player.detect_hit(&mut self.invaders);
        if self.invaders.all_killed() {
            GameStatus::Won
        } else if self.invaders.reached_bottom() {
            GameStatus::Lost
        } else {
            GameStatus::Playing
        }
    }

    /// Builds this tick's frame: a freshly blanked canvas with the player
    /// (ship, then shots) painted first and the formation painted over it;
    /// with the optional diagnostic overlay enabled, its two lines win the
    /// top-left cells. No entity state changes.
    pub fn draw_frame(&self, overlay: Option<&Overlay>) -> (f: Frame)
        requires
            self.wf(),
            match overlay {
                Some(o) => o.wf(),
                None => true,
            },
        ensures
            frame_dims(f@, self.dimensions@[0] as int, self.dimensions@[1] as int),
            forall|i: int, j: int|
                #![auto]
                0 <= i < self.dimensions@[0] && 0 <= j < self.dimensions@[1] ==> f@[i]@[j]@ == (
                match overlay {
                    Some(o) if o.covers(i, j) => o.glyph_at(i, j),
                    _ => if self.invaders.covers(i, j) {
                        self.invaders.glyph_at(i, j)
                    } else if self.player.covers(i, j) {
                        self.player.glyph_at(i, j)
                    } else {
                        " "@
                    },
                }),
    {
        let mut f = new_frame(&self.dimensions);
        self.player.draw(&mut f);
        self.invaders.draw(&mut f);
        if let Some(o) = overlay {
            o.draw(&mut f);
        }
        f
    }
}

} // verus!
