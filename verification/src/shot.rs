use vstd::prelude::*;

use crate::frame::Drawable;
use crate::frame::Frame;
use crate::timer::Timer;

verus! {

/// Milliseconds between two movement ticks of a flying shot.
pub const FLIGHT_TICK_MS: u64 = 50;

/// Milliseconds an explosion stays on screen before the shot dies; longer
/// than the flight tick so the burst is visible.
pub const EXPLOSION_DISPLAY_MS: u64 = 250;

/// A single fired round. It starts flying at the firer's muzzle, climbs one
/// cell per timer tick, turns exploding on impact (its timer re-armed to the
/// explosion display duration), and counts as dead once it crossed the top
/// boundary while flying or its explosion timer has run out.
#[derive(Clone, Copy, PartialEq, Eq, Structural, Debug)]
pub struct Shot {
    pub x: u16,
    pub y: u16,
    pub exploding: bool,
    pub timer: Timer,
}

impl Shot {
    /// A freshly fired shot at `(x, y)`: flying, paced at the flight tick.
    pub open spec fn spec_new(x: u16, y: u16) -> Shot {
        Shot { x, y, exploding: false, timer: Timer { duration_ms: FLIGHT_TICK_MS, elapsed_ms: 0u64 } }
    }

    /// The shot after `update(delta_ms)`: the timer advances; on a ready tick
    /// a flying shot moves one cell toward the top (stopping at row zero) and
    /// its timer restarts; an exploding shot only lets its timer run.
    pub open spec fn stepped(self, delta_ms: u64) -> Shot {
        let t = self.timer.advanced(delta_ms);
        if t.ready() && !self.exploding {
            Shot {
                y: if self.y > 0 { (self.y - 1) as u16 } else { 0u16 },
                timer: Timer { duration_ms: t.duration_ms, elapsed_ms: 0u64 },
                ..self
            }
        } else {
            Shot { timer: t, ..self }
        }
    }

    /// The shot after `explode`: marked exploding, its timer re-armed to the
    /// longer explosion display duration.
    pub open spec fn spec_exploded(self) -> Shot {
        Shot {
            exploding: true,
            timer: Timer { duration_ms: EXPLOSION_DISPLAY_MS, elapsed_ms: 0u64 },
            ..self
        }
    }

    /// The shot no longer matters: it reached the top boundary, or it is
    /// exploding and its re-armed timer has run out.
    pub open spec fn spec_died(self) -> bool {
        self.y == 0 || (self.exploding && self.timer.ready())
    }

    /// The shot's appearance: a burst while exploding, a pellet in flight.
    pub open spec fn glyph(self) -> Seq<char> {
        if self.exploding {
            "◉"@
        } else {
            "◦"@
        }
    }

    /// Creates a new flying shot at the given position.
    pub fn new(x: u16, y: u16) -> (s: Shot)
        ensures
            s == Shot::spec_new(x, y),
    {
        Shot { x, y, exploding: false, timer: Timer::new(FLIGHT_TICK_MS) }
    }

    /// Advances the shot's timer and, on a ready tick, moves a flying shot
    /// one cell toward the top boundary.
    pub fn update(&mut self, delta_ms: u64)
        ensures
            *final(self) == old(self).stepped(delta_ms),
    {
        self.timer.advance(delta_ms);
        if self.timer.is_ready() && !self.exploding {
            if self.y > 0 {
                self.y = self.y - 1;
            }
            self.timer.reset();
        }
    }

    /// Turns the shot into an explosion and re-arms its timer to the longer
    /// explosion display duration.
    pub fn explode(&mut self)
        ensures
            *final(self) == old(self).spec_exploded(),
    {
        self.exploding = true;
        self.timer.rearm(EXPLOSION_DISPLAY_MS);
    }

    /// Whether the shot died: it crossed the top boundary while flying, or
    /// its explosion has been shown for the full display duration. A pure
    /// query; the owning player removes dead shots on its own update.
    pub fn died(&self) -> (r: bool)
        ensures
            r == self.spec_died(),
    {
        let out_of_bounds = self.y == 0;
        let done_exploding = self.exploding && self.timer.is_ready();
        out_of_bounds || done_exploding
    }
}

impl Drawable for Shot {
    open spec fn covers(&self, i: int, j: int) -> bool {
        i == self.x && j == self.y
    }

    open spec fn glyph_at(&self, i: int, j: int) -> Seq<char> {
        self.glyph()
    }

    open spec fn fits(&self, f: Seq<Vec<String>>) -> bool {
        self.x < f.len() && self.y < f[self.x as int]@.len()
    }

    /// Paints the shot's glyph into its cell.
    fn draw(&self, frame: &mut Frame) {
        let glyph: &str = if self.exploding {
            "◉"
        } else {
            "◦"
        };
        let col: &mut Vec<String> = &mut frame[self.x as usize];
        col[self.y as usize] = glyph.to_owned();
    }
}

} // verus!
