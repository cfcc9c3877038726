use vstd::prelude::*;

use crate::frame::Drawable;
use crate::frame::Frame;
use crate::timer::Timer;

verus! {

/// Milliseconds between two refreshes of the overlay text.
pub const OVERLAY_REFRESH_MS: u64 = 100;

/// An optional diagnostic text layer: two lines refreshed on their own
/// timer and drawn into fixed top-left cells, painting over whatever was
/// there (the overlay wins when enabled; it is strictly diagnostic). The
/// caller supplies freshly computed text; the overlay decides only whether
/// the refresh is due yet.
pub struct Overlay {
    pub timer: Timer,
    pub lines: Vec<String>,
}

impl Overlay {
    /// Well-formedness: exactly two lines of text.
    pub open spec fn wf(self) -> bool {
        self.lines@.len() == 2
    }

    /// Creates a new overlay with blank lines, paced at the refresh rate.
    pub fn new() -> (o: Overlay)
        ensures
            o.wf(),
            o.timer == (Timer { duration_ms: OVERLAY_REFRESH_MS, elapsed_ms: 0u64 }),
            o.lines@[0]@ == " "@,
            o.lines@[1]@ == " "@,
    {
        let mut lines: Vec<String> = Vec::new();
        lines.push(" ".to_owned());
        lines.push(" ".to_owned());
        Overlay { timer: Timer::new(OVERLAY_REFRESH_MS), lines }
    }

    /// Advances the refresh timer; once it is ready the freshly computed
    /// lines replace the shown ones and the timer restarts; otherwise the
    /// previous text is retained.
    pub fn update(&mut self, delta_ms: u64, line0: String, line1: String)
        requires
            old(self).wf(),
        ensures
            final(self).wf(),
            ({
                let t = old(self).timer.advanced(delta_ms);
                if t.ready() {
                    &&& final(self).timer == (Timer {
                        duration_ms: t.duration_ms,
                        elapsed_ms: 0u64,
                    })
                    &&& final(self).lines@[0] == line0
                    &&& final(self).lines@[1] == line1
                } else {
                    &&& final(self).timer == t
                    &&& final(self).lines@ == old(self).lines@
                }
            }),
    {
        self.timer.advance(delta_ms);
        if self.timer.is_ready() {
            self.lines[0] = line0;
            self.lines[1] = line1;
            self.timer.reset();
        }
    }
}

impl Drawable for Overlay {
    open spec fn covers(&self, i: int, j: int) -> bool {
        i == 0 && (j == 0 || j == 1)
    }

    open spec fn glyph_at(&self, i: int, j: int) -> Seq<char> {
        if j == 0 {
            self.lines@[0]@
        } else {
            self.lines@[1]@
        }
    }

    open spec fn fits(&self, f: Seq<Vec<String>>) -> bool {
        &&& self.wf()
        &&& f.len() >= 1
        &&& f[0]@.len() >= 2
    }

    /// Paints the two diagnostic lines into the fixed top-left cells.
    fn draw(&self, frame: &mut Frame) {
        let line0: String = self.lines[0].clone();
        let line1: String = self.lines[1].clone();
        let col: &mut Vec<String> = &mut frame[0];
        col[0] = line0;
        col[1] = line1;
    }
}

} // verus!
