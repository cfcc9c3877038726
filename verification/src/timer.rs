use vstd::prelude::*;

verus! {

/// A countdown driving periodic state changes. It accumulates elapsed
/// milliseconds through `advance` and reports ready once the accumulated
/// time reaches the configured duration. Because elapsed time only grows
/// between resets, readiness stays latched until `reset` or `rearm`.
#[derive(Clone, Copy, PartialEq, Eq, Structural, Debug)]
pub struct Timer {
    /// The configured duration, in milliseconds.
    pub duration_ms: u64,
    /// Milliseconds accumulated since the last reset.
    pub elapsed_ms: u64,
}

impl Timer {
    /// The timer has counted down: accumulated time reached the duration.
    pub open spec fn ready(self) -> bool {
        self.elapsed_ms >= self.duration_ms
    }

    /// Milliseconds still to run before the timer is ready.
    pub open spec fn time_left(self) -> u64 {
        if self.elapsed_ms >= self.duration_ms {
            0u64
        } else {
            (self.duration_ms - self.elapsed_ms) as u64
        }
    }

    /// The timer state after `advance(delta_ms)`: elapsed time grows by the
    /// delta, saturating at the largest representable value.
    pub open spec fn advanced(self, delta_ms: u64) -> Timer {
        Timer {
            duration_ms: self.duration_ms,
            elapsed_ms: if self.elapsed_ms + delta_ms > u64::MAX {
                u64::MAX
            } else {
                (self.elapsed_ms + delta_ms) as u64
            },
        }
    }

    /// A fresh timer: nothing elapsed yet, not ready (for a positive duration).
    pub fn new(duration_ms: u64) -> (t: Timer)
        ensures
            t == (Timer { duration_ms, elapsed_ms: 0u64 }),
    {
        Timer { duration_ms, elapsed_ms: 0 }
    }

    /// Accumulates elapsed time; once the total reaches the configured
    /// duration the timer is ready and stays so until a reset.
    pub fn advance(&mut self, delta_ms: u64)
        ensures
            *final(self) == old(self).advanced(delta_ms),
    {
        if delta_ms > u64::MAX - self.elapsed_ms {
            self.elapsed_ms = u64::MAX;
        } else {
            self.elapsed_ms = self.elapsed_ms + delta_ms;
        }
    }

    /// Zeroes the elapsed time, clearing readiness (for a positive duration).
    pub fn reset(&mut self)
        ensures
            *final(self) == (Timer { duration_ms: old(self).duration_ms, elapsed_ms: 0u64 }),
    {
        self.elapsed_ms = 0;
    }

    /// Replaces the configured duration and starts counting afresh; the next
    /// `advance` compares against the new duration.
    pub fn rearm(&mut self, duration_ms: u64)
        ensures
            *final(self) == (Timer { duration_ms, elapsed_ms: 0u64 }),
    {
        self.duration_ms = duration_ms;
        self.elapsed_ms = 0;
    }

    /// Whether the timer has counted down.
    pub fn is_ready(&self) -> (r: bool)
        ensures
            r == self.ready(),
    {
        self.elapsed_ms >= self.duration_ms
    }

    /// True while more than half of the configured duration is still left.
    /// Entities use this to alternate their appearance in step with their
    /// timer phase without altering the timer itself.
    pub fn in_first_half(&self) -> (r: bool)
        ensures
            r == (2 * self.time_left() > self.duration_ms),
    {
        let left: u64 = if self.elapsed_ms >= self.duration_ms {
            0
        } else {
            self.duration_ms - self.elapsed_ms
        };
        self.duration_ms - left < left
    }
}

} // verus!
