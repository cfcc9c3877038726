use vstd::prelude::*;

use crate::frame::Drawable;
use crate::frame::Frame;
use crate::timer::Timer;

verus! {

/// Milliseconds between two formation moves at the start of a session.
pub const INITIAL_MOVE_MS: u64 = 2000;

/// Each descent shortens the move duration by this step...
pub const SPEEDUP_STEP_MS: u64 = 250;

/// ...but never below this floor.
pub const MIN_MOVE_MS: u64 = 250;

/// A single enemy: a position moving in lock-step with its formation.
#[derive(Clone, Copy, PartialEq, Eq, Structural, Debug)]
pub struct Invader {
    pub x: u16,
    pub y: u16,
}

/// Index of the first enemy in `army` standing exactly at `(x, y)`.
pub open spec fn find_invader_at(army: Seq<Invader>, x: u16, y: u16) -> Option<int>
    decreases army.len(),
{
    if army.len() == 0 {
        None
    } else if army[0].x == x && army[0].y == y {
        Some(0int)
    } else {
        match find_invader_at(army.drop_first(), x, y) {
            None => None,
            Some(i) => Some(i + 1),
        }
    }
}

/// The deterministic placement rule for a fresh formation: a lattice of
/// every other column and every other row inside a margin of the top-left
/// quadrant-and-a-bit of the field, leaving room for downward travel.
pub open spec fn spawn_here(dims: Seq<u16>, x: u16, y: u16) -> bool {
    &&& 1 < x
    &&& x + 2 < dims[0]
    &&& 0 < y
    &&& y + 2 < dims[1] / 2
    &&& x % 2 == 0
    &&& y % 2 == 0
}

/// The enemy formation: an army of enemies stepping sideways in lock-step on
/// each ready tick of a shared move timer, descending one row and reversing
/// direction whenever the extremal enemy touches a horizontal bound, and
/// speeding up on every descent.
pub struct Invaders {
    pub army: Vec<Invader>,
    pub move_timer: Timer,
    pub direction: i32,
    pub bounds: Vec<u16>,
}

impl Invaders {
    /// Well-formedness: two bounds, both positive, a unit direction, and
    /// every enemy inside the field.
    pub open spec fn wf(self) -> bool {
        &&& self.bounds@.len() == 2
        &&& self.bounds@[0] >= 1
        &&& self.bounds@[1] >= 1
        &&& (self.direction == 1 || self.direction == -1)
        &&& forall|k: int|
            0 <= k < self.army@.len() ==> (#[trigger] self.army@[k]).x < self.bounds@[0]
                && self.army@[k].y < self.bounds@[1]
    }

    /// Some enemy touches the left boundary.
    pub open spec fn at_left_bound(self) -> bool {
        exists|k: int| 0 <= k < self.army@.len() && (#[trigger] self.army@[k]).x == 0
    }

    /// Some enemy touches the right boundary.
    pub open spec fn at_right_bound(self) -> bool {
        exists|k: int|
            0 <= k < self.army@.len() && (#[trigger] self.army@[k]).x == self.bounds@[0] - 1
    }

    /// On its next ready tick the formation descends and reverses instead of
    /// stepping sideways: the extremal enemy in the direction of travel
    /// touches a horizontal bound. An empty formation touches no bound.
    pub open spec fn descend_next(self) -> bool {
        if self.direction == -1 {
            self.at_left_bound()
        } else {
            self.at_right_bound()
        }
    }

    /// The shortened move duration after a descent: one step faster, floored
    /// at the configured minimum (a clamp, never an unchecked subtraction).
    pub open spec fn spec_speedup(d: u64) -> u64 {
        if d >= SPEEDUP_STEP_MS + MIN_MOVE_MS {
            (d - SPEEDUP_STEP_MS) as u64
        } else {
            MIN_MOVE_MS
        }
    }

    /// All enemies are gone.
    pub open spec fn spec_all_killed(self) -> bool {
        self.army@.len() == 0
    }

    /// Some enemy's row reached the bottom boundary.
    pub open spec fn spec_reached_bottom(self) -> bool {
        exists|k: int|
            0 <= k < self.army@.len() && (#[trigger] self.army@[k]).y >= self.bounds@[1] - 1
    }

    /// The formation's appearance, alternating with the phase of its shared
    /// move timer.
    pub open spec fn glyph(self) -> Seq<char> {
        if 2 * self.move_timer.time_left() > self.move_timer.duration_ms {
            "■"@
        } else {
            "□"@
        }
    }

    /// The army after one `update` tick: unchanged while the timer is not
    /// ready; every enemy one row down on a descent; every enemy one cell
    /// sideways otherwise.
    pub open spec fn army_after(pre: Invaders, delta_ms: u64) -> Seq<Invader> {
        let t = pre.move_timer.advanced(delta_ms);
        if !t.ready() {
            pre.army@
        } else if pre.descend_next() {
            pre.army@.map_values(|v: Invader| Invader { x: v.x, y: (v.y + 1) as u16 })
        } else {
            pre.army@.map_values(|v: Invader| Invader { x: (v.x + pre.direction) as u16, y: v.y })
        }
    }

    /// The direction after one `update` tick: reversed exactly by a descent.
    pub open spec fn direction_after(pre: Invaders, delta_ms: u64) -> int {
        let t = pre.move_timer.advanced(delta_ms);
        if t.ready() && pre.descend_next() {
            -pre.direction
        } else {
            pre.direction as int
        }
    }

    /// The move timer after one `update` tick: advanced while not ready;
    /// restarted on a ready tick, with a shortened duration on a descent.
    pub open spec fn timer_after(pre: Invaders, delta_ms: u64) -> Timer {
        let t = pre.move_timer.advanced(delta_ms);
        if !t.ready() {
            t
        } else if pre.descend_next() {
            Timer { duration_ms: Invaders::spec_speedup(t.duration_ms), elapsed_ms: 0u64 }
        } else {
            Timer { duration_ms: t.duration_ms, elapsed_ms: 0u64 }
        }
    }

    /// Creates a new formation within the given dimensions, populated by the
    /// deterministic lattice placement rule, moving rightward, paced at the
    /// initial move duration.
    pub fn new(dimensions: &Vec<u16>) -> (inv: Invaders)
        requires
            dimensions@.len() == 2,
            dimensions@[0] >= 1,
            dimensions@[1] >= 1,
        ensures
            inv.wf(),
            inv.bounds@ == dimensions@,
            inv.direction == 1,
            inv.move_timer == (Timer { duration_ms: INITIAL_MOVE_MS, elapsed_ms: 0u64 }),
            forall|k: int|
                0 <= k < inv.army@.len() ==> spawn_here(
                    dimensions@,
                    (#[trigger] inv.army@[k]).x,
                    inv.army@[k].y,
                ),
            forall|a: u16, b: u16|
                #[trigger] spawn_here(dimensions@, a, b) ==> exists|k: int|
                    0 <= k < inv.army@.len() && inv.army@[k] == (Invader { x: a, y: b }),
            forall|k1: int, k2: int|
                0 <= k1 < k2 < inv.army@.len() ==> ((#[trigger] inv.army@[k1]).x
                    < (#[trigger] inv.army@[k2]).x || (inv.army@[k1].x == inv.army@[k2].x
                    && inv.army@[k1].y < inv.army@[k2].y)),
    {
        let dim_x: u16 = dimensions[0];
        let dim_y: u16 = dimensions[1];
        let mut army: Vec<Invader> = Vec::new();
        let mut x: u16 = 0;
        while x < dim_x
            invariant
                dimensions@.len() == 2,
                dim_x == dimensions@[0],
                dim_y == dimensions@[1],
                x <= dim_x,
                forall|k: int|
                    0 <= k < army@.len() ==> spawn_here(
                        dimensions@,
                        (#[trigger] army@[k]).x,
                        army@[k].y,
                    ),
                forall|k: int| 0 <= k < army@.len() ==> (#[trigger] army@[k]).x < x,
                forall|a: u16, b: u16|
                    a < x && #[trigger] spawn_here(dimensions@, a, b) ==> exists|k: int|
                        0 <= k < army@.len() && army@[k] == (Invader { x: a, y: b }),
                forall|k1: int, k2: int|
                    0 <= k1 < k2 < army@.len() ==> ((#[trigger] army@[k1]).x
                        < (#[trigger] army@[k2]).x || (army@[k1].x == army@[k2].x
                        && army@[k1].y < army@[k2].y)),
            decreases dim_x - x,
        {
            let mut y: u16 = 0;
            while y < dim_y
                invariant
                    dimensions@.len() == 2,
                    dim_x == dimensions@[0],
                    dim_y == dimensions@[1],
                    x < dim_x,
                    y <= dim_y,
                    forall|k: int|
                        0 <= k < army@.len() ==> spawn_here(
                            dimensions@,
                            (#[trigger] army@[k]).x,
                            army@[k].y,
                        ),
                    forall|k: int|
                        0 <= k < army@.len() ==> ((#[trigger] army@[k]).x < x || (army@[k].x == x
                            && army@[k].y < y)),
                    forall|a: u16, b: u16|
                        (a < x || (a == x && b < y)) && #[trigger] spawn_here(dimensions@, a, b)
                            ==> exists|k: int|
                            0 <= k < army@.len() && army@[k] == (Invader { x: a, y: b }),
                    forall|k1: int, k2: int|
                        0 <= k1 < k2 < army@.len() ==> ((#[trigger] army@[k1]).x
                            < (#[trigger] army@[k2]).x || (army@[k1].x == army@[k2].x
                            && army@[k1].y < army@[k2].y)),
                decreases dim_y - y,
            {
                let ghost army0 = army@;
                let hit: bool = x > 1 && (x as u32) + 2 < (dim_x as u32) && y > 0 && (y as u32)
                    + 2 < ((dim_y / 2) as u32) && x % 2 == 0 && y % 2 == 0;
                if hit {
                    army.push(Invader { x, y });
                }
                proof {
                    assert(hit == spawn_here(dimensions@, x, y));
                    assert(forall|k: int| 0 <= k < army0.len() ==> #[trigger] army@[k] == army0[k]);
                    assert forall|a: u16, b: u16|
                        (a < x || (a == x && b < y + 1)) && #[trigger] spawn_here(
                            dimensions@,
                            a,
                            b,
                        ) implies exists|k: int|
                        0 <= k < army@.len() && army@[k] == (Invader { x: a, y: b }) by {
                        if a == x && b == y {
                            assert(army@[army@.len() - 1] == (Invader { x: a, y: b }));
                        } else {
                            let k = choose|k: int|
                                0 <= k < army0.len() && army0[k] == (Invader { x: a, y: b });
                            assert(army@[k] == (Invader { x: a, y: b }));
                        }
                    }
                }
                y = y + 1;
            }
            proof {
                assert forall|a: u16, b: u16|
                    a < x + 1 && #[trigger] spawn_here(dimensions@, a, b) implies exists|k: int|
                    0 <= k < army@.len() && army@[k] == (Invader { x: a, y: b }) by {
                    assert(b + 2 < dimensions@[1] / 2);
                    assert(b < dim_y);
                }
            }
            x = x + 1;
        }
        proof {
            assert forall|a: u16, b: u16| #[trigger] spawn_here(dimensions@, a, b) implies exists|
                k: int,
            | 0 <= k < army@.len() && army@[k] == (Invader { x: a, y: b }) by {
                assert(a + 2 < dimensions@[0]);
                assert(a < dim_x);
            }
        }
        Invaders {
            army,
            move_timer: Timer::new(INITIAL_MOVE_MS),
            direction: 1,
            bounds: dimensions.clone(),
        }
    }

    /// The smallest x coordinate in the army, if any.
    fn min_x(army: &Vec<Invader>) -> (r: Option<u16>)
        ensures
            match r {
                None => army@.len() == 0,
                Some(m) => (exists|k: int| 0 <= k < army@.len() && (#[trigger] army@[k]).x == m)
                    && (forall|k: int| 0 <= k < army@.len() ==> (#[trigger] army@[k]).x >= m),
            },
    {
        if army.len() == 0 {
            return None;
        }
        let mut m: u16 = army[0].x;
        let mut k: usize = 1;
        while k < army.len()
            invariant
                1 <= k <= army@.len(),
                exists|j: int| 0 <= j < k && (#[trigger] army@[j]).x == m,
                forall|j: int| 0 <= j < k ==> (#[trigger] army@[j]).x >= m,
            decreases army@.len() - k,
        {
            if army[k].x < m {
                m = army[k].x;
            }
            k = k + 1;
        }
        Some(m)
    }

    /// The largest x coordinate in the army, if any.
    fn max_x(army: &Vec<Invader>) -> (r: Option<u16>)
        ensures
            match r {
                None => army@.len() == 0,
                Some(m) => (exists|k: int| 0 <= k < army@.len() && (#[trigger] army@[k]).x == m)
                    && (forall|k: int| 0 <= k < army@.len() ==> (#[trigger] army@[k]).x <= m),
            },
    {
        if army.len() == 0 {
            return None;
        }
        let mut m: u16 = army[0].x;
        let mut k: usize = 1;
        while k < army.len()
            invariant
                1 <= k <= army@.len(),
                exists|j: int| 0 <= j < k && (#[trigger] army@[j]).x == m,
                forall|j: int| 0 <= j < k ==> (#[trigger] army@[j]).x <= m,
            decreases army@.len() - k,
        {
            if army[k].x > m {
                m = army[k].x;
            }
            k = k + 1;
        }
        Some(m)
    }

    /// Advances the shared move timer; on a ready tick the whole army moves:
    /// a descent (one row down, direction reversed, the timer shortened)
    /// when the extremal enemy touches the bound in the direction of travel,
    /// a one-cell sideways step otherwise. The timer restarts either way.
    /// Callable while the formation has not reached the bottom; the
    /// orchestrator ends the session there.
    pub fn update(&mut self, delta_ms: u64)
        requires
            old(self).wf(),
            !old(self).spec_reached_bottom(),
        ensures
            final(self).wf(),
            final(self).bounds@ == old(self).bounds@,
            final(self).army@.len() == old(self).army@.len(),
            final(self).army@ == Invaders::army_after(*old(self), delta_ms),
            final(self).direction == Invaders::direction_after(*old(self), delta_ms),
            final(self).move_timer == Invaders::timer_after(*old(self), delta_ms),
    {
        self.move_timer.advance(delta_ms);
        if self.move_timer.is_ready() {
            self.move_timer.reset();
            let mut downwards: bool = false;

            // Decides whether a bound was touched, flipping direction if so.
            if self.direction == -1 {
                if let Some(m) = Self::min_x(&self.army) {
                    if m == 0 {
                        self.direction = 1;
                        downwards = true;
                    }
                }
                proof {
                    assert(downwards == old(self).descend_next());
                }
            } else {
                if let Some(m) = Self::max_x(&self.army) {
                    if m == self.bounds[0] - 1 {
                        self.direction = -1;
                        downwards = true;
                    }
                }
                proof {
                    assert(downwards == old(self).descend_next());
                }
            }

            if downwards {
                // Descends one row and speeds the pace up, with a floor.
                let d: u64 = self.move_timer.duration_ms;
                let nd: u64 = if d >= SPEEDUP_STEP_MS + MIN_MOVE_MS {
                    d - SPEEDUP_STEP_MS
                } else {
                    MIN_MOVE_MS
                };
                self.move_timer = Timer::new(nd);
                let mut k: usize = 0;
                while k < self.army.len()
                    invariant
                        old(self).wf(),
                        !old(self).spec_reached_bottom(),
                        k <= self.army@.len(),
                        self.army@.len() == old(self).army@.len(),
                        self.bounds@ == old(self).bounds@,
                        self.direction == -old(self).direction,
                        self.move_timer == (Timer {
                            duration_ms: Invaders::spec_speedup(
                                old(self).move_timer.advanced(delta_ms).duration_ms,
                            ),
                            elapsed_ms: 0u64,
                        }),
                        forall|j: int|
                            0 <= j < k ==> (#[trigger] self.army@[j]).x == old(self).army@[j].x
                                && self.army@[j].y == old(self).army@[j].y + 1,
                        forall|j: int|
                            k <= j < self.army@.len() ==> #[trigger] self.army@[j] == old(self).army@[j],
                    decreases self.army@.len() - k,
                {
                    let inv = self.army[k];
                    proof {
                        assert(old(self).army@[k as int].y < old(self).bounds@[1] - 1);
                    }
                    self.army[k] = Invader { x: inv.x, y: inv.y + 1 };
                    k = k + 1;
                }
                proof {
                    assert(self.army@ =~= old(self).army@.map_values(
                        |v: Invader| Invader { x: v.x, y: (v.y + 1) as u16 },
                    ));
                }
            } else {
                // Steps the whole army one cell sideways.
                let mut k: usize = 0;
                while k < self.army.len()
                    invariant
                        old(self).wf(),
                        !old(self).descend_next(),
                        k <= self.army@.len(),
                        self.army@.len() == old(self).army@.len(),
                        self.bounds@ == old(self).bounds@,
                        self.direction == old(self).direction,
                        self.move_timer == (Timer {
                            duration_ms: old(self).move_timer.advanced(delta_ms).duration_ms,
                            elapsed_ms: 0u64,
                        }),
                        forall|j: int|
                            0 <= j < k ==> (#[trigger] self.army@[j]).x == old(self).army@[j].x
                                + old(self).direction && self.army@[j].y == old(self).army@[j].y,
                        forall|j: int|
                            k <= j < self.army@.len() ==> #[trigger] self.army@[j] == old(self).army@[j],
                    decreases self.army@.len() - k,
                {
                    let inv = self.army[k];
                    let nx: u16 = if self.direction == -1 {
                        proof {
                            assert(!(old(self).army@[k as int].x == 0));
                        }
                        inv.x - 1
                    } else {
                        proof {
                            assert(!(old(self).army@[k as int].x == old(self).bounds@[0] - 1));
                        }
                        inv.x + 1
                    };
                    self.army[k] = Invader { x: nx, y: inv.y };
                    k = k + 1;
                }
                proof {
                    assert forall|j: int| 0 <= j < old(self).army@.len() implies #[trigger] self
                        .army@[j] == (Invader {
                        x: (old(self).army@[j].x + old(self).direction) as u16,
                        y: old(self).army@[j].y,
                    }) by {
                        if old(self).direction == -1 {
                            assert(!(old(self).army@[j].x == 0));
                        } else {
                            assert(!(old(self).army@[j].x == old(self).bounds@[0] - 1));
                        }
                    }
                    assert(self.army@ =~= old(self).army@.map_values(
                        |v: Invader| Invader { x: (v.x + old(self).direction) as u16, y: v.y },
                    ));
                }
            }
        }
    }

    /// Whether all enemies were killed: the army is empty, and only then.
    pub fn all_killed(&self) -> (r: bool)
        ensures
            r == self.spec_all_killed(),
    {
        self.army.is_empty()
    }

    /// Whether some enemy reached the bottom boundary — the terminal loss
    /// condition. True exactly when an enemy's row is at or past the last
    /// row; an empty army has reached nothing.
    pub fn reached_bottom(&self) -> (r: bool)
        requires
            self.bounds@.len() == 2,
            self.bounds@[1] >= 1,
        ensures
            r == self.spec_reached_bottom(),
    {
        let limit: u16 = self.bounds[1] - 1;
        let mut k: usize = 0;
        while k < self.army.len()
            invariant
                k <= self.army@.len(),
                limit == self.bounds@[1] - 1,
                forall|j: int| 0 <= j < k ==> (#[trigger] self.army@[j]).y < limit,
            decreases self.army@.len() - k,
        {
            if self.army[k].y >= limit {
                return true;
            }
            k = k + 1;
        }
        false
    }

    /// Removes the first enemy standing exactly at `(x, y)` and reports the
    /// hit; without a match nothing changes.
    pub fn kill_invader_at(&mut self, x: u16, y: u16) -> (hit: bool)
        ensures
            final(self).bounds@ == old(self).bounds@,
            final(self).direction == old(self).direction,
            final(self).move_timer == old(self).move_timer,
            old(self).wf() ==> final(self).wf(),
            match find_invader_at(old(self).army@, x, y) {
                Some(i) => hit && final(self).army@ == old(self).army@.remove(i),
                None => !hit && final(self).army@ == old(self).army@,
            },
    {
        let mut idx: usize = 0;
        while idx < self.army.len()
            invariant
                *self == *old(self),
                idx <= self.army@.len(),
                forall|j: int|
                    0 <= j < idx ==> !((#[trigger] self.army@[j]).x == x && self.army@[j].y == y),
            decreases self.army@.len() - idx,
        {
            if self.army[idx].x == x && self.army[idx].y == y {
                proof {
                    lemma_find_first_invader(self.army@, x, y, idx as int);
                }
                self.army.remove(idx);
                return true;
            }
            idx = idx + 1;
        }
        proof {
            lemma_find_first_invader(self.army@, x, y, self.army@.len() as int);
        }
        false
    }
}

/// Direction-flip law: while the formation moves toward the left bound and
/// some enemy already touches it, the next ready tick reverses the
/// direction to rightward and performs a descent instead of a sideways
/// step — every enemy one row down, none moved sideways — and the move
/// duration shrinks, strictly so while above the floor, but never below it.
pub proof fn lemma_flip_on_left_bound(pre: Invaders, delta_ms: u64)
    requires
        pre.wf(),
        pre.direction == -1,
        pre.at_left_bound(),
        pre.move_timer.advanced(delta_ms).ready(),
    ensures
        Invaders::direction_after(pre, delta_ms) == 1,
        Invaders::army_after(pre, delta_ms).len() == pre.army@.len(),
        forall|k: int|
            0 <= k < pre.army@.len() ==> (#[trigger] Invaders::army_after(pre, delta_ms)[k]).x
                == pre.army@[k].x && Invaders::army_after(pre, delta_ms)[k].y == pre.army@[k].y
                + 1,
        Invaders::timer_after(pre, delta_ms).duration_ms >= MIN_MOVE_MS,
        pre.move_timer.duration_ms > MIN_MOVE_MS ==> Invaders::timer_after(
            pre,
            delta_ms,
        ).duration_ms < pre.move_timer.duration_ms,
{
    assert(pre.descend_next());
    assert forall|k: int| 0 <= k < pre.army@.len() implies (#[trigger] Invaders::army_after(
        pre,
        delta_ms,
    )[k]).x == pre.army@[k].x && Invaders::army_after(pre, delta_ms)[k].y == pre.army@[k].y
        + 1 by {
        assert(pre.army@[k].y < pre.bounds@[1]);
    }
}

/// A linear scan that misses up to `k` and matches at `k` (or runs off the
/// end) finds exactly what `find_invader_at` names: the first match.
proof fn lemma_find_first_invader(army: Seq<Invader>, x: u16, y: u16, k: int)
    requires
        0 <= k <= army.len(),
        forall|j: int| 0 <= j < k ==> !((#[trigger] army[j]).x == x && army[j].y == y),
        k == army.len() || (army[k].x == x && army[k].y == y),
    ensures
        k == army.len() ==> find_invader_at(army, x, y) is None,
        k < army.len() ==> find_invader_at(army, x, y) == Some(k),
    decreases army.len(),
{
    if army.len() == 0 {
    } else if army[0].x == x && army[0].y == y {
        assert(k == 0);
    } else {
        assert(k >= 1);
        let rest = army.drop_first();
        assert(forall|j: int| 0 <= j < k - 1 ==> rest[j] == army[j + 1]);
        lemma_find_first_invader(rest, x, y, k - 1);
    }
}

impl Drawable for Invaders {
    open spec fn covers(&self, i: int, j: int) -> bool {
        exists|k: int|
            0 <= k < self.army@.len() && (#[trigger] self.army@[k]).x == i && self.army@[k].y == j
    }

    open spec fn glyph_at(&self, i: int, j: int) -> Seq<char> {
        self.glyph()
    }

    open spec fn fits(&self, f: Seq<Vec<String>>) -> bool {
        forall|k: int|
            0 <= k < self.army@.len() ==> (#[trigger] self.army@[k]).x < f.len()
                && self.army@[k].y < f[self.army@[k].x as int]@.len()
    }

    /// Paints every enemy of the army with the formation's current glyph.
    fn draw(&self, frame: &mut Frame) {
        let glyph: &str = if self.move_timer.in_first_half() {
            "■"
        } else {
            "□"
        };
        let mut k: usize = 0;
        while k < self.army.len()
            invariant
                k <= self.army@.len(),
                self.fits(old(frame)@),
                glyph@ == self.glyph(),
                frame@.len() == old(frame)@.len(),
                forall|i: int|
                    0 <= i < old(frame)@.len() ==> (#[trigger] frame@[i])@.len()
                        == old(frame)@[i]@.len(),
                forall|i: int, j: int|
                    #![auto]
                    0 <= i < old(frame)@.len() && 0 <= j < old(frame)@[i]@.len()
                        ==> frame@[i]@[j]@ == if exists|t: int|
                        0 <= t < k && (#[trigger] self.army@[t]).x == i && self.army@[t].y == j {
                        self.glyph()
                    } else {
                        old(frame)@[i]@[j]@
                    },
            decreases self.army@.len() - k,
        {
            let inv = self.army[k];
            let col: &mut Vec<String> = &mut frame[inv.x as usize];
            col[inv.y as usize] = glyph.to_owned();
            k = k + 1;
        }
    }
}

} // verus!
