use vstd::prelude::*;

use crate::frame::Drawable;
use crate::frame::Frame;
use crate::invaders::find_invader_at;
use crate::invaders::Invader;
use crate::invaders::Invaders;
use crate::shot::Shot;
use crate::NUM_SHOTS;

verus! {

/// The shots that remain after advancing every shot by `delta_ms` and
/// discarding the dead ones, keeping their order.
pub open spec fn shots_after_update(shots: Seq<Shot>, delta_ms: u64) -> Seq<Shot>
    decreases shots.len(),
{
    if shots.len() == 0 {
        Seq::empty()
    } else {
        let rest = shots_after_update(shots.drop_last(), delta_ms);
        let s = shots.last().stepped(delta_ms);
        if s.spec_died() {
            rest
        } else {
            rest.push(s)
        }
    }
}

/// The shots and the army after resolving one tick's hits: walking the shots
/// in order, a flying shot standing exactly on an enemy removes the first
/// such enemy and turns exploding; every other shot passes unchanged. An
/// enemy already removed by an earlier shot cannot be hit again.
pub open spec fn resolve_hits(shots: Seq<Shot>, army: Seq<Invader>) -> (Seq<Shot>, Seq<Invader>)
    decreases shots.len(),
{
    if shots.len() == 0 {
        (shots, army)
    } else {
        let s = shots.first();
        let hit = !s.exploding && find_invader_at(army, s.x, s.y) is Some;
        let s2 = if hit {
            s.spec_exploded()
        } else {
            s
        };
        let army2 = if hit {
            army.remove(find_invader_at(army, s.x, s.y)->Some_0)
        } else {
            army
        };
        let r = resolve_hits(shots.drop_first(), army2);
        (seq![s2] + r.0, r.1)
    }
}

/// The glyph of the shot drawn last among those standing at `(i, j)`, if
/// any: later shots in the pool paint over earlier ones.
pub open spec fn shots_glyph_at(shots: Seq<Shot>, i: int, j: int) -> Option<Seq<char>>
    decreases shots.len(),
{
    if shots.len() == 0 {
        None
    } else if shots.last().x == i && shots.last().y == j {
        Some(shots.last().glyph())
    } else {
        shots_glyph_at(shots.drop_last(), i, j)
    }
}

/// The player ship: a position clamped to the lower half of the field, its
/// movement bounds, and a capacity-bounded pool of fired shots.
pub struct Player {
    pub x: u16,
    pub y: u16,
    pub bounds: Vec<u16>,
    pub shots: Vec<Shot>,
}

impl Player {
    /// Well-formedness: two bounds (the field at least one column wide and
    /// two rows tall), the ship inside the field and never above the
    /// vertical midpoint, and at most `NUM_SHOTS` shots, all inside the
    /// field.
    pub open spec fn wf(self) -> bool {
        &&& self.bounds@.len() == 2
        &&& self.bounds@[0] >= 1
        &&& self.bounds@[1] >= 2
        &&& self.x < self.bounds@[0]
        &&& self.bounds@[1] / 2 <= self.y < self.bounds@[1]
        &&& self.shots@.len() <= NUM_SHOTS
        &&& forall|k: int|
            0 <= k < self.shots@.len() ==> (#[trigger] self.shots@[k]).x < self.bounds@[0]
                && self.shots@[k].y < self.bounds@[1]
    }

    /// The player after `move_left`: one column left, stopping at the bound.
    pub open spec fn spec_move_left(self) -> Player {
        Player {
            x: if self.x > 0 {
                (self.x - 1) as u16
            } else {
                self.x
            },
            ..self
        }
    }

    /// The player after `move_right`: one column right, stopping at the
    /// bound.
    pub open spec fn spec_move_right(self) -> Player {
        Player {
            x: if self.x < self.bounds@[0] - 1 {
                (self.x + 1) as u16
            } else {
                self.x
            },
            ..self
        }
    }

    /// The player after `move_up`: one row up, never above the midpoint.
    pub open spec fn spec_move_up(self) -> Player {
        Player {
            y: if self.y > self.bounds@[1] / 2 {
                (self.y - 1) as u16
            } else {
                self.y
            },
            ..self
        }
    }

    /// The player after `move_down`: one row down, stopping at the bound.
    pub open spec fn spec_move_down(self) -> Player {
        Player {
            y: if self.y < self.bounds@[1] - 1 {
                (self.y + 1) as u16
            } else {
                self.y
            },
            ..self
        }
    }

    /// Creates a new player centered on the bottom row of the field, with an
    /// empty shot pool.
    pub fn new(dimensions: &Vec<u16>) -> (p: Player)
        requires
            dimensions@.len() == 2,
            dimensions@[0] >= 1,
            dimensions@[1] >= 2,
        ensures
            p.wf(),
            p.x == dimensions@[0] / 2,
            p.y == dimensions@[1] - 1,
            p.bounds@ == dimensions@,
            p.shots@.len() == 0,
    {
        Player {
            x: dimensions[0] / 2,
            y: dimensions[1] - 1,
            bounds: dimensions.clone(),
            shots: Vec::new(),
        }
    }

    /// Moves one column left, stopping at the left bound.
    pub fn move_left(&mut self)
        requires
            old(self).wf(),
        ensures
            final(self).wf(),
            *final(self) == old(self).spec_move_left(),
    {
        if self.x > 0 {
            self.x = self.x - 1;
        }
    }

    /// Moves one column right, stopping at the right bound.
    pub fn move_right(&mut self)
        requires
            old(self).wf(),
        ensures
            final(self).wf(),
            *final(self) == old(self).spec_move_right(),
    {
        if self.x < self.bounds[0] - 1 {
            self.x = self.x + 1;
        }
    }

    /// Moves one row up, never rising above the vertical midpoint of the
    /// field.
    pub fn move_up(&mut self)
        requires
            old(self).wf(),
        ensures
            final(self).wf(),
            *final(self) == old(self).spec_move_up(),
    {
        if self.y > self.bounds[1] / 2 {
            self.y = self.y - 1;
        }
    }

    /// Moves one row down, stopping at the bottom bound.
    pub fn move_down(&mut self)
        requires
            old(self).wf(),
        ensures
            final(self).wf(),
            *final(self) == old(self).spec_move_down(),
    {
        if self.y < self.bounds[1] - 1 {
            self.y = self.y + 1;
        }
    }

    /// Fires a new flying shot one row above the ship, unless the pool is
    /// already at capacity; the pool never exceeds `NUM_SHOTS` shots.
    pub fn shoot(&mut self)
        requires
            old(self).wf(),
        ensures
            final(self).wf(),
            final(self).x == old(self).x,
            final(self).y == old(self).y,
            final(self).bounds@ == old(self).bounds@,
            final(self).shots@ == if old(self).shots@.len() < NUM_SHOTS {
                old(self).shots@.push(Shot::spec_new(old(self).x, (old(self).y - 1) as u16))
            } else {
                old(self).shots@
            },
            final(self).shots@.len() <= NUM_SHOTS,
    {
        if self.shots.len() < NUM_SHOTS {
            let s = Shot::new(self.x, self.y - 1);
            self.shots.push(s);
        }
    }

    /// Advances every shot by the elapsed time, then removes the dead ones:
    /// those that crossed the top boundary and those whose explosion has
    /// been displayed in full.
    pub fn update(&mut self, delta_ms: u64)
        requires
            old(self).wf(),
        ensures
            final(self).wf(),
            final(self).x == old(self).x,
            final(self).y == old(self).y,
            final(self).bounds@ == old(self).bounds@,
            final(self).shots@ == shots_after_update(old(self).shots@, delta_ms),
    {
        let mut kept: Vec<Shot> = Vec::new();
        let mut k: usize = 0;
        while k < self.shots.len()
            invariant
                *self == *old(self),
                old(self).wf(),
                k <= self.shots@.len(),
                kept@ == shots_after_update(old(self).shots@.take(k as int), delta_ms),
                kept@.len() <= k,
                forall|j: int|
                    0 <= j < kept@.len() ==> (#[trigger] kept@[j]).x < old(self).bounds@[0]
                        && kept@[j].y < old(self).bounds@[1],
            decreases self.shots@.len() - k,
        {
            let mut s = self.shots[k];
            s.update(delta_ms);
            let dead = s.died();
            proof {
                let pre = old(self).shots@.take((k + 1) as int);
                assert(pre.drop_last() =~= old(self).shots@.take(k as int));
                assert(pre.last() == old(self).shots@[k as int]);
            }
            if !dead {
                kept.push(s);
            }
            k = k + 1;
        }
        proof {
            assert(old(self).shots@.take(self.shots@.len() as int) =~= old(self).shots@);
        }
        self.shots = kept;
    }

    /// Resolves this tick's collisions: for each flying shot, in pool order,
    /// an enemy standing exactly at the shot's position is removed from the
    /// formation and the shot turns exploding. Each hit only affects enemies
    /// still present when that shot is examined.
    pub fn detect_hit(&mut self, invaders: &mut Invaders)
        requires
            old(self).wf(),
            old(invaders).wf(),
        ensures
            final(self).wf(),
            final(invaders).wf(),
            final(self).x == old(self).x,
            final(self).y == old(self).y,
            final(self).bounds@ == old(self).bounds@,
            final(invaders).bounds@ == old(invaders).bounds@,
            final(invaders).direction == old(invaders).direction,
            final(invaders).move_timer == old(invaders).move_timer,
            final(self).shots@ == resolve_hits(old(self).shots@, old(invaders).army@).0,
            final(invaders).army@ == resolve_hits(old(self).shots@, old(invaders).army@).1,
    {
        proof {
            assert(old(self).shots@.skip(0) =~= old(self).shots@);
            assert(self.shots@.take(0) =~= Seq::<Shot>::empty());
        }
        let ghost orig_shots = old(self).shots@;
        let ghost orig_army = old(invaders).army@;
        let mut k: usize = 0;
        while k < self.shots.len()
            invariant
                old(self).wf(),
                k <= self.shots@.len(),
                self.x == old(self).x,
                self.y == old(self).y,
                self.bounds@ == old(self).bounds@,
                self.shots@.len() == orig_shots.len(),
                orig_shots == old(self).shots@,
                orig_army == old(invaders).army@,
                invaders.wf(),
                invaders.bounds@ == old(invaders).bounds@,
                invaders.direction == old(invaders).direction,
                invaders.move_timer == old(invaders).move_timer,
                forall|j: int| k <= j < self.shots@.len() ==> self.shots@[j] == orig_shots[j],
                forall|j: int|
                    0 <= j < k ==> ((#[trigger] self.shots@[j]).x == orig_shots[j].x
                        && self.shots@[j].y == orig_shots[j].y),
                resolve_hits(orig_shots, orig_army).0 == self.shots@.take(k as int)
                    + resolve_hits(orig_shots.skip(k as int), invaders.army@).0,
                resolve_hits(orig_shots, orig_army).1 == resolve_hits(
                    orig_shots.skip(k as int),
                    invaders.army@,
                ).1,
            decreases self.shots@.len() - k,
        {
            let ghost pre_army = invaders.army@;
            let ghost suffix = orig_shots.skip(k as int);
            proof {
                assert(suffix.len() == orig_shots.len() - k);
                assert(suffix.first() == orig_shots[k as int]);
                assert(suffix.drop_first() =~= orig_shots.skip((k + 1) as int));
            }
            let sx = self.shots[k].x;
            let sy = self.shots[k].y;
            let mut hit: bool = false;
            if !self.shots[k].exploding {
                if invaders.kill_invader_at(sx, sy) {
                    let mut s = self.shots[k];
                    s.explode();
                    self.shots[k] = s;
                    hit = true;
                }
            }
            proof {
                let s = suffix.first();
                let spec_hit = !s.exploding && find_invader_at(pre_army, s.x, s.y) is Some;
                assert(hit == spec_hit);
                let s2 = if spec_hit {
                    s.spec_exploded()
                } else {
                    s
                };
                assert(self.shots@[k as int] == s2);
                let army2 = if spec_hit {
                    pre_army.remove(find_invader_at(pre_army, s.x, s.y)->Some_0)
                } else {
                    pre_army
                };
                assert(invaders.army@ == army2);
                let r = resolve_hits(suffix.drop_first(), army2);
                assert(resolve_hits(suffix, pre_army).0 == seq![s2] + r.0);
                assert(resolve_hits(suffix, pre_army).1 == r.1);
                assert(self.shots@.take((k + 1) as int) =~= self.shots@.take(k as int).push(s2));
                assert(self.shots@.take(k as int) + (seq![s2] + r.0) =~= self.shots@.take(
                    (k + 1) as int,
                ) + r.0);
            }
            k = k + 1;
        }
        proof {
            assert(orig_shots.skip(self.shots@.len() as int) =~= Seq::<Shot>::empty());
            assert(self.shots@.take(self.shots@.len() as int) =~= self.shots@);
        }
    }
}

impl Drawable for Player {
    open spec fn covers(&self, i: int, j: int) -> bool {
        (i == self.x && j == self.y) || shots_glyph_at(self.shots@, i, j) is Some
    }

    open spec fn glyph_at(&self, i: int, j: int) -> Seq<char> {
        match shots_glyph_at(self.shots@, i, j) {
            Some(g) => g,
            None => "△"@,
        }
    }

    open spec fn fits(&self, f: Seq<Vec<String>>) -> bool {
        &&& self.x < f.len()
        &&& self.y < f[self.x as int]@.len()
        &&& forall|k: int|
            0 <= k < self.shots@.len() ==> (#[trigger] self.shots@[k]).x < f.len()
                && self.shots@[k].y < f[self.shots@[k].x as int]@.len()
    }

    /// Paints the ship's glyph, then every shot in pool order; a later shot
    /// paints over an earlier one sharing its cell.
    fn draw(&self, frame: &mut Frame) {
        let col: &mut Vec<String> = &mut frame[self.x as usize];
        col[self.y as usize] = "△".to_owned();
        let mut k: usize = 0;
        while k < self.shots.len()
            invariant
                k <= self.shots@.len(),
                self.fits(old(frame)@),
                frame@.len() == old(frame)@.len(),
                forall|i: int|
                    0 <= i < old(frame)@.len() ==> (#[trigger] frame@[i])@.len()
                        == old(frame)@[i]@.len(),
                forall|i: int, j: int|
                    #![auto]
                    0 <= i < old(frame)@.len() && 0 <= j < old(frame)@[i]@.len()
                        ==> frame@[i]@[j]@ == match shots_glyph_at(
                        self.shots@.take(k as int),
                        i,
                        j,
                    ) {
                        Some(g) => g,
                        None => if i == self.x && j == self.y {
                            "△"@
                        } else {
                            old(frame)@[i]@[j]@
                        },
                    },
            decreases self.shots@.len() - k,
        {
            let s = self.shots[k];
            let ghost fpre = frame@;
            proof {
                let pre = self.shots@.take((k + 1) as int);
                assert(pre.drop_last() =~= self.shots@.take(k as int));
                assert(pre.last() == self.shots@[k as int]);
            }
            s.draw(frame);
            proof {
                assert forall|i: int, j: int|
                    0 <= i < old(frame)@.len() && 0 <= j < old(frame)@[i]@.len()
                        implies frame@[i]@[j]@ == match shots_glyph_at(
                        self.shots@.take((k + 1) as int),
                        i,
                        j,
                    ) {
                        Some(g) => g,
                        None => if i == self.x && j == self.y {
                            "△"@
                        } else {
                            old(frame)@[i]@[j]@
                        },
                    } by {
                    assert(frame@[i]@[j]@ == if s.covers(i, j) {
                        s.glyph_at(i, j)
                    } else {
                        fpre[i]@[j]@
                    });
                    assert(fpre[i]@[j]@ == match shots_glyph_at(self.shots@.take(k as int), i, j) {
                        Some(g) => g,
                        None => if i == self.x && j == self.y {
                            "△"@
                        } else {
                            old(frame)@[i]@[j]@
                        },
                    });
                    if i == s.x && j == s.y {
                        assert(shots_glyph_at(self.shots@.take((k + 1) as int), i, j) == Some(
                            s.glyph(),
                        ));
                    } else {
                        assert(shots_glyph_at(self.shots@.take((k + 1) as int), i, j)
                            == shots_glyph_at(self.shots@.take(k as int), i, j));
                    }
                }
            }
            k = k + 1;
        }
        proof {
            assert(self.shots@.take(self.shots@.len() as int) =~= self.shots@);
        }
    }
}

} // verus!
