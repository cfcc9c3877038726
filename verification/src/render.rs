use vstd::prelude::*;

use crate::frame::Frame;

verus! {

/// One cell write the render pipeline must issue: position the cursor at
/// `(x, y)` and put `glyph` there. Cursor addressing is per written cell,
/// never per row, so partial-line updates stay possible.
pub struct CellWrite {
    pub x: u16,
    pub y: u16,
    pub glyph: String,
}

/// Every planned write lands inside the current frame, carries the current
/// content of its cell, and — unless a full repaint was forced — marks a
/// real difference against the last rendered frame.
pub open spec fn plan_sound(
    last: Seq<Vec<String>>,
    curr: Seq<Vec<String>>,
    force: bool,
    plan: Seq<CellWrite>,
) -> bool {
    forall|t: int|
        0 <= t < plan.len() ==> {
            let w = #[trigger] plan[t];
            &&& w.x < curr.len()
            &&& w.y < curr[w.x as int]@.len()
            &&& w.glyph@ == curr[w.x as int]@[w.y as int]@
            &&& (force || curr[w.x as int]@[w.y as int]@ != last[w.x as int]@[w.y as int]@)
        }
}

/// Some planned write targets the cell `(i, j)`.
pub open spec fn writes_cell(plan: Seq<CellWrite>, i: int, j: int) -> bool {
    exists|t: int| 0 <= t < plan.len() && (#[trigger] plan[t]).x == i && plan[t].y == j
}

/// Every cell whose content differs between the two frames — every cell at
/// all, when a full repaint is forced — has a write planned for it.
pub open spec fn plan_complete(
    last: Seq<Vec<String>>,
    curr: Seq<Vec<String>>,
    force: bool,
    plan: Seq<CellWrite>,
) -> bool {
    forall|i: int, j: int|
        #![trigger writes_cell(plan, i, j)]
        0 <= i < curr.len() && 0 <= j < curr[i]@.len() && (force || curr[i]@[j]@ != last[i]@[j]@)
            ==> writes_cell(plan, i, j)
}

/// The writes come in strictly increasing column-major order, so no cell is
/// ever written twice.
pub open spec fn plan_ordered(plan: Seq<CellWrite>) -> bool {
    forall|t1: int, t2: int|
        0 <= t1 < t2 < plan.len() ==> ((#[trigger] plan[t1]).x < (#[trigger] plan[t2]).x || (
        plan[t1].x == plan[t2].x && plan[t1].y < plan[t2].y))
}

/// Diffs the current frame against the last rendered one and returns the
/// cell writes to issue, in column-major order: exactly the cells whose
/// content changed, or every cell when `force` is set. The output volume is
/// thereby bounded by the number of changed cells per tick rather than the
/// full canvas — the pipeline's core performance technique. On `force` the
/// caller clears the whole sink first and repaints from this full plan.
pub fn render(last_frame: &Frame, curr_frame: &Frame, force: bool) -> (plan: Vec<CellWrite>)
    requires
        last_frame@.len() == curr_frame@.len(),
        forall|i: int|
            0 <= i < curr_frame@.len() ==> (#[trigger] last_frame@[i])@.len()
                == curr_frame@[i]@.len(),
        curr_frame@.len() <= u16::MAX + 1,
        forall|i: int| 0 <= i < curr_frame@.len() ==> (#[trigger] curr_frame@[i])@.len()
            <= u16::MAX + 1,
    ensures
        plan_sound(last_frame@, curr_frame@, force, plan@),
        plan_complete(last_frame@, curr_frame@, force, plan@),
        plan_ordered(plan@),
{
    let mut plan: Vec<CellWrite> = Vec::new();
    let mut x: usize = 0;
    while x < curr_frame.len()
        invariant
            last_frame@.len() == curr_frame@.len(),
            forall|i: int|
                0 <= i < curr_frame@.len() ==> (#[trigger] last_frame@[i])@.len()
                    == curr_frame@[i]@.len(),
            curr_frame@.len() <= u16::MAX + 1,
            forall|i: int|
                0 <= i < curr_frame@.len() ==> (#[trigger] curr_frame@[i])@.len() <= u16::MAX + 1,
            x <= curr_frame@.len(),
            plan_sound(last_frame@, curr_frame@, force, plan@),
            plan_ordered(plan@),
            forall|t: int| 0 <= t < plan@.len() ==> (#[trigger] plan@[t]).x < x,
            forall|i: int, j: int|
                #![trigger writes_cell(plan@, i, j)]
                0 <= i < x && 0 <= j < curr_frame@[i]@.len() && (force || curr_frame@[i]@[j]@
                    != last_frame@[i]@[j]@) ==> writes_cell(plan@, i, j),
        decreases curr_frame@.len() - x,
    {
        let mut y: usize = 0;
        while y < curr_frame[x].len()
            invariant
                last_frame@.len() == curr_frame@.len(),
                forall|i: int|
                    0 <= i < curr_frame@.len() ==> (#[trigger] last_frame@[i])@.len()
                        == curr_frame@[i]@.len(),
                curr_frame@.len() <= u16::MAX + 1,
                forall|i: int|
                    0 <= i < curr_frame@.len() ==> (#[trigger] curr_frame@[i])@.len() <= u16::MAX
                        + 1,
                x < curr_frame@.len(),
                y <= curr_frame@[x as int]@.len(),
                plan_sound(last_frame@, curr_frame@, force, plan@),
                plan_ordered(plan@),
                forall|t: int|
                    0 <= t < plan@.len() ==> ((#[trigger] plan@[t]).x < x || (plan@[t].x == x
                        && plan@[t].y < y)),
                forall|i: int, j: int|
                    #![trigger writes_cell(plan@, i, j)]
                    0 <= i < curr_frame@.len() && 0 <= j < curr_frame@[i]@.len() && (i < x || (i
                        == x && j < y)) && (force || curr_frame@[i]@[j]@ != last_frame@[i]@[j]@)
                        ==> writes_cell(plan@, i, j),
            decreases curr_frame@[x as int]@.len() - y,
        {
            let ghost plan0 = plan@;
            let curr_cell: &String = &curr_frame[x][y];
            let last_cell: &String = &last_frame[x][y];
            let differs: bool = !curr_cell.eq(last_cell);
            if force || differs {
                plan.push(CellWrite { x: x as u16, y: y as u16, glyph: curr_cell.clone() });
            }
            proof {
                assert(forall|t: int| 0 <= t < plan0.len() ==> #[trigger] plan@[t] == plan0[t]);
                assert forall|i: int, j: int|
                    #![trigger writes_cell(plan@, i, j)]
                    0 <= i < curr_frame@.len() && 0 <= j < curr_frame@[i]@.len() && (i < x || (i
                        == x && j < y + 1)) && (force || curr_frame@[i]@[j]@
                        != last_frame@[i]@[j]@) implies writes_cell(plan@, i, j) by {
                    if i == x && j == y {
                        assert(force || differs);
                        assert(plan@[plan@.len() - 1].x == i && plan@[plan@.len() - 1].y == j);
                    } else {
                        assert(writes_cell(plan0, i, j));
                        let t = choose|t: int|
                            0 <= t < plan0.len() && (#[trigger] plan0[t]).x == i && plan0[t].y
                                == j;
                        assert(plan@[t].x == i && plan@[t].y == j);
                    }
                }
            }
            y = y + 1;
        }
        x = x + 1;
    }
    plan
}

/// When nothing changed and no repaint is forced, nothing is written: a
/// sound plan over two frames of identical content is empty.
pub proof fn lemma_no_change_writes_nothing(
    last: Seq<Vec<String>>,
    curr: Seq<Vec<String>>,
    plan: Seq<CellWrite>,
)
    requires
        plan_sound(last, curr, false, plan),
        forall|i: int, j: int|
            #![auto]
            0 <= i < curr.len() && 0 <= j < curr[i]@.len() ==> curr[i]@[j]@ == last[i]@[j]@,
    ensures
        plan.len() == 0,
{
    if plan.len() > 0 {
        let w = plan[0];
        assert(curr[w.x as int]@[w.y as int]@ == last[w.x as int]@[w.y as int]@);
    }
}

/// A forced repaint writes every cell of the frame, and writes no cell
/// twice: a complete, ordered plan under `force` covers each cell through
/// exactly one write.
pub proof fn lemma_force_writes_each_cell_once(
    last: Seq<Vec<String>>,
    curr: Seq<Vec<String>>,
    plan: Seq<CellWrite>,
)
    requires
        plan_complete(last, curr, true, plan),
        plan_ordered(plan),
    ensures
        forall|i: int, j: int|
            #![trigger writes_cell(plan, i, j)]
            0 <= i < curr.len() && 0 <= j < curr[i]@.len() ==> writes_cell(plan, i, j),
        forall|t1: int, t2: int|
            0 <= t1 < plan.len() && 0 <= t2 < plan.len() && (#[trigger] plan[t1]).x
                == (#[trigger] plan[t2]).x && plan[t1].y == plan[t2].y ==> t1 == t2,
{
}

/// Two frames differing in exactly one cell produce, absent force, exactly
/// one write, and it targets that cell.
pub proof fn lemma_single_change_single_write(
    last: Seq<Vec<String>>,
    curr: Seq<Vec<String>>,
    plan: Seq<CellWrite>,
    x0: int,
    y0: int,
)
    requires
        plan_sound(last, curr, false, plan),
        plan_complete(last, curr, false, plan),
        plan_ordered(plan),
        0 <= x0 < curr.len(),
        0 <= y0 < curr[x0]@.len(),
        curr[x0]@[y0]@ != last[x0]@[y0]@,
        forall|i: int, j: int|
            #![auto]
            0 <= i < curr.len() && 0 <= j < curr[i]@.len() && !(i == x0 && j == y0)
                ==> curr[i]@[j]@ == last[i]@[j]@,
    ensures
        plan.len() == 1,
        plan[0].x == x0,
        plan[0].y == y0,
        plan[0].glyph@ == curr[x0]@[y0]@,
{
    assert(writes_cell(plan, x0, y0));
    assert forall|t: int| 0 <= t < plan.len() implies (#[trigger] plan[t]).x == x0 && plan[t].y
        == y0 by {
        let w = plan[t];
        if !(w.x == x0 && w.y == y0) {
            assert(curr[w.x as int]@[w.y as int]@ == last[w.x as int]@[w.y as int]@);
        }
    }
    if plan.len() > 1 {
        assert(plan[0].x == plan[1].x && plan[0].y == plan[1].y);
    }
}

} // verus!
