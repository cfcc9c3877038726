use vstd::prelude::*;

verus! {

/// A frame canvas: a two-dimensional collection of display cells indexed
/// `[x][y]`, each cell holding the text shown there (normally one glyph).
pub type Frame = Vec<Vec<String>>;

/// The frame holds exactly `x` columns of `y` cells each.
pub open spec fn frame_dims(f: Seq<Vec<String>>, x: int, y: int) -> bool {
    &&& f.len() == x
    &&& forall|i: int| 0 <= i < x ==> (#[trigger] f[i])@.len() == y
}

/// Prepares an empty frame of `dimensions[0]` columns by `dimensions[1]`
/// rows, every cell blank. Dimensions must be positive in both axes.
pub fn new_frame(dimensions: &Vec<u16>) -> (f: Frame)
    requires
        dimensions@.len() == 2,
        dimensions@[0] >= 1,
        dimensions@[1] >= 1,
    ensures
        frame_dims(f@, dimensions@[0] as int, dimensions@[1] as int),
        forall|i: int, j: int|
            #![auto]
            0 <= i < dimensions@[0] && 0 <= j < dimensions@[1] ==> f@[i]@[j]@ == " "@,
{
    let x: u16 = dimensions[0];
    let y: u16 = dimensions[1];
    let mut cols: Vec<Vec<String>> = Vec::with_capacity(x as usize);
    let mut i: u16 = 0;
    while i < x
        invariant
            i <= x,
            cols@.len() == i,
            forall|a: int| 0 <= a < i ==> (#[trigger] cols@[a])@.len() == y,
            forall|a: int, b: int| #![auto] 0 <= a < i && 0 <= b < y ==> cols@[a]@[b]@ == " "@,
        decreases x - i,
    {
        let mut row: Vec<String> = Vec::with_capacity(y as usize);
        let mut j: u16 = 0;
        while j < y
            invariant
                j <= y,
                row@.len() == j,
                forall|b: int| #![auto] 0 <= b < j ==> row@[b]@ == " "@,
            decreases y - j,
        {
            row.push(" ".to_owned());
            j = j + 1;
        }
        cols.push(row);
        i = i + 1;
    }
    cols
}

/// The capability every visible entity satisfies: render yourself into a
/// frame. An implementation declares which cells it paints (`covers`) and
/// what it paints there (`glyph_at`); drawing touches nothing else.
pub trait Drawable {
    /// Whether this entity paints the cell `(i, j)`.
    spec fn covers(&self, i: int, j: int) -> bool;

    /// The text this entity paints into a cell `(i, j)` that it covers.
    spec fn glyph_at(&self, i: int, j: int) -> Seq<char>;

    /// The frame reaches every cell this entity paints.
    spec fn fits(&self, f: Seq<Vec<String>>) -> bool;

    /// Writes the entity's glyphs into the frame at its current positions.
    /// Every cell the entity covers receives its glyph; every other cell
    /// keeps its content; the dimensions are unchanged.
    fn draw(&self, frame: &mut Frame)
        requires
            self.fits(old(frame)@),
        ensures
            final(frame)@.len() == old(frame)@.len(),
            forall|i: int|
                0 <= i < old(frame)@.len() ==> (#[trigger] final(frame)@[i])@.len()
                    == old(frame)@[i]@.len(),
            forall|i: int, j: int|
                #![auto]
                0 <= i < old(frame)@.len() && 0 <= j < old(frame)@[i]@.len()
                    ==> final(frame)@[i]@[j]@ == if self.covers(i, j) {
                        self.glyph_at(i, j)
                    } else {
                        old(frame)@[i]@[j]@
                    },
    ;
}

} // verus!
