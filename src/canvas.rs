//! A framebuffer: a fixed-size grid of pixels, stored row by row.

use vstd::prelude::*;

use crate::ppm::{append_decimal, append_pixel, header_text, pixels_text, row_text, rows_text, Rgb8};

verus! {

/// A `width` × `height` grid of pixels of type `P`, addressed by column `x`
/// and row `y`.
#[derive(Clone, Debug)]
pub struct Canvas<P> {
    width: usize,
    height: usize,
    pixels: Vec<Vec<P>>,
}

impl<P> View for Canvas<P> {
    /// The rows of the grid, top row first; row `y` holds the pixels
    /// `(0, y)`, `(1, y)`, ... in order.
    type V = Seq<Seq<P>>;

    closed spec fn view(&self) -> Seq<Seq<P>> {
        self.pixels@.map_values(|row: Vec<P>| row@)
    }
}

impl<P> Canvas<P> {
    pub closed spec fn spec_width(&self) -> nat {
        self.width as nat
    }

    pub closed spec fn spec_height(&self) -> nat {
        self.height as nat
    }

    /// The grid has `height` rows of `width` pixels each.
    pub open spec fn wf(&self) -> bool {
        &&& self@.len() == self.spec_height()
        &&& forall|y: int| 0 <= y < self@.len() ==> #[trigger] self@[y].len() == self.spec_width()
    }

    /// A canvas of the given size whose every pixel is `fill`.
    pub fn new(width: usize, height: usize, fill: P) -> (r: Self) where P: Copy
        ensures
            r.wf(),
            r.spec_width() == width,
            r.spec_height() == height,
            forall|y: int, x: int|
                0 <= y < height && 0 <= x < width ==> #[trigger] r@[y][x] == fill,
    {
        let mut pixels: Vec<Vec<P>> = Vec::new();
        let mut y: usize = 0;
        while y < height
            invariant
                y <= height,
                pixels@.len() == y,
                forall|j: int| 0 <= j < y ==> #[trigger] pixels@[j]@.len() == width,
                forall|j: int, x: int|
                    0 <= j < y && 0 <= x < width ==> #[trigger] pixels@[j]@[x] == fill,
            decreases height - y,
        {
            let mut row: Vec<P> = Vec::new();
            let mut x: usize = 0;
            while x < width
                invariant
                    x <= width,
                    row@.len() == x,
                    forall|i: int| 0 <= i < x ==> #[trigger] row@[i] == fill,
                decreases width - x,
            {
                row.push(fill);
                x = x + 1;
            }
            pixels.push(row);
            y = y + 1;
        }
        let r = Canvas { width, height, pixels };
        assert(r@.len() == height);
        r
    }

    pub fn width(&self) -> (r: usize)
        ensures
            r == self.spec_width(),
    {
        self.width
    }

    pub fn height(&self) -> (r: usize)
        ensures
            r == self.spec_height(),
    {
        self.height
    }

    /// Overwrites the pixel at column `x`, row `y` with `c`; every other
    /// pixel is kept.
    pub fn write_pixel(&mut self, x: usize, y: usize, c: P)
        requires
            old(self).wf(),
            x < old(self).spec_width(),
            y < old(self).spec_height(),
        ensures
            final(self).wf(),
            final(self).spec_width() == old(self).spec_width(),
            final(self).spec_height() == old(self).spec_height(),
            final(self)@ == old(self)@.update(y as int, old(self)@[y as int].update(x as int, c)),
    {
        assert(self@[y as int].len() == self.width);
        assert(self@[y as int] == self.pixels@[y as int]@);
        self.pixels[y][x] = c;
        assert(self@ =~= old(self)@.update(y as int, old(self)@[y as int].update(x as int, c)));
    }

    /// The pixel at column `x`, row `y`.
    pub fn pixel_at(&self, x: usize, y: usize) -> (r: P) where P: Copy
        requires
            self.wf(),
            x < self.spec_width(),
            y < self.spec_height(),
        ensures
            r == self@[y as int][x as int],
    {
        assert(self@[y as int].len() == self.width);
        assert(self@[y as int] == self.pixels@[y as int]@);
        self.pixels[y][x]
    }
}

impl Canvas<Rgb8> {
    /// The pixel rows as text: for each row, top first, the text of each
    /// pixel left to right, then a newline.
    pub fn to_ppm(&self) -> (r: String)
        requires
            self.wf(),
        ensures
            r@ == rows_text(self@),
    {
        let mut out = String::new();
        let mut y: usize = 0;
        while y < self.height
            invariant
                self.wf(),
                y <= self.height,
                out@ == rows_text(self@.take(y as int)),
            decreases self.height - y,
        {
            assert(self@[y as int].len() == self.width);
            assert(self@[y as int] == self.pixels@[y as int]@);
            let row = &self.pixels[y];
            let start = Ghost(out@);
            let mut x: usize = 0;
            while x < self.width
                invariant
                    self.wf(),
                    y < self@.len(),
                    x <= self.width,
                    row@ == self@[y as int],
                    row@.len() == self.width,
                    out@ == start@ + pixels_text(row@.take(x as int)),
                decreases self.width - x,
            {
                append_pixel(&mut out, row[x]);
                assert(row@.take(x + 1 as int).drop_last() =~= row@.take(x as int));
                x = x + 1;
            }
            assert(row@.take(x as int) =~= row@);
            proof { reveal_strlit("\n"); }
            out.append("\n");
            assert(self@.take(y + 1 as int).drop_last() =~= self@.take(y as int));
            assert(self@.take(y + 1 as int).last() == self@[y as int]);
            assert(out@ =~= rows_text(self@.take(y as int)) + row_text(self@[y as int]));
            y = y + 1;
        }
        assert(self@.take(y as int) =~= self@);
        out
    }

    /// The whole image: the header for this canvas's size, then
    /// [`Canvas::to_ppm`].
    pub fn save(&self) -> (r: String)
        requires
            self.wf(),
        ensures
            r@ == header_text(self.spec_width(), self.spec_height()) + rows_text(self@),
    {
        proof {
            reveal_strlit("P3\n");
            reveal_strlit(" ");
            reveal_strlit("\n255\n");
        }
        let mut out = String::new();
        out.append("P3\n");
        append_decimal(&mut out, self.width as u64);
        out.append(" ");
        append_decimal(&mut out, self.height as u64);
        out.append("\n255\n");
        let body = self.to_ppm();
        out.append(body.as_str());
        assert(out@ =~= header_text(self.spec_width(), self.spec_height()) + rows_text(self@));
        out
    }
}

} // verus!
