use vstd::arithmetic::div_mod::lemma_fundamental_div_mod_converse;
use vstd::prelude::*;

verus! {

/// A pixel position on the canvas: column, then row.
pub type Coordinates2D = (u16, u16);

/// The `i`-th pixel of a render pass over a canvas `width` pixels wide.
pub open spec fn pixel_at(i: int, width: int) -> Coordinates2D {
    ((i % width) as u16, (i / width) as u16)
}

/// Walks the pixel grid of a canvas.
pub struct Renderer {
    canvas_width: u16,
    canvas_height: u16,
}

impl Renderer {
    pub closed spec fn width(&self) -> u16 {
        self.canvas_width
    }

    pub closed spec fn height(&self) -> u16 {
        self.canvas_height
    }

    pub fn new(canvas_width: u16, canvas_height: u16) -> (r: Self)
        ensures
            r.width() == canvas_width,
            r.height() == canvas_height,
    {
        Renderer { canvas_width, canvas_height }
    }

    /// Every pixel of the canvas once, in the order a render pass paints them:
    /// row by row from the top, each row from left to right.
    pub fn pixels(&self) -> (v: Vec<Coordinates2D>)
        ensures
            v@.len() == self.width() * self.height(),
            forall|i: int| 0 <= i < v@.len() ==> #[trigger] v@[i] == pixel_at(i, self.width() as int),
    {
        let w = self.canvas_width;
        let mut v: Vec<Coordinates2D> = Vec::new();
        let mut y: u16 = 0;
        while y < self.canvas_height
            invariant
                w == self.width(),
                y <= self.height(),
                v@.len() == y * w,
                forall|i: int| 0 <= i < v@.len() ==> #[trigger] v@[i] == pixel_at(i, w as int),
            decreases self.height() - y,
        {
            let mut x: u16 = 0;
            while x < w
                invariant
                    w == self.width(),
                    y < self.height(),
                    x <= w,
                    v@.len() == y * w + x,
                    forall|i: int| 0 <= i < v@.len() ==> #[trigger] v@[i] == pixel_at(i, w as int),
                decreases w - x,
            {
                proof {
                    lemma_fundamental_div_mod_converse(v@.len() as int, w as int, y as int, x as int);
                }
                v.push((x, y));
                x += 1;
            }
            assert((y + 1) * w == y * w + w) by (nonlinear_arith);
            y += 1;
        }
        assert(y == self.height());
        assert(y * w == self.width() * self.height()) by (nonlinear_arith)
            requires
                y == self.height(),
                w == self.width(),
        ;
        v
    }
}

} // verus!
