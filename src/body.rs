use vstd::prelude::*;

use crate::color::Color;

verus! {

/// What every body of a scene has: a single color over its whole surface.
#[derive(Debug)]
pub struct Body {
    color: Color,
}

impl Body {
    pub closed spec fn color_spec(&self) -> Color {
        self.color
    }

    pub fn new(color: Color) -> (b: Self)
        ensures
            b.color_spec() == color,
    {
        Body { color }
    }
}

/// A thing with a color.
pub trait Colored {
    fn color(&self) -> Color;
}

impl Colored for Body {
    fn color(&self) -> (c: Color)
        ensures
            c == self.color_spec(),
    {
        self.color
    }
}

} // verus!
