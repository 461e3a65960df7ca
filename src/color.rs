use vstd::prelude::*;
use vstd::string::*;

use crate::notation::{notation_of, parsed_channels, without_spaces};

verus! {

/// An opaque RGB color; every channel lies in `0..=255`.
#[derive(Default, Debug, Clone, Copy)]
pub struct Color {
    r: u8,
    g: u8,
    b: u8,
}

/// The channel that multiplicative blending gives for two channels.
pub open spec fn blend_channel(a: u8, b: u8) -> int {
    (a as int * b as int) / 255
}

/// The error of a text that is no color notation; it keeps the text.
#[derive(Debug)]
pub struct ColorParseError {
    input: String,
}

impl ColorParseError {
    pub closed spec fn text(&self) -> Seq<char> {
        self.input@
    }

    /// The text that could not be parsed.
    pub fn input(&self) -> (s: &str)
        ensures
            s@ == self.text(),
    {
        self.input.as_str()
    }
}

impl Color {
    pub closed spec fn red(&self) -> u8 {
        self.r
    }

    pub closed spec fn green(&self) -> u8 {
        self.g
    }

    pub closed spec fn blue(&self) -> u8 {
        self.b
    }

    /// The three channels, red first.
    pub open spec fn channels(&self) -> (u8, u8, u8) {
        (self.red(), self.green(), self.blue())
    }

    pub fn new(r: u8, g: u8, b: u8) -> (c: Self)
        ensures
            c.channels() == (r, g, b),
    {
        Color { r, g, b }
    }

    /// The channels with a fully opaque alpha appended.
    pub fn rgba(&self) -> (v: [u8; 4])
        ensures
            v@ == seq![self.red(), self.green(), self.blue(), 255u8],
    {
        let v = [self.r, self.g, self.b, 0xff];
        assert(v@ =~= seq![self.red(), self.green(), self.blue(), 255u8]);
        v
    }

    /// Additive blending, channel by channel.
    pub fn add(&self, addend: Color) -> (c: Self)
        requires
            self.red() + addend.red() <= 255,
            self.green() + addend.green() <= 255,
            self.blue() + addend.blue() <= 255,
        ensures
            c.red() == self.red() + addend.red(),
            c.green() == self.green() + addend.green(),
            c.blue() == self.blue() + addend.blue(),
    {
        Color { r: self.r + addend.r, g: self.g + addend.g, b: self.b + addend.b }
    }

    /// Reads a color from `#rgb`, `#rrggbb` or `rgb(r,g,b)` notation; spaces are ignored.
    /// Any other text is rejected with an error that keeps it.
    pub fn parse(color: &str) -> (r: Result<Color, ColorParseError>)
        ensures
            match parsed_channels(color@) {
                Some(ch) => r matches Ok(c) && c.channels() == ch,
                None => r matches Err(e) && e.text() == color@,
            },
    {
        let s = without_spaces(color);
        match notation_of(&s) {
            Some((r, g, b)) => Ok(Color::new(r, g, b)),
            None => Err(ColorParseError { input: String::from_str(color) }),
        }
    }

    /// Multiplicative blending: each channel is the product of the two scaled back to `0..=255`.
    pub fn multiply(&self, multiplier: Color) -> (c: Self)
        ensures
            c.red() == blend_channel(self.red(), multiplier.red()),
            c.green() == blend_channel(self.green(), multiplier.green()),
            c.blue() == blend_channel(self.blue(), multiplier.blue()),
    {
        Color {
            r: blend(self.r, multiplier.r),
            g: blend(self.g, multiplier.g),
            b: blend(self.b, multiplier.b),
        }
    }
}

fn blend(a: u8, b: u8) -> (r: u8)
    ensures
        r == blend_channel(a, b),
{
    assert(a as int * b as int <= 255 * 255) by (nonlinear_arith)
        requires
            a <= 255,
            b <= 255,
    ;
    let p: u16 = a as u16 * b as u16;
    assert(p as int / 255 <= 255) by (nonlinear_arith)
        requires
            p as int == a as int * b as int,
            a <= 255,
            b <= 255,
    ;
    (p / 255) as u8
}

impl From<(u8, u8, u8)> for Color {
    fn from(value: (u8, u8, u8)) -> (c: Color)
        ensures
            c.channels() == value,
    {
        Color::new(value.0, value.1, value.2)
    }
}

impl vstd::std_specs::convert::FromSpecImpl<(u8, u8, u8)> for Color {
    open spec fn obeys_from_spec() -> bool {
        true
    }

    closed spec fn from_spec(v: (u8, u8, u8)) -> Color {
        Color { r: v.0, g: v.1, b: v.2 }
    }
}

} // verus!
