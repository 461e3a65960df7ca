use vstd::prelude::*;

verus! {

/// An exact ratio `numerator / denominator`, with a positive denominator.
#[derive(Debug, Clone, Copy, PartialEq, Eq, Structural)]
pub struct Fraction {
    pub numerator: i64,
    pub denominator: u16,
}

/// The normalized device coordinate of the center of column `x` on a canvas `width` pixels wide,
/// `(x + 1/2) / width * 2 - 1`, as numerator and denominator.
pub open spec fn ndc_x_fraction(x: int, width: int) -> (int, int) {
    (2 * x + 1 - width, width)
}

/// The normalized device coordinate of the center of row `y` on a canvas `height` pixels high,
/// `1 - (y + 1/2) / height * 2`, as numerator and denominator: rows go down while it goes up.
pub open spec fn ndc_y_fraction(y: int, height: int) -> (int, int) {
    (height - 2 * y - 1, height)
}

/// Maps pixel column `x` to the horizontal normalized device coordinate of its center,
/// about -1 at the left edge and about 1 at the right one.
pub fn calculate_ndc_x(x: i32, width: u16) -> (r: Fraction)
    requires
        width > 0,
    ensures
        (r.numerator as int, r.denominator as int) == ndc_x_fraction(x as int, width as int),
{
    Fraction { numerator: 2 * (x as i64) + 1 - width as i64, denominator: width }
}

/// Maps pixel row `y` to the vertical normalized device coordinate of its center,
/// about 1 at the top edge and about -1 at the bottom one.
pub fn calculate_ndc_y(y: i32, height: u16) -> (r: Fraction)
    requires
        height > 0,
    ensures
        (r.numerator as int, r.denominator as int) == ndc_y_fraction(y as int, height as int),
{
    Fraction { numerator: height as i64 - 2 * (y as i64) - 1, denominator: height }
}

/// Columns mirrored about the center get opposite coordinates, and row `k` gets the
/// opposite of what column `k` gets on a canvas of the same size.
pub proof fn lemma_ndc_mirror(k: int, size: int)
    requires
        size > 0,
    ensures
        ndc_x_fraction(size - 1 - k, size).0 == -ndc_x_fraction(k, size).0,
        ndc_y_fraction(k, size).0 == -ndc_x_fraction(k, size).0,
        ndc_x_fraction(k, size).1 == ndc_y_fraction(k, size).1,
{
}

} // verus!
