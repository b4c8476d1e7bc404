//! The screen-fit transform: a 4x4 row-major matrix that maps pixel
//! coordinates, centred on the window, into the clip range `[-1, 1]`.
//!
//! Entries are exact fractions; the application turns them into floats.
use vstd::prelude::*;

verus! {

/// The fraction `num / den`.
#[derive(Debug, Clone, Copy, PartialEq, Eq, Structural)]
pub struct Fraction {
    pub num: u32,
    pub den: u32,
}

/// Whether `f` has the value `n / d`.
pub open spec fn has_value(f: Fraction, n: int, d: int) -> bool {
    f.den > 0 && f.num * d == n * f.den
}

/// The entry at `row`, `col` of the screen-fit matrix for a window of
/// `width` by `height` pixels: `1 / (width / 2)` and `1 / (height / 2)` on the
/// first two diagonal places, 1 on the other two, 0 elsewhere.
pub open spec fn screen_fit_entry(width: u32, height: u32, row: int, col: int) -> Fraction {
    if row != col {
        Fraction { num: 0, den: 1 }
    } else if row == 0 {
        Fraction { num: 2, den: width }
    } else if row == 1 {
        Fraction { num: 2, den: height }
    } else {
        Fraction { num: 1, den: 1 }
    }
}

/// The screen-fit transform of a window of a given size.
#[derive(Debug, Clone, Copy, PartialEq, Eq, Structural)]
pub struct Transform {
    width: u32,
    height: u32,
}

impl Transform {
    pub closed spec fn width(&self) -> u32 {
        self.width
    }

    pub closed spec fn height(&self) -> u32 {
        self.height
    }

    /// The entry at `row`, `col`.
    pub open spec fn spec_entry(&self, row: int, col: int) -> Fraction {
        screen_fit_entry(self.width(), self.height(), row, col)
    }

    /// The transform for a window of `width` by `height` pixels; none when
    /// either is zero, as no finite matrix fits such a window.
    pub fn screen_fit(width: u32, height: u32) -> (r: Option<Transform>)
        ensures
            r is Some <==> (width > 0 && height > 0),
            r matches Some(t) ==> t.width() == width && t.height() == height,
    {
        if width == 0 || height == 0 {
            None
        } else {
            Some(Transform { width, height })
        }
    }

    /// The entry at `row`, `col` (row-major, both below 4).
    pub fn entry(&self, row: usize, col: usize) -> (r: Fraction)
        requires
            row < 4,
            col < 4,
        ensures
            r == self.spec_entry(row as int, col as int),
    {
        if row != col {
            Fraction { num: 0, den: 1 }
        } else if row == 0 {
            Fraction { num: 2, den: self.width }
        } else if row == 1 {
            Fraction { num: 2, den: self.height }
        } else {
            Fraction { num: 1, den: 1 }
        }
    }
}

/// The screen-fit diagonal holds the reciprocals of the half-width and the
/// half-height, so a pixel at the window's edge lands on the clip border; the
/// other diagonal entries are 1 and the rest 0.
pub proof fn lemma_screen_fit_diagonal(width: u32, height: u32, t: Transform)
    requires
        width > 0,
        height > 0,
        t.width() == width,
        t.height() == height,
    ensures
        has_value(t.spec_entry(0, 0), 2, width as int),
        has_value(t.spec_entry(1, 1), 2, height as int),
        has_value(t.spec_entry(2, 2), 1, 1),
        has_value(t.spec_entry(3, 3), 1, 1),
        forall|row: int, col: int|
            0 <= row < 4 && 0 <= col < 4 && row != col ==> has_value(
                #[trigger] t.spec_entry(row, col),
                0,
                1,
            ),
{
}

} // verus!
