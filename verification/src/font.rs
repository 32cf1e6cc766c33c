//! Fonts and text extents.

use vstd::prelude::*;

verus! {

/// An opened server font with its baseline offset and line height.
#[derive(Clone, Copy, Debug, PartialEq, Eq, Structural, Default)]
pub struct Font {
    /// Server id of the font.
    pub fontable: u32,
    /// Baseline offset from the top of a line.
    pub y: u16,
    /// Line height: ascent, descent and one pixel above and below.
    pub height: u16,
}

/// The metrics of a font with the given ascent and descent do not overflow.
pub open spec fn metrics_fit(ascent: i16, descent: i16) -> bool {
    let h = ascent + descent + 2;
    &&& i16::MIN <= ascent + descent <= i16::MAX
    &&& i16::MIN <= h <= i16::MAX
    &&& (h as u16) >= 2
    &&& (h as u16) - 2 + (ascent as u16) <= u16::MAX
}

impl Font {
    /// A font record from the ascent and descent that the server reports:
    /// the height is ascent + descent + 2, the baseline sits halfway between
    /// height - 2 + ascent and the top.
    pub fn from_metrics(fontable: u32, ascent: i16, descent: i16) -> (f: Font)
        requires
            metrics_fit(ascent, descent),
        ensures
            f.fontable == fontable,
            f.height == (ascent + descent + 2) as u16,
            f.y == ((f.height - 2 + (ascent as u16)) / 2) as u16,
    {
        let height = (ascent + descent + 2) as u16;
        let y = (height - 2 + ascent as u16) / 2;
        Font { fontable, y, height }
    }
}

/// The extents of a text do not overflow when centered.
pub open spec fn extents_fit(width: i32, left: i32, right: i32, center: bool) -> bool {
    center ==> {
        &&& i32::MIN <= left - right <= i32::MAX
        &&& left - right != i32::MIN
        &&& i32::MIN <= width - abs(left - right) <= i32::MAX
    }
}

/// Absolute value.
pub open spec fn abs(v: int) -> int {
    if v < 0 {
        -v
    } else {
        v
    }
}

/// Width, left and right bearing of a text from the extents the server
/// reports; a centered text loses the difference of both bearings.
pub fn text_extents(width: i32, left: i32, right: i32, center: bool) -> (r: (u16, u16, u16))
    requires
        extents_fit(width, left, right, center),
    ensures
        r.0 == (if center {
            (width - abs(left - right)) as u16
        } else {
            width as u16
        }),
        r.1 == left as u16,
        r.2 == right as u16,
{
    let w = if center {
        let d = left - right;
        let a = if d < 0 {
            -d
        } else {
            d
        };
        width - a
    } else {
        width
    };
    (w as u16, left as u16, right as u16)
}

} // verus!
