//! Gravities: placements of clients as percentages of a screen.

use vstd::prelude::*;
use crate::rect::Rect;
use crate::style::fits_i16;

verus! {

/// Tile clients of the gravity horizontally.
pub const GRAVITY_HORZ: u32 = 1u32 << 0u32;
/// Tile clients of the gravity vertically.
pub const GRAVITY_VERT: u32 = 1u32 << 1u32;

/// A named placement; its geometry holds percentages (0 to 100) of the
/// screen for position and size.
#[derive(Debug)]
pub struct Gravity {
    pub flags: u32,
    pub name: String,
    pub geom: Rect,
}

/// `v` clamped into `[lo, hi]`.
pub open spec fn clamp(v: int, lo: int, hi: int) -> int {
    if v < lo {
        lo
    } else if v > hi {
        hi
    } else {
        v
    }
}

/// Quotient rounded toward zero.
pub open spec fn div_trunc(a: int, b: int) -> int {
    if a >= 0 {
        a / b
    } else {
        -((-a) / b)
    }
}

/// Percentage `pct` of a length, as position offset.
pub open spec fn pct_offset(len: u16, pct: i16) -> int {
    div_trunc((len as i16) * pct, 100)
}

/// Placing a gravity within `bounds` does not overflow.
pub open spec fn apply_ok(g: Rect, bounds: Rect) -> bool {
    &&& fits_i16((bounds.width as i16) * g.x)
    &&& fits_i16(bounds.x + pct_offset(bounds.width, g.x))
    &&& fits_i16((bounds.height as i16) * g.y)
    &&& fits_i16(bounds.y + pct_offset(bounds.height, g.y))
}

/// The geometry of a gravity placed within `bounds`.
pub open spec fn placed(g: Rect, bounds: Rect) -> Rect {
    Rect {
        x: (bounds.x + pct_offset(bounds.width, g.x)) as i16,
        y: (bounds.y + pct_offset(bounds.height, g.y)) as i16,
        width: ((bounds.width as u32) * (g.width as u32) / 100) as u16,
        height: ((bounds.height as u32) * (g.height as u32) / 100) as u16,
    }
}

fn clamp_i16(v: i16, lo: i16, hi: i16) -> (r: i16)
    requires
        lo <= hi,
    ensures
        r == clamp(v as int, lo as int, hi as int),
{
    if v < lo {
        lo
    } else if v > hi {
        hi
    } else {
        v
    }
}

fn clamp_u16(v: u16, lo: u16, hi: u16) -> (r: u16)
    requires
        lo <= hi,
    ensures
        r == clamp(v as int, lo as int, hi as int),
{
    if v < lo {
        lo
    } else if v > hi {
        hi
    } else {
        v
    }
}

fn mul_u16(a: u16, b: u16) -> (r: u32)
    ensures
        r == (a as u32) * (b as u32),
{
    assert((a as u32) * (b as u32) <= 0xffff * 0xffff) by (nonlinear_arith)
        requires
            a <= 0xffff,
            b <= 0xffff,
    ;
    a as u32 * b as u32
}

fn div100(v: i16) -> (r: i16)
    ensures
        r == div_trunc(v as int, 100),
{
    v / 100
}

/// `div_trunc(v, 100)` of a 32-bit value.
fn div100_i32(v: i32) -> (r: i32)
    requires
        v > i32::MIN,
    ensures
        r == div_trunc(v as int, 100),
{
    if v >= 0 {
        v / 100
    } else {
        -((-v) / 100)
    }
}

/// Whether placing a gravity with geometry `g` within `bounds` does not
/// overflow (see `apply_ok`).
pub fn apply_fits(g: Rect, bounds: Rect) -> (r: bool)
    ensures
        r == apply_ok(g, bounds),
{
    let bw = #[verifier::truncate] (bounds.width as i16) as i32;
    let bh = #[verifier::truncate] (bounds.height as i16) as i32;
    let gx = g.x as i32;
    let gy = g.y as i32;
    assert(-0x4000_0000 <= bw * gx <= 0x4000_0000) by (nonlinear_arith)
        requires
            -32768 <= bw <= 32767,
            -32768 <= gx <= 32767,
    ;
    assert(-0x4000_0000 <= bh * gy <= 0x4000_0000) by (nonlinear_arith)
        requires
            -32768 <= bh <= 32767,
            -32768 <= gy <= 32767,
    ;
    let px = bw * gx;
    let py = bh * gy;
    if px < -32768 || px > 32767 || py < -32768 || py > 32767 {
        return false;
    }
    let x = bounds.x as i32 + div100_i32(px);
    let y = bounds.y as i32 + div100_i32(py);
    -32768 <= x && x <= 32767 && -32768 <= y && y <= 32767
}

impl Gravity {
    /// A gravity with the given name; position is clamped to 0..=100 and
    /// size to 1..=100 percent.
    pub fn new(name: &str, x: u16, y: u16, width: u16, height: u16) -> (g: Gravity)
        ensures
            g.name@ == name@,
            g.flags == 0,
            g.geom.x == clamp((x as i16) as int, 0, 100),
            g.geom.y == clamp((y as i16) as int, 0, 100),
            g.geom.width == clamp(width as int, 1, 100),
            g.geom.height == clamp(height as int, 1, 100),
    {
        Gravity {
            flags: 0,
            name: String::from_str(name),
            geom: Rect {
                x: clamp_i16(#[verifier::truncate] (x as i16), 0, 100),
                y: clamp_i16(#[verifier::truncate] (y as i16), 0, 100),
                width: clamp_u16(width, 1, 100),
                height: clamp_u16(height, 1, 100),
            },
        }
    }

    /// Place this gravity within `bounds`: position and size are the
    /// gravity's percentages of the bounds.
    pub fn apply_size(&self, bounds: &Rect, geom: &mut Rect)
        requires
            apply_ok(self.geom, *bounds),
        ensures
            *final(geom) == placed(self.geom, *bounds),
    {
        geom.x = bounds.x + div100(#[verifier::truncate] (bounds.width as i16) * self.geom.x);
        geom.y = bounds.y + div100(#[verifier::truncate] (bounds.height as i16) * self.geom.y);
        geom.width = #[verifier::truncate] ((mul_u16(bounds.width, self.geom.width) / 100) as u16);
        geom.height = #[verifier::truncate] ((mul_u16(bounds.height, self.geom.height) / 100) as u16);
    }
}

} // verus!
