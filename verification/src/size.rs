//! Sizing client windows: size hints, fitting into bounds, snapping to
//! screen edges.

use vstd::prelude::*;
use crate::bits::{contains, has_all};
use crate::client::{Client, MODE_BORDERLESS, MODE_FIXED, MODE_FLOAT, MODE_FULL, MODE_RESIZE, TYPE_DOCK};
use crate::rect::Rect;
use crate::spacing::Spacing;
use crate::style::fits_i16;
use crate::toggle::{half, fits, half_i32};

verus! {

/// Border width of a client: none when borderless.
pub open spec fn border_of(flags: u32, border: i16) -> i16 {
    if has_all(flags, MODE_BORDERLESS) {
        0
    } else {
        border
    }
}

impl Client {
    /// Border width of this client with the given style border.
    pub fn get_border_width(&self, border: i16) -> (r: i16)
        ensures
            r == border_of(self.flags, border),
    {
        if contains(self.flags, MODE_BORDERLESS) {
            0
        } else {
            border
        }
    }
}

/// Size hints are honored for resizable clients that are not fixed.
pub open spec fn hints_apply(flags: u32) -> bool {
    !has_all(flags, MODE_FIXED) && (has_all(flags, MODE_RESIZE) || has_all(
        flags,
        MODE_FLOAT | MODE_RESIZE,
    ))
}

/// Width taken by borders and horizontal margins.
pub open spec fn frame_width(c: Client, border: i16, margin: Spacing) -> u16 {
    (2 * border_of(c.flags, border) + margin.left + margin.right) as u16
}

/// Largest width the hints allow inside `bounds`.
pub open spec fn max_width_of(c: Client, bounds: Rect, frame: u16) -> u16 {
    if c.max_width == -1 {
        (bounds.width - frame) as u16
    } else {
        c.max_width as u16
    }
}

/// Largest height the hints allow inside `bounds`.
pub open spec fn max_height_of(c: Client, bounds: Rect, frame: u16) -> u16 {
    if c.max_height == -1 {
        (bounds.height - frame) as u16
    } else {
        c.max_height as u16
    }
}

/// A length clamped to the minimum first and then to the maximum.
pub open spec fn clamp_len(v: u16, min: u16, max: u16) -> u16 {
    let v1 = if v < min {
        min
    } else {
        v
    };
    if v1 > max {
        max
    } else {
        v1
    }
}

/// What is left over of a clamped width after the base width, in steps of
/// the width increment.
pub open spec fn width_rest(c: Client, bounds: Rect, frame: u16, w: u16) -> u16 {
    ((clamp_len(w, c.min_width, max_width_of(c, bounds, frame)) - c.base_width) % (c.width_inc as int)) as u16
}

/// What is left over of a clamped height after the base height.
pub open spec fn height_rest(c: Client, bounds: Rect, frame: u16, h: u16) -> u16 {
    ((clamp_len(h, c.min_height, max_height_of(c, bounds, frame)) - c.base_height) % (c.height_inc as int)) as u16
}

/// The geometry after size hints, before aspect ratios: clamped to the
/// minimum and maximum size and cut down to whole increments (moving the
/// position by the cut when adjusting that side).
pub open spec fn hinted_geom(c: Client, border: i16, margin: Spacing, bounds: Rect, adjust_x: bool, adjust_y: bool, g: Rect) -> Rect {
    let frame = frame_width(c, border, margin);
    let dw = width_rest(c, bounds, frame, g.width);
    let dh = height_rest(c, bounds, frame, g.height);
    Rect {
        x: if adjust_x {
            (g.x + (dw as i16)) as i16
        } else {
            g.x
        },
        y: if adjust_y {
            (g.y + (dh as i16)) as i16
        } else {
            g.y
        },
        width: (clamp_len(g.width, c.min_width, max_width_of(c, bounds, frame)) - dw) as u16,
        height: (clamp_len(g.height, c.min_height, max_height_of(c, bounds, frame)) - dh) as u16,
    }
}

/// Applying the size hints does not overflow or divide by zero.
pub open spec fn hints_ok(c: Client, border: i16, margin: Spacing, bounds: Rect, adjust_x: bool, adjust_y: bool, g: Rect) -> bool {
    let b = border_of(c.flags, border);
    let frame = frame_width(c, border, margin);
    hints_apply(c.flags) ==> {
        &&& fits_i16(2 * b)
        &&& fits_i16(2 * b + margin.left)
        &&& fits_i16(2 * b + margin.left + margin.right)
        &&& c.max_width == -1 ==> bounds.width >= frame
        &&& c.max_height == -1 ==> bounds.height >= frame
        &&& clamp_len(g.width, c.min_width, max_width_of(c, bounds, frame)) >= c.base_width
        &&& clamp_len(g.height, c.min_height, max_height_of(c, bounds, frame)) >= c.base_height
        &&& c.width_inc != 0
        &&& c.height_inc != 0
        &&& adjust_x ==> fits_i16(g.x + (width_rest(c, bounds, frame, g.width) as i16))
        &&& adjust_y ==> fits_i16(g.y + (height_rest(c, bounds, frame, g.height) as i16))
    }
}

/// The arguments an aspect function is called with: the aspect hints, the
/// current size of the client, and the hinted height and width.
pub type AspectArgs = (Option<((i32, i32), (i32, i32))>, u16, u16, u16, u16);

impl Client {
    /// Apply the size hints of the client to `geom` within `bounds`: clamp to
    /// the minimum and maximum size, cut down to whole increments above the
    /// base size, and, where the client has aspect hints, let `aspect` adjust
    /// the width to the aspect limits.
    /// Nothing changes for fixed or non-resizable clients.
    pub fn apply_size_hints<F: Fn(AspectArgs) -> u16>(
        &self,
        border: i16,
        margin: Spacing,
        bounds: Rect,
        adjust_x: bool,
        adjust_y: bool,
        geom: &mut Rect,
        aspect: &F,
    )
        requires
            hints_ok(*self, border, margin, bounds, adjust_x, adjust_y, *old(geom)),
            forall|a: AspectArgs| aspect.requires((a,)),
        ensures
            !hints_apply(self.flags) ==> *final(geom) == *old(geom),
            hints_apply(self.flags) ==> {
                let h = hinted_geom(*self, border, margin, bounds, adjust_x, adjust_y, *old(geom));
                &&& final(geom).x == h.x
                &&& final(geom).y == h.y
                &&& final(geom).height == h.height
                &&& aspect_width_ok(*self, h, *aspect, final(geom).width)
            },
    {
        if !contains(self.flags, MODE_FIXED) && (contains(self.flags, MODE_RESIZE) || contains(
            self.flags,
            MODE_FLOAT | MODE_RESIZE,
        )) {
            let border_width = #[verifier::truncate] ((2 * self.get_border_width(border) + margin.left
                + margin.right) as u16);
            // Calculate max width and max height for bounds
            let max_width = if -1 == self.max_width {
                bounds.width - border_width
            } else {
                #[verifier::truncate] (self.max_width as u16)
            };
            let max_height = if -1 == self.max_height {
                bounds.height - border_width
            } else {
                #[verifier::truncate] (self.max_height as u16)
            };
            // Limit width and height
            if geom.width < self.min_width {
                geom.width = self.min_width;
            }
            if geom.width > max_width {
                geom.width = max_width;
            }
            if geom.height < self.min_height {
                geom.height = self.min_height;
            }
            if geom.height > max_height {
                geom.height = max_height;
            }
            // Adjust based on increment values (see ICCCM 4.1.2.3)
            let rw = geom.width - self.base_width;
            let rh = geom.height - self.base_height;
            let diff_width = rw % self.width_inc;
            let diff_height = rh % self.height_inc;
            assert(diff_width <= rw) by (nonlinear_arith)
                requires
                    diff_width == rw % self.width_inc,
                    self.width_inc > 0,
            ;
            assert(diff_height <= rh) by (nonlinear_arith)
                requires
                    diff_height == rh % self.height_inc,
                    self.height_inc > 0,
            ;
            if adjust_x {
                geom.x = geom.x + #[verifier::truncate] (diff_width as i16);
            }
            if adjust_y {
                geom.y = geom.y + #[verifier::truncate] (diff_height as i16);
            }
            geom.width = geom.width - diff_width;
            geom.height = geom.height - diff_height;
            // Check aspect ratios
            if self.aspect.is_some() {
                geom.width = aspect((self.aspect, self.geom.width, self.geom.height, geom.height, geom.width));
            }
        }
    }
}

/// Geometry fitted into `bounds`: cut to the bounds size unless fixed, and
/// moved back inside when it sticks out (centered for floating clients).
/// Fullscreen docks are left alone.
pub open spec fn fit_geom(flags: u32, g: Rect, bounds: Rect) -> Rect {
    if has_all(flags, MODE_FULL | TYPE_DOCK) {
        g
    } else {
        let w = if !has_all(flags, MODE_FIXED) && g.width > bounds.width {
            bounds.width
        } else {
            g.width
        };
        let h = if !has_all(flags, MODE_FIXED) && g.height > bounds.height {
            bounds.height
        } else {
            g.height
        };
        let max_x = bounds.x + (bounds.width as i16);
        let max_y = bounds.y + (bounds.height as i16);
        let x = if g.x < bounds.x || g.x > max_x || g.x + (w as i16) > max_x {
            if has_all(flags, MODE_FLOAT) {
                (bounds.x + half((bounds.width as i16) - (w as i16))) as i16
            } else {
                bounds.x
            }
        } else {
            g.x
        };
        let y = if g.y < bounds.y || g.y > max_y || g.y + (h as i16) > max_y {
            if has_all(flags, MODE_FLOAT) {
                (bounds.y + half((bounds.height as i16) - (h as i16))) as i16
            } else {
                bounds.y
            }
        } else {
            g.y
        };
        Rect { x, y, width: w, height: h }
    }
}

/// Fitting into the bounds does not overflow.
pub open spec fn fit_ok(flags: u32, g: Rect, bounds: Rect) -> bool {
    !has_all(flags, MODE_FULL | TYPE_DOCK) ==> {
        let w = if !has_all(flags, MODE_FIXED) && g.width > bounds.width {
            bounds.width
        } else {
            g.width
        };
        let h = if !has_all(flags, MODE_FIXED) && g.height > bounds.height {
            bounds.height
        } else {
            g.height
        };
        let max_x = bounds.x + (bounds.width as i16);
        let max_y = bounds.y + (bounds.height as i16);
        &&& fits_i16(max_x)
        &&& fits_i16(max_y)
        &&& !(g.x < bounds.x || g.x > max_x) ==> fits_i16(g.x + (w as i16))
        &&& !(g.y < bounds.y || g.y > max_y) ==> fits_i16(g.y + (h as i16))
        &&& has_all(flags, MODE_FLOAT) ==> {
            &&& fits_i16((bounds.width as i16) - (w as i16))
            &&& fits_i16(bounds.x + half((bounds.width as i16) - (w as i16)))
            &&& fits_i16((bounds.height as i16) - (h as i16))
            &&& fits_i16(bounds.y + half((bounds.height as i16) - (h as i16)))
        }
    }
}

fn half_i16(v: i16) -> (r: i16)
    ensures
        r == half(v as int),
{
    v / 2
}

/// Fit `geom` into `bounds` for a client with the given flags.
pub fn fit_into(flags: u32, geom: Rect, bounds: Rect) -> (r: Rect)
    requires
        fit_ok(flags, geom, bounds),
    ensures
        r == fit_geom(flags, geom, bounds),
{
    let mut g = geom;
    if !contains(flags, MODE_FULL | TYPE_DOCK) {
        if !contains(flags, MODE_FIXED) {
            if g.width > bounds.width {
                g.width = bounds.width;
            }
            if g.height > bounds.height {
                g.height = bounds.height;
            }
        }
        let max_x = bounds.x + #[verifier::truncate] (bounds.width as i16);
        let max_y = bounds.y + #[verifier::truncate] (bounds.height as i16);
        if g.x < bounds.x || g.x > max_x || g.x + #[verifier::truncate] (g.width as i16) > max_x {
            if contains(flags, MODE_FLOAT) {
                g.x = bounds.x + half_i16(#[verifier::truncate] (bounds.width as i16) - #[verifier::truncate] (g.width as i16));
            } else {
                g.x = bounds.x;
            }
        }
        if g.y < bounds.y || g.y > max_y || g.y + #[verifier::truncate] (g.height as i16) > max_y {
            if contains(flags, MODE_FLOAT) {
                g.y = bounds.y + half_i16(#[verifier::truncate] (bounds.height as i16) - #[verifier::truncate] (g.height as i16));
            } else {
                g.y = bounds.y;
            }
        }
    }
    g
}

} // verus!

verus! {

/// The hinted geometry with the width an aspect function chose.
pub open spec fn with_width(g: Rect, w: u16) -> Rect {
    Rect { width: w, ..g }
}

/// The arguments the aspect function gets for client `c` and hinted
/// geometry `h`.
pub open spec fn aspect_args(c: Client, h: Rect) -> AspectArgs {
    (c.aspect, c.geom.width, c.geom.height, h.height, h.width)
}

/// The width `w` after the aspect step for client `c` and hinted geometry
/// `h`: the hinted width without aspect hints, else a width that the aspect
/// function returns for them.
pub open spec fn aspect_width_ok<F: Fn(AspectArgs) -> u16>(c: Client, h: Rect, aspect: F, w: u16) -> bool {
    if c.aspect is None {
        w == h.width
    } else {
        aspect.ensures((aspect_args(c, h),), w)
    }
}

/// Resizing with these inputs does not overflow, whatever width the aspect
/// function chooses.
pub open spec fn resize_ok<F: Fn(AspectArgs) -> u16>(c: Client, bounds: Rect, use_size_hints: bool, border: i16, margin: Spacing, aspect: F) -> bool {
    if use_size_hints && hints_apply(c.flags) {
        let h = hinted_geom(c, border, margin, bounds, false, false, c.geom);
        &&& hints_ok(c, border, margin, bounds, false, false, c.geom)
        &&& forall|w: u16| aspect_width_ok(c, h, aspect, w) ==> fit_ok(c.flags, with_width(h, w), bounds)
    } else {
        fit_ok(c.flags, c.geom, bounds)
    }
}

/// The geometry after resizing: the hinted geometry (with a width that the
/// aspect function chose) fitted into `bounds`.
pub open spec fn resized<F: Fn(AspectArgs) -> u16>(c: Client, bounds: Rect, use_size_hints: bool, border: i16, margin: Spacing, aspect: F, r: Rect) -> bool {
    if use_size_hints && hints_apply(c.flags) {
        let h = hinted_geom(c, border, margin, bounds, false, false, c.geom);
        exists|w: u16| aspect_width_ok(c, h, aspect, w) && r == fit_geom(c.flags, with_width(h, w), bounds)
    } else {
        r == fit_geom(c.flags, c.geom, bounds)
    }
}

impl Client {
    /// Resize the client within `bounds`, honoring its size hints when asked.
    pub fn resize<F: Fn(AspectArgs) -> u16>(
        &mut self,
        bounds: Rect,
        use_size_hints: bool,
        border: i16,
        margin: Spacing,
        aspect: &F,
    )
        requires
            resize_ok(*old(self), bounds, use_size_hints, border, margin, *aspect),
            forall|a: AspectArgs| aspect.requires((a,)),
        ensures
            resized(*old(self), bounds, use_size_hints, border, margin, *aspect, final(self).geom),
            *final(self) == (Client { geom: final(self).geom, ..*old(self) }),
    {
        let mut geom = self.geom;
        if use_size_hints {
            self.apply_size_hints(border, margin, bounds, false, false, &mut geom, aspect);
        }
        proof {
            if use_size_hints && hints_apply(self.flags) {
                let h = hinted_geom(*self, border, margin, bounds, false, false, self.geom);
                assert(geom == with_width(h, geom.width));
            }
        }
        self.geom = fit_into(self.flags, geom, bounds);
    }
}

/// Absolute value.
pub open spec fn abs(v: int) -> int {
    if v < 0 {
        -v
    } else {
        v
    }
}

/// Position on one axis after snapping: to the screen start (plus border)
/// when within `snap` of it, else to the screen end (minus border) when the
/// far edge is within `snap` of it.
pub open spec fn snapped(s_pos: i16, s_len: u16, pos: i16, len: u16, bw: i16, snap: u16) -> i16 {
    if abs(s_pos - pos) <= (snap as i16) {
        (s_pos + bw) as i16
    } else if abs((s_pos + (s_len as i16)) - (pos + (len as i16) + bw)) <= (snap as i16) {
        (s_pos + (((s_len - len) as u16) as i16) - bw) as i16
    } else {
        pos
    }
}

/// Snapping on one axis does not overflow.
pub open spec fn snap_ok(s_pos: i16, s_len: u16, pos: i16, len: u16, bw: i16, snap: u16) -> bool {
    &&& fits_i16(s_pos - pos)
    &&& s_pos - pos != i16::MIN
    &&& if abs(s_pos - pos) <= (snap as i16) {
        fits_i16(s_pos + bw)
    } else {
        &&& fits_i16(s_pos + (s_len as i16))
        &&& fits_i16(pos + (len as i16))
        &&& fits_i16(pos + (len as i16) + bw)
        &&& fits_i16((s_pos + (s_len as i16)) - (pos + (len as i16) + bw))
        &&& (s_pos + (s_len as i16)) - (pos + (len as i16) + bw) != i16::MIN
        &&& abs((s_pos + (s_len as i16)) - (pos + (len as i16) + bw)) <= (snap as i16) ==> {
            &&& s_len >= len
            &&& fits_i16(s_pos + (((s_len - len) as u16) as i16))
            &&& fits_i16(s_pos + (((s_len - len) as u16) as i16) - bw)
        }
    }
}

fn abs_i16(v: i16) -> (r: i16)
    requires
        v != i16::MIN,
    ensures
        r == abs(v as int),
{
    if v < 0 {
        -v
    } else {
        v
    }
}

fn snap_axis(s_pos: i16, s_len: u16, pos: i16, len: u16, bw: i16, snap: u16) -> (r: i16)
    requires
        snap_ok(s_pos, s_len, pos, len, bw, snap),
    ensures
        r == snapped(s_pos, s_len, pos, len, bw, snap),
{
    let snap_i = #[verifier::truncate] (snap as i16);
    if abs_i16(s_pos - pos) <= snap_i {
        s_pos + bw
    } else {
        let far = (s_pos + #[verifier::truncate] (s_len as i16)) - (pos + #[verifier::truncate] (len as i16) + bw);
        if abs_i16(far) <= snap_i {
            s_pos + #[verifier::truncate] ((s_len - len) as i16) - bw
        } else {
            pos
        }
    }
}

impl Client {
    /// Snap `geom` to the edges of the screen area `screen` when it comes
    /// within `snap_size` of them. Dead clients leave it alone.
    pub fn snap(&self, screen: Rect, geom: &mut Rect, snap_size: u16, border: i16)
        requires
            !has_all(self.flags, crate::client::DEAD) ==> {
                let bw = border_of(self.flags, border);
                &&& snap_ok(screen.x, screen.width, old(geom).x, old(geom).width, bw, snap_size)
                &&& snap_ok(screen.y, screen.height, old(geom).y, old(geom).height, bw, snap_size)
            },
        ensures
            has_all(self.flags, crate::client::DEAD) ==> *final(geom) == *old(geom),
            !has_all(self.flags, crate::client::DEAD) ==> {
                let bw = border_of(self.flags, border);
                *final(geom) == Rect {
                    x: snapped(screen.x, screen.width, old(geom).x, old(geom).width, bw, snap_size),
                    y: snapped(screen.y, screen.height, old(geom).y, old(geom).height, bw, snap_size),
                    ..*old(geom)
                }
            },
    {
        if contains(self.flags, crate::client::DEAD) {
            return;
        }
        let bw = self.get_border_width(border);
        geom.x = snap_axis(screen.x, screen.width, geom.x, geom.width, bw, snap_size);
        geom.y = snap_axis(screen.y, screen.height, geom.y, geom.height, bw, snap_size);
    }
}

/// Whether the size hints can be applied to `g` without overflow or
/// division by zero (see `hints_ok`).
pub fn hints_fit(c: &Client, border: i16, margin: Spacing, bounds: Rect, adjust_x: bool, adjust_y: bool, g: Rect) -> (r:
    bool)
    ensures
        r == hints_ok(*c, border, margin, bounds, adjust_x, adjust_y, g),
{
    if !(!contains(c.flags, MODE_FIXED) && (contains(c.flags, MODE_RESIZE) || contains(
        c.flags,
        MODE_FLOAT | MODE_RESIZE,
    ))) {
        return true;
    }
    let b = c.get_border_width(border) as i32;
    let l = margin.left as i32;
    let rt = margin.right as i32;
    if !fits(2 * b) || !fits(2 * b + l) || !fits(2 * b + l + rt) {
        return false;
    }
    let frame: u16 = #[verifier::truncate] ((2 * b + l + rt) as u16);
    assert(frame == frame_width(*c, border, margin));
    if c.max_width == -1 && bounds.width < frame {
        return false;
    }
    if c.max_height == -1 && bounds.height < frame {
        return false;
    }
    let max_w: u16 = if c.max_width == -1 {
        bounds.width - frame
    } else {
        #[verifier::truncate] (c.max_width as u16)
    };
    let max_h: u16 = if c.max_height == -1 {
        bounds.height - frame
    } else {
        #[verifier::truncate] (c.max_height as u16)
    };
    let w1 = if g.width < c.min_width {
        c.min_width
    } else {
        g.width
    };
    let cw = if w1 > max_w {
        max_w
    } else {
        w1
    };
    let h1 = if g.height < c.min_height {
        c.min_height
    } else {
        g.height
    };
    let ch = if h1 > max_h {
        max_h
    } else {
        h1
    };
    if cw < c.base_width || ch < c.base_height || c.width_inc == 0 || c.height_inc == 0 {
        return false;
    }
    let dw = (cw - c.base_width) % c.width_inc;
    let dh = (ch - c.base_height) % c.height_inc;
    if adjust_x && !fits(g.x as i32 + #[verifier::truncate] (dw as i16) as i32) {
        return false;
    }
    if adjust_y && !fits(g.y as i32 + #[verifier::truncate] (dh as i16) as i32) {
        return false;
    }
    true
}

/// Whether fitting `g` into `bounds` does not overflow (see `fit_ok`).
pub fn fit_fits(flags: u32, g: Rect, bounds: Rect) -> (r: bool)
    ensures
        r == fit_ok(flags, g, bounds),
{
    if contains(flags, MODE_FULL | TYPE_DOCK) {
        return true;
    }
    let w = if !contains(flags, MODE_FIXED) && g.width > bounds.width {
        bounds.width
    } else {
        g.width
    };
    let h = if !contains(flags, MODE_FIXED) && g.height > bounds.height {
        bounds.height
    } else {
        g.height
    };
    let wi = #[verifier::truncate] (w as i16) as i32;
    let hi = #[verifier::truncate] (h as i16) as i32;
    let bw = #[verifier::truncate] (bounds.width as i16) as i32;
    let bh = #[verifier::truncate] (bounds.height as i16) as i32;
    let max_x = bounds.x as i32 + bw;
    let max_y = bounds.y as i32 + bh;
    if !fits(max_x) || !fits(max_y) {
        return false;
    }
    if !((g.x as i32) < bounds.x as i32 || g.x as i32 > max_x) && !fits(g.x as i32 + wi) {
        return false;
    }
    if !((g.y as i32) < bounds.y as i32 || g.y as i32 > max_y) && !fits(g.y as i32 + hi) {
        return false;
    }
    if contains(flags, MODE_FLOAT) {
        if !fits(bw - wi) || !fits(bounds.x as i32 + half_i32(bw - wi)) || !fits(bh - hi) || !fits(
            bounds.y as i32 + half_i32(bh - hi),
        ) {
            return false;
        }
    }
    true
}

/// The aspect function gives one width for each of its arguments.
pub open spec fn aspect_deterministic<F: Fn(AspectArgs) -> u16>(aspect: F) -> bool {
    forall|a: AspectArgs, w1: u16, w2: u16|
        aspect.ensures((a,), w1) && aspect.ensures((a,), w2) ==> w1 == w2
}

impl Client {
    /// Whether resizing the client within `bounds` is defined (see
    /// `resize_ok`); calls `aspect` once where the client has aspect hints.
    pub fn resize_fits<F: Fn(AspectArgs) -> u16>(
        &self,
        bounds: Rect,
        use_size_hints: bool,
        border: i16,
        margin: Spacing,
        aspect: &F,
    ) -> (r: bool)
        requires
            forall|a: AspectArgs| aspect.requires((a,)),
            aspect_deterministic(*aspect),
        ensures
            r == resize_ok(*self, bounds, use_size_hints, border, margin, *aspect),
    {
        if use_size_hints && !contains(self.flags, MODE_FIXED) && (contains(self.flags, MODE_RESIZE) || contains(
            self.flags,
            MODE_FLOAT | MODE_RESIZE,
        )) {
            if !hints_fit(self, border, margin, bounds, false, false, self.geom) {
                return false;
            }
            let mut g = self.geom;
            self.apply_size_hints(border, margin, bounds, false, false, &mut g, aspect);
            let ghost h = hinted_geom(*self, border, margin, bounds, false, false, self.geom);
            assert(g == with_width(h, g.width));
            let r = fit_fits(self.flags, g, bounds);
            proof {
                if r {
                    assert forall|w: u16| aspect_width_ok(*self, h, *aspect, w) implies fit_ok(
                        self.flags,
                        with_width(h, w),
                        bounds,
                    ) by {
                        assert(w == g.width);
                    }
                } else {
                    assert(aspect_width_ok(*self, h, *aspect, g.width));
                }
            }
            r
        } else {
            fit_fits(self.flags, self.geom, bounds)
        }
    }
}

/// Two clients agree on everything that sizing reads: flags, geometry and
/// size hints.
pub open spec fn same_sizing(a: Client, b: Client) -> bool {
    &&& a.flags == b.flags
    &&& a.geom == b.geom
    &&& a.aspect == b.aspect
    &&& a.min_width == b.min_width
    &&& a.min_height == b.min_height
    &&& a.max_width == b.max_width
    &&& a.max_height == b.max_height
    &&& a.width_inc == b.width_inc
    &&& a.height_inc == b.height_inc
    &&& a.base_width == b.base_width
    &&& a.base_height == b.base_height
}

/// Resizing is defined for a client exactly when it is for another that
/// agrees with it on what sizing reads.
pub proof fn lemma_resize_ok_same<F: Fn(AspectArgs) -> u16>(
    a: Client,
    b: Client,
    bounds: Rect,
    use_size_hints: bool,
    border: i16,
    margin: Spacing,
    aspect: F,
)
    requires
        same_sizing(a, b),
    ensures
        resize_ok(a, bounds, use_size_hints, border, margin, aspect) == resize_ok(
            b,
            bounds,
            use_size_hints,
            border,
            margin,
            aspect,
        ),
{
    assert(frame_width(a, border, margin) == frame_width(b, border, margin));
    let h = hinted_geom(a, border, margin, bounds, false, false, a.geom);
    assert(h == hinted_geom(b, border, margin, bounds, false, false, b.geom));
    assert(aspect_args(a, h) == aspect_args(b, h));
    assert forall|w: u16| aspect_width_ok(a, h, aspect, w) == aspect_width_ok(b, h, aspect, w) by {}
}

impl Client {
    /// A client with geometry `geom` and the flags and size hints of this
    /// one, to ask sizing questions of.
    pub fn sizing_probe(&self, geom: Rect) -> (p: Client)
        ensures
            same_sizing(p, Client { geom, ..*self }),
    {
        Client {
            flags: self.flags,
            tags: self.tags,
            win: self.win,
            leader: self.leader,
            name: String::new(),
            instance: String::new(),
            klass: String::new(),
            role: String::new(),
            aspect: self.aspect,
            min_width: self.min_width,
            min_height: self.min_height,
            max_width: self.max_width,
            max_height: self.max_height,
            width_inc: self.width_inc,
            height_inc: self.height_inc,
            base_width: self.base_width,
            base_height: self.base_height,
            screen_idx: self.screen_idx,
            gravity_idx: self.gravity_idx,
            geom,
            order: self.order,
            gravities: Vec::new(),
        }
    }
}

} // verus!
