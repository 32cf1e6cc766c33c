//! Moving and resizing clients with the keyboard or the mouse: the
//! geometry at the start of a drag, after each step or pointer motion, and
//! at its end.

use vstd::prelude::*;
use crate::bits::{has_all, has_any, intersects, contains};
use crate::client::{Client, MODE_BORDERLESS, DEAD};
use crate::grab::DirectionOrder;
use crate::rect::Rect;
use crate::size::{AspectArgs, aspect_width_ok, border_of, hints_apply, hinted_geom, hints_ok, snap_ok, snapped};
use crate::spacing::Spacing;

verus! {

/// Whether a drag moves or resizes.
#[derive(Clone, Copy, Debug, PartialEq, Eq, Structural)]
pub enum DragMode {
    Move,
    Resize,
}

/// The drag holds the left edge.
pub const EDGE_LEFT: u32 = 1;
/// The drag holds the right edge.
pub const EDGE_RIGHT: u32 = 2;
/// The drag holds the top edge.
pub const EDGE_TOP: u32 = 4;
/// The drag holds the bottom edge.
pub const EDGE_BOTTOM: u32 = 8;

/// A value fits into 16 signed bits.
pub open spec fn fits_i16(v: int) -> bool {
    i16::MIN <= v <= i16::MAX
}

/// The edges a drag holds: left or right, top or bottom, by the half of
/// the window the pointer is in.
pub open spec fn drag_edge_of(win_x: i16, win_y: i16, width: u16, height: u16) -> u32 {
    (if win_x < ((width / 2) as i16) {
        EDGE_LEFT
    } else {
        EDGE_RIGHT
    }) | (if win_y < ((height / 2) as i16) {
        EDGE_TOP
    } else {
        EDGE_BOTTOM
    })
}

/// The geometry and held edges at the start of a drag of a window of
/// `width` by `height`: the window's position from the pointer position on
/// the root window (`root_x`, `root_y`) and in the window (`win_x`,
/// `win_y`).
pub fn drag_start(root_x: i16, root_y: i16, win_x: i16, win_y: i16, width: u16, height: u16) -> (r: (Rect, u32))
    requires
        fits_i16(root_x - win_x),
        fits_i16(root_y - win_y),
    ensures
        r.0 == (Rect { x: (root_x - win_x) as i16, y: (root_y - win_y) as i16, width, height }),
        r.1 == drag_edge_of(win_x, win_y, width, height),
{
    let geom = Rect { x: root_x - win_x, y: root_y - win_y, width, height };
    let h = if win_x < (width / 2) as i16 {
        EDGE_LEFT
    } else {
        EDGE_RIGHT
    };
    let v = if win_y < (height / 2) as i16 {
        EDGE_TOP
    } else {
        EDGE_BOTTOM
    };
    (geom, h | v)
}

/// The geometry after one keyboard step, before snapping and size hints:
/// up moves up (or grows upwards by the height increment), right moves down
/// (or grows by the height increment), down and left move left (or grow to
/// the left by the width increment).
pub open spec fn stepped(geom: Rect, mode: DragMode, dir: DirectionOrder, width_inc: u16, height_inc: u16, step: i16) -> Rect {
    match dir {
        DirectionOrder::Up => if mode == DragMode::Resize {
            Rect { y: (geom.y - (height_inc as i16)) as i16, height: (geom.height + height_inc) as u16, ..geom }
        } else {
            Rect { y: (geom.y - step) as i16, ..geom }
        },
        DirectionOrder::Right => if mode == DragMode::Resize {
            Rect { height: (geom.height + height_inc) as u16, ..geom }
        } else {
            Rect { y: (geom.y + step) as i16, ..geom }
        },
        DirectionOrder::Down | DirectionOrder::Left => if mode == DragMode::Resize {
            Rect { x: (geom.x - (width_inc as i16)) as i16, width: (geom.width + width_inc) as u16, ..geom }
        } else {
            Rect { x: (geom.x - step) as i16, ..geom }
        },
        DirectionOrder::Mouse => geom,
    }
}

/// One keyboard step fits the numbers.
pub open spec fn step_ok(geom: Rect, mode: DragMode, dir: DirectionOrder, width_inc: u16, height_inc: u16, step: i16) -> bool {
    match dir {
        DirectionOrder::Up => if mode == DragMode::Resize {
            fits_i16(geom.y - (height_inc as i16)) && geom.height + height_inc <= u16::MAX
        } else {
            fits_i16(geom.y - step)
        },
        DirectionOrder::Right => if mode == DragMode::Resize {
            geom.height + height_inc <= u16::MAX
        } else {
            fits_i16(geom.y + step)
        },
        DirectionOrder::Down | DirectionOrder::Left => if mode == DragMode::Resize {
            fits_i16(geom.x - (width_inc as i16)) && geom.width + width_inc <= u16::MAX
        } else {
            fits_i16(geom.x - step)
        },
        DirectionOrder::Mouse => true,
    }
}

/// Signed value of an unsigned count, as a cast gives it.
fn signed(v: u16) -> (r: i16)
    ensures
        r == (v as i16),
{
    #[verifier::truncate]
    (v as i16)
}

/// The geometry after one keyboard step (see `stepped`).
pub fn step_geom(geom: Rect, mode: DragMode, dir: DirectionOrder, width_inc: u16, height_inc: u16, step: i16) -> (r: Rect)
    requires
        step_ok(geom, mode, dir, width_inc, height_inc, step),
    ensures
        r == stepped(geom, mode, dir, width_inc, height_inc, step),
{
    let mut g = geom;
    match dir {
        DirectionOrder::Up => {
            if mode == DragMode::Resize {
                g.y = g.y - signed(height_inc);
                g.height = g.height + height_inc;
            } else {
                g.y = g.y - step;
            }
        },
        DirectionOrder::Right => {
            if mode == DragMode::Resize {
                g.height = g.height + height_inc;
            } else {
                g.y = g.y + step;
            }
        },
        DirectionOrder::Down | DirectionOrder::Left => {
            if mode == DragMode::Resize {
                g.x = g.x - signed(width_inc);
                g.width = g.width + width_inc;
            } else {
                g.x = g.x - step;
            }
        },
        DirectionOrder::Mouse => {},
    }
    g
}

/// The geometry snapped to the screen area edges, as `Client::snap` gives it.
pub open spec fn snapped_geom(c: Client, screen: Rect, g: Rect, snap_size: u16, border: i16) -> Rect {
    if has_all(c.flags, DEAD) {
        g
    } else {
        let bw = border_of(c.flags, border);
        Rect {
            x: snapped(screen.x, screen.width, g.x, g.width, bw, snap_size),
            y: snapped(screen.y, screen.height, g.y, g.height, bw, snap_size),
            ..g
        }
    }
}

/// Snapping fits the numbers.
pub open spec fn snap_fits(c: Client, screen: Rect, g: Rect, snap_size: u16, border: i16) -> bool {
    !has_all(c.flags, DEAD) ==> {
        let bw = border_of(c.flags, border);
        &&& snap_ok(screen.x, screen.width, g.x, g.width, bw, snap_size)
        &&& snap_ok(screen.y, screen.height, g.y, g.height, bw, snap_size)
    }
}

/// What the drag knows about the client's frame: border width, snap
/// distance and the clients' margin.
#[derive(Clone, Copy, Debug, PartialEq, Eq, Structural)]
pub struct DragFrame {
    pub border: i16,
    pub snap_size: u16,
    pub margin: Spacing,
}

/// The size hints of a client applied to `g` within `bounds`, as
/// `Client::apply_size_hints` gives them, with the width that `aspect`
/// returns where hints apply.
pub open spec fn hints_result<F: Fn(AspectArgs) -> u16>(
    c: Client,
    frame: DragFrame,
    bounds: Rect,
    adjust_x: bool,
    adjust_y: bool,
    g: Rect,
    r: Rect,
    aspect: F,
) -> bool {
    &&& !hints_apply(c.flags) ==> r == g
    &&& hints_apply(c.flags) ==> {
        let h = hinted_geom(c, frame.border, frame.margin, bounds, adjust_x, adjust_y, g);
        &&& r.x == h.x
        &&& r.y == h.y
        &&& r.height == h.height
        &&& aspect_width_ok(c, h, aspect, r.width)
    }
}

impl Client {
    /// One keyboard step of a drag: step the geometry (see `stepped`), snap
    /// it to the screen area's edges and apply the size hints within it.
    /// Dead clients are not dragged.
    pub fn drag_step<F: Fn(AspectArgs) -> u16>(
        &self,
        geom: &mut Rect,
        mode: DragMode,
        dir: DirectionOrder,
        step: i16,
        screen: Rect,
        frame: DragFrame,
        aspect: &F,
    )
        requires
            !has_all(self.flags, DEAD) && dir != DirectionOrder::Mouse ==> {
                let s = stepped(*old(geom), mode, dir, self.width_inc, self.height_inc, step);
                let t = snapped_geom(*self, screen, s, frame.snap_size, frame.border);
                &&& step_ok(*old(geom), mode, dir, self.width_inc, self.height_inc, step)
                &&& snap_fits(*self, screen, s, frame.snap_size, frame.border)
                &&& hints_ok(*self, frame.border, frame.margin, screen, false, false, t)
            },
            forall|a: AspectArgs| aspect.requires((a,)),
        ensures
            has_all(self.flags, DEAD) || dir == DirectionOrder::Mouse ==> *final(geom) == *old(geom),
            !has_all(self.flags, DEAD) && dir != DirectionOrder::Mouse ==> {
                let s = stepped(*old(geom), mode, dir, self.width_inc, self.height_inc, step);
                let t = snapped_geom(*self, screen, s, frame.snap_size, frame.border);
                hints_result(*self, frame, screen, false, false, t, *final(geom), *aspect)
            },
    {
        if contains(self.flags, DEAD) {
            return;
        }
        if let DirectionOrder::Mouse = dir {
            return;
        }
        let mut g = step_geom(*geom, mode, dir, self.width_inc, self.height_inc, step);
        self.snap(screen, &mut g, frame.snap_size, frame.border);
        self.apply_size_hints(frame.border, frame.margin, screen, false, false, &mut g, aspect);
        *geom = g;
    }
}

/// Where a mouse resize is anchored: the fixed far edges (`fx`, `fy`) and
/// the pointer's distances from the held edges (`dx`, `dy`).
#[derive(Clone, Copy, Debug, PartialEq, Eq, Structural)]
pub struct DragAnchor {
    pub fx: i16,
    pub fy: i16,
    pub dx: i16,
    pub dy: i16,
}

/// The anchor of a mouse drag of `geom` held at `edge`, with the pointer at
/// (`root_x`, `root_y`) and the client at `client_geom`.
pub open spec fn anchor_of(geom: Rect, client_geom: Rect, root_x: i16, root_y: i16, edge: u32) -> DragAnchor {
    let (fx, dx) = if has_any(edge, EDGE_LEFT) {
        ((geom.x + (geom.width as i16)) as i16, (root_x - client_geom.x) as i16)
    } else if has_any(edge, EDGE_RIGHT) {
        (geom.x, (geom.x + (geom.width as i16) - root_x) as i16)
    } else {
        (0i16, 0i16)
    };
    let (fy, dy) = if has_any(edge, EDGE_TOP) {
        ((geom.y + (geom.height as i16)) as i16, (root_y - client_geom.y) as i16)
    } else if has_any(edge, EDGE_BOTTOM) {
        (geom.y, (geom.y + (geom.height as i16) - root_y) as i16)
    } else {
        (0i16, 0i16)
    };
    DragAnchor { fx, fy, dx, dy }
}

/// Computing the anchor fits the numbers.
pub open spec fn anchor_ok(geom: Rect, client_geom: Rect, root_x: i16, root_y: i16, edge: u32) -> bool {
    &&& has_any(edge, EDGE_LEFT) ==> fits_i16(geom.x + (geom.width as i16)) && fits_i16(root_x - client_geom.x)
    &&& !has_any(edge, EDGE_LEFT) && has_any(edge, EDGE_RIGHT) ==> fits_i16(geom.x + (geom.width as i16))
        && fits_i16(geom.x + (geom.width as i16) - root_x)
    &&& has_any(edge, EDGE_TOP) ==> fits_i16(geom.y + (geom.height as i16)) && fits_i16(root_y - client_geom.y)
    &&& !has_any(edge, EDGE_TOP) && has_any(edge, EDGE_BOTTOM) ==> fits_i16(geom.y + (geom.height as i16))
        && fits_i16(geom.y + (geom.height as i16) - root_y)
}

/// The anchor of a mouse drag (see `anchor_of`).
pub fn drag_anchor(geom: Rect, client_geom: Rect, root_x: i16, root_y: i16, edge: u32) -> (r: DragAnchor)
    requires
        anchor_ok(geom, client_geom, root_x, root_y, edge),
    ensures
        r == anchor_of(geom, client_geom, root_x, root_y, edge),
{
    let mut a = DragAnchor { fx: 0, fy: 0, dx: 0, dy: 0 };
    if intersects(edge, EDGE_LEFT) {
        a.fx = geom.x + signed(geom.width);
        a.dx = root_x - client_geom.x;
    } else if intersects(edge, EDGE_RIGHT) {
        a.fx = geom.x;
        a.dx = geom.x + signed(geom.width) - root_x;
    }
    if intersects(edge, EDGE_TOP) {
        a.fy = geom.y + signed(geom.height);
        a.dy = root_y - client_geom.y;
    } else if intersects(edge, EDGE_BOTTOM) {
        a.fy = geom.y;
        a.dy = geom.y + signed(geom.height) - root_y;
    }
    a
}

/// The geometry a mouse resize gives with the pointer at (`x`, `y`), before
/// size hints: the held edges follow the pointer, the far ones stay.
pub open spec fn resized_by_pointer(geom: Rect, a: DragAnchor, edge: u32, x: i16, y: i16) -> Rect {
    let (gx, gw) = if has_any(edge, EDGE_LEFT) {
        ((x - a.dx) as i16, ((x + a.dx) as i16) as u16)
    } else if has_any(edge, EDGE_RIGHT) {
        (a.fx, ((x - a.fx + a.dx) as i16) as u16)
    } else {
        (geom.x, geom.width)
    };
    let (gy, gh) = if has_any(edge, EDGE_TOP) {
        ((y - a.dy) as i16, ((a.fy - y + a.dy) as i16) as u16)
    } else {
        (a.fy, ((y - a.fy + a.dy) as i16) as u16)
    };
    Rect { x: gx, y: gy, width: gw, height: gh }
}

/// A mouse resize step fits the numbers.
pub open spec fn pointer_resize_ok(a: DragAnchor, edge: u32, x: i16, y: i16) -> bool {
    &&& has_any(edge, EDGE_LEFT) ==> fits_i16(x - a.dx) && fits_i16(x + a.dx)
    &&& !has_any(edge, EDGE_LEFT) && has_any(edge, EDGE_RIGHT) ==> fits_i16(x - a.fx) && fits_i16(x - a.fx + a.dx)
    &&& has_any(edge, EDGE_TOP) ==> fits_i16(y - a.dy) && fits_i16(a.fy - y) && fits_i16(a.fy - y + a.dy)
    &&& !has_any(edge, EDGE_TOP) ==> fits_i16(y - a.fy) && fits_i16(y - a.fy + a.dy)
}

/// Unsigned value of a signed count, as a cast gives it.
fn unsigned(v: i16) -> (r: u16)
    ensures
        r == (v as u16),
{
    #[verifier::truncate]
    (v as u16)
}

/// The geometry a mouse move gives with the pointer at (`x`, `y`), where it
/// started at (`root_x`, `root_y`) on the root window and (`win_x`,
/// `win_y`) in the window.
pub open spec fn moved_by_pointer(geom: Rect, root_x: i16, root_y: i16, win_x: i16, win_y: i16, x: i16, y: i16) -> Rect {
    Rect { x: ((root_x - win_x) - (root_x - x)) as i16, y: ((root_y - win_y) - (root_y - y)) as i16, ..geom }
}

/// Where the pointer started a mouse drag.
#[derive(Clone, Copy, Debug, PartialEq, Eq, Structural)]
pub struct DragStart {
    pub root_x: i16,
    pub root_y: i16,
    pub win_x: i16,
    pub win_y: i16,
}

/// A mouse move step fits the numbers.
pub open spec fn pointer_move_ok(s: DragStart, x: i16, y: i16) -> bool {
    &&& fits_i16(s.root_x - s.win_x)
    &&& fits_i16(s.root_x - x)
    &&& fits_i16((s.root_x - s.win_x) - (s.root_x - x))
    &&& fits_i16(s.root_y - s.win_y)
    &&& fits_i16(s.root_y - y)
    &&& fits_i16((s.root_y - s.win_y) - (s.root_y - y))
}

impl Client {
    /// One pointer motion of a mouse drag to (`x`, `y`): a move follows the
    /// pointer from where it started and snaps to the screen area's edges; a
    /// resize moves the held edges (see `resized_by_pointer`) and applies the
    /// size hints, adjusting the position at held left and top edges.
    pub fn drag_motion<F: Fn(AspectArgs) -> u16>(
        &self,
        geom: &mut Rect,
        mode: DragMode,
        edge: u32,
        anchor: DragAnchor,
        start: DragStart,
        x: i16,
        y: i16,
        screen: Rect,
        frame: DragFrame,
        aspect: &F,
    )
        requires
            mode == DragMode::Move ==> {
                let m = moved_by_pointer(*old(geom), start.root_x, start.root_y, start.win_x, start.win_y, x, y);
                &&& pointer_move_ok(start, x, y)
                &&& snap_fits(*self, screen, m, frame.snap_size, frame.border)
            },
            mode == DragMode::Resize ==> {
                let r = resized_by_pointer(*old(geom), anchor, edge, x, y);
                &&& pointer_resize_ok(anchor, edge, x, y)
                &&& hints_ok(
                    *self,
                    frame.border,
                    frame.margin,
                    screen,
                    has_any(edge, EDGE_LEFT),
                    has_any(edge, EDGE_TOP),
                    r,
                )
            },
            forall|a: AspectArgs| aspect.requires((a,)),
        ensures
            mode == DragMode::Move ==> *final(geom) == snapped_geom(
                *self,
                screen,
                moved_by_pointer(*old(geom), start.root_x, start.root_y, start.win_x, start.win_y, x, y),
                frame.snap_size,
                frame.border,
            ),
            mode == DragMode::Resize ==> hints_result(
                *self,
                frame,
                screen,
                has_any(edge, EDGE_LEFT),
                has_any(edge, EDGE_TOP),
                resized_by_pointer(*old(geom), anchor, edge, x, y),
                *final(geom),
                *aspect,
            ),
    {
        let mut g = *geom;
        if mode == DragMode::Move {
            g.x = (start.root_x - start.win_x) - (start.root_x - x);
            g.y = (start.root_y - start.win_y) - (start.root_y - y);
            self.snap(screen, &mut g, frame.snap_size, frame.border);
        } else {
            if intersects(edge, EDGE_LEFT) {
                g.x = x - anchor.dx;
                g.width = unsigned(x + anchor.dx);
            } else if intersects(edge, EDGE_RIGHT) {
                g.x = anchor.fx;
                g.width = unsigned(x - anchor.fx + anchor.dx);
            }
            if intersects(edge, EDGE_TOP) {
                g.y = y - anchor.dy;
                g.height = unsigned(anchor.fy - y + anchor.dy);
            } else {
                g.y = anchor.fy;
                g.height = unsigned(y - anchor.fy + anchor.dy);
            }
            self.apply_size_hints(
                frame.border,
                frame.margin,
                screen,
                intersects(edge, EDGE_LEFT),
                intersects(edge, EDGE_TOP),
                &mut g,
                aspect,
            );
        }
        *geom = g;
    }
}

/// The geometry at the end of a mouse drag: moved up and left by the
/// clients' top border unless the client is borderless.
pub fn drag_finish(geom: Rect, flags: u32, border_top: i16) -> (r: Rect)
    requires
        !has_any(flags, MODE_BORDERLESS) ==> fits_i16(geom.x - border_top) && fits_i16(geom.y - border_top),
    ensures
        r == (if has_any(flags, MODE_BORDERLESS) {
            geom
        } else {
            Rect { x: (geom.x - border_top) as i16, y: (geom.y - border_top) as i16, ..geom }
        }),
{
    if intersects(flags, MODE_BORDERLESS) {
        geom
    } else {
        Rect { x: geom.x - border_top, y: geom.y - border_top, ..geom }
    }
}

} // verus!
