//! Managed client windows: their modes, size hints, placement and stacking.

use vstd::prelude::*;
use crate::bits::{contains, intersects, has_all, has_any};
use crate::rect::Rect;

verus! {

/// Dead window.
pub const DEAD: u32 = 1u32 << 0u32;
/// Send focus message.
pub const FOCUS: u32 = 1u32 << 1u32;
/// Active/passive focus-model.
pub const INPUT: u32 = 1u32 << 2u32;
/// Send close message.
pub const CLOSE: u32 = 1u32 << 3u32;
/// Ignore unmaps.
pub const UNMAP: u32 = 1u32 << 4u32;
/// Re-arrange client.
pub const ARRANGE: u32 = 1u32 << 5u32;
/// Fullscreen mode (also used in tags).
pub const MODE_FULL: u32 = 1u32 << 6u32;
/// Float mode.
pub const MODE_FLOAT: u32 = 1u32 << 7u32;
/// Stick mode.
pub const MODE_STICK: u32 = 1u32 << 8u32;
/// Stick tagged screen mode.
pub const MODE_STICK_SCREEN: u32 = 1u32 << 9u32;
/// Urgent mode.
pub const MODE_URGENT: u32 = 1u32 << 10u32;
/// Resize mode.
pub const MODE_RESIZE: u32 = 1u32 << 11u32;
/// Zaphod mode.
pub const MODE_ZAPHOD: u32 = 1u32 << 12u32;
/// Fixed size mode.
pub const MODE_FIXED: u32 = 1u32 << 13u32;
/// Center position mode.
pub const MODE_CENTER: u32 = 1u32 << 14u32;
/// Borderless.
pub const MODE_BORDERLESS: u32 = 1u32 << 15u32;
/// Normal type (also used in match).
pub const TYPE_NORMAL: u32 = 1u32 << 16u32;
/// Desktop type.
pub const TYPE_DESKTOP: u32 = 1u32 << 17u32;
/// Dock type.
pub const TYPE_DOCK: u32 = 1u32 << 18u32;
/// Toolbar type.
pub const TYPE_TOOLBAR: u32 = 1u32 << 19u32;
/// Splash type.
pub const TYPE_SPLASH: u32 = 1u32 << 20u32;
/// Dialog type.
pub const TYPE_DIALOG: u32 = 1u32 << 21u32;
/// Catch all for modes.
pub const ALL_MODES: u32 = MODE_FULL | MODE_FLOAT | MODE_STICK | MODE_STICK_SCREEN | MODE_URGENT
    | MODE_RESIZE | MODE_ZAPHOD | MODE_FIXED | MODE_CENTER | MODE_BORDERLESS;

/// Smallest width of a client window.
pub const MIN_WIDTH: u16 = 1;
/// Smallest height of a client window.
pub const MIN_HEIGHT: u16 = 1;

/// Restacking direction of a client among clients of the same level.
#[derive(Clone, Copy, Debug, PartialEq, Eq, Structural)]
pub enum RestackOrder {
    Unset,
    Down,
    Up,
}

impl RestackOrder {
    /// The numeric code of the order.
    pub fn code(self) -> (r: u32)
        ensures
            r == match self {
                RestackOrder::Unset => 0u32,
                RestackOrder::Down => 1u32,
                RestackOrder::Up => 2u32,
            },
    {
        match self {
            RestackOrder::Unset => 0,
            RestackOrder::Down => 1,
            RestackOrder::Up => 2,
        }
    }

    /// The order with the given numeric code.
    pub fn from_repr(code: u8) -> (r: Option<RestackOrder>)
        ensures
            r == (if code == 0 {
                Some(RestackOrder::Unset)
            } else if code == 1 {
                Some(RestackOrder::Down)
            } else if code == 2 {
                Some(RestackOrder::Up)
            } else {
                None
            }),
    {
        if code == 0 {
            Some(RestackOrder::Unset)
        } else if code == 1 {
            Some(RestackOrder::Down)
        } else if code == 2 {
            Some(RestackOrder::Up)
        } else {
            None
        }
    }
}

/// A managed window with its modes, tags, size hints and placement.
#[derive(Debug)]
pub struct Client {
    pub flags: u32,
    pub tags: u32,
    pub win: u32,
    pub leader: u32,
    pub name: String,
    pub instance: String,
    pub klass: String,
    pub role: String,
    /// Minimum and maximum aspect ratio as numerator and denominator, if the
    /// client asked for them.
    pub aspect: Option<((i32, i32), (i32, i32))>,
    pub min_width: u16,
    pub min_height: u16,
    pub max_width: i16,
    pub max_height: i16,
    pub width_inc: u16,
    pub height_inc: u16,
    pub base_width: u16,
    pub base_height: u16,
    pub screen_idx: isize,
    pub gravity_idx: isize,
    pub geom: Rect,
    pub order: RestackOrder,
    /// Gravity of the client per view.
    pub gravities: Vec<usize>,
}

/// A client with the given flags and tags is shown when the visible tags
/// meet its tags or it is a desktop or sticks.
pub open spec fn visible_with(visible_tags: u32, flags: u32, tags: u32) -> bool {
    has_any(visible_tags, tags) || has_any(flags, TYPE_DESKTOP | MODE_STICK)
}

impl Client {
    /// Whether the client is shown with the given visible tags.
    pub fn is_visible(&self, visible_tags: u32) -> (r: bool)
        ensures
            r == visible_with(visible_tags, self.flags, self.tags),
    {
        intersects(visible_tags, self.tags) || intersects(self.flags, TYPE_DESKTOP | MODE_STICK)
    }

    /// Set the restacking order of the client.
    pub fn restack(&mut self, order: RestackOrder)
        ensures
            *final(self) == (Client { order, ..*old(self) }),
    {
        self.order = order;
    }

    /// Whether the client is not marked as dead.
    pub fn is_alive(&self) -> (r: bool)
        ensures
            r == !has_any(self.flags, DEAD),
    {
        !intersects(self.flags, DEAD)
    }
}

/// Half of a side of a window, as a signed offset (rounded toward zero).
pub open spec fn half_side(side: u16) -> int {
    let v = (side as i16) as int;
    if v >= 0 {
        v / 2
    } else {
        -((-v) / 2)
    }
}

/// The pointer can be warped to the center of `geom` without overflow.
pub open spec fn warp_fits(geom: Rect) -> bool {
    &&& i16::MIN <= geom.x + half_side(geom.width) <= i16::MAX
    &&& i16::MIN <= geom.y + half_side(geom.height) <= i16::MAX
}

/// Where the pointer goes when it is warped to a window with geometry
/// `geom`: its center, `x` plus half the width and `y` plus half the
/// height; `None` where that overflows 16 bits.
pub fn warp_target(geom: Rect) -> (r: Option<(i16, i16)>)
    ensures
        r == (if warp_fits(geom) {
            Some(((geom.x + half_side(geom.width)) as i16, (geom.y + half_side(geom.height)) as i16))
        } else {
            None
        }),
{
    let w = #[verifier::truncate] (geom.width as i16) / 2;
    let h = #[verifier::truncate] (geom.height as i16) / 2;
    let x = geom.x as i32 + w as i32;
    let y = geom.y as i32 + h as i32;
    if -32768 <= x && x <= 32767 && -32768 <= y && y <= 32767 {
        Some((x as i16, y as i16))
    } else {
        None
    }
}

} // verus!
