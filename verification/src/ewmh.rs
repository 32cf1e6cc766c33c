//! EWMH and ICCCM vocabulary: window states and the state flags published
//! for clients.

use vstd::prelude::*;

verus! {

/// ICCCM window state.
#[derive(Clone, Copy, Debug, PartialEq, Eq, Structural)]
pub enum WMState {
    Withdrawn,
    Normal,
}

impl WMState {
    /// The numeric value of the state.
    pub fn code(self) -> (r: u8)
        ensures
            r == (if self is Withdrawn {
                0u8
            } else {
                1u8
            }),
    {
        match self {
            WMState::Withdrawn => 0,
            WMState::Normal => 1,
        }
    }
}

pub const EWMH_FULL: u32 = 1u32 << 0u32;
pub const EWMH_FLOAT: u32 = 1u32 << 1u32;
pub const EWMH_STICK: u32 = 1u32 << 2u32;
pub const EWMH_RESIZE: u32 = 1u32 << 3u32;
pub const EWMH_URGENT: u32 = 1u32 << 4u32;
pub const EWMH_ZAPHOD: u32 = 1u32 << 5u32;
pub const EWMH_FIXED: u32 = 1u32 << 6u32;
pub const EWMH_CENTER: u32 = 1u32 << 7u32;
pub const EWMH_BORDERLESS: u32 = 1u32 << 8u32;
pub const EWMH_VISIBLE: u32 = 1u32 << 9u32;
pub const EWMH_HIDDEN: u32 = 1u32 << 10u32;
pub const EWMH_HORZ: u32 = 1u32 << 11u32;
pub const EWMH_VERT: u32 = 1u32 << 12u32;

/// A `_NET_WM_STATE` entry.
#[derive(Clone, Copy, Debug, PartialEq, Eq, Structural)]
pub enum NetWmState {
    Fullscreen,
    Above,
    Sticky,
    DemandsAttention,
}

} // verus!
