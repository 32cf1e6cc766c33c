//! The stacking order of clients: desktops at the bottom, then tiled
//! clients, floating clients and fullscreen clients on top.

use vstd::prelude::*;
use std::cmp::Ordering;
use crate::bits::{has_any, intersects};
use crate::client::{Client, RestackOrder, MODE_FLOAT, MODE_FULL, TYPE_DESKTOP};

verus! {

/// The order between two clients of the same level: by the restack
/// direction of the first, else of the second, else equal.
pub open spec fn direction_of(a: RestackOrder, b: RestackOrder) -> Ordering {
    if a == RestackOrder::Down {
        Ordering::Less
    } else if a == RestackOrder::Up {
        Ordering::Greater
    } else if b == RestackOrder::Down {
        Ordering::Greater
    } else if b == RestackOrder::Up {
        Ordering::Less
    } else {
        Ordering::Equal
    }
}

/// The stacking level of a client: desktops 0, tiled clients 1, floating
/// clients 2 and fullscreen clients 3.
pub open spec fn level(flags: u32) -> int {
    if has_any(flags, TYPE_DESKTOP) {
        0
    } else if has_any(flags, MODE_FULL) {
        3
    } else if has_any(flags, MODE_FLOAT) {
        2
    } else {
        1
    }
}

/// How client `a` stacks against client `b`: the one on the lower level
/// is below, and clients of one level go by their restack direction.
pub open spec fn stack_order(a_flags: u32, a_order: RestackOrder, b_flags: u32, b_order: RestackOrder) -> Ordering {
    if level(a_flags) < level(b_flags) {
        Ordering::Less
    } else if level(a_flags) > level(b_flags) {
        Ordering::Greater
    } else {
        direction_of(a_order, b_order)
    }
}

/// The stacking level of a client with `flags`.
fn stack_level(flags: u32) -> (r: u8)
    ensures
        r == level(flags),
{
    if intersects(flags, TYPE_DESKTOP) {
        0
    } else if intersects(flags, MODE_FULL) {
        3
    } else if intersects(flags, MODE_FLOAT) {
        2
    } else {
        1
    }
}

impl Client {
    /// How this client stacks against `other` (see `stack_order`).
    pub fn cmp(&self, other: &Client) -> (r: Ordering)
        ensures
            r == stack_order(self.flags, self.order, other.flags, other.order),
    {
        let a = stack_level(self.flags);
        let b = stack_level(other.flags);
        if a < b {
            Ordering::Less
        } else if a > b {
            Ordering::Greater
        } else if self.order == RestackOrder::Down {
            Ordering::Less
        } else if self.order == RestackOrder::Up {
            Ordering::Greater
        } else if other.order == RestackOrder::Down {
            Ordering::Greater
        } else if other.order == RestackOrder::Up {
            Ordering::Less
        } else {
            Ordering::Equal
        }
    }

    /// Two clients are the same when they manage the same window.
    pub fn eq(&self, other: &Client) -> (r: bool)
        ensures
            r == (self.win == other.win),
    {
        self.win == other.win
    }
}

/// The client on the lower level stacks below the other, seen from either
/// side: desktops below tiled below floating below fullscreen clients.
pub proof fn lemma_stacking_levels(a_flags: u32, a_order: RestackOrder, b_flags: u32, b_order: RestackOrder)
    requires
        level(a_flags) < level(b_flags),
    ensures
        stack_order(a_flags, a_order, b_flags, b_order) == Ordering::Less,
        stack_order(b_flags, b_order, a_flags, a_order) == Ordering::Greater,
{
}

/// Clients on one level whose restack directions are both unset stack
/// equal, and an unset direction yields to the other's direction, which
/// orders the pair the opposite way seen from the other side.
pub proof fn lemma_stacking_direction(a_flags: u32, a_order: RestackOrder, b_flags: u32, b_order: RestackOrder)
    requires
        level(a_flags) == level(b_flags),
        a_order == RestackOrder::Unset,
    ensures
        b_order == RestackOrder::Unset ==> stack_order(a_flags, a_order, b_flags, b_order) == Ordering::Equal,
        b_order == RestackOrder::Down ==> stack_order(a_flags, a_order, b_flags, b_order) == Ordering::Greater
            && stack_order(b_flags, b_order, a_flags, a_order) == Ordering::Less,
        b_order == RestackOrder::Up ==> stack_order(a_flags, a_order, b_flags, b_order) == Ordering::Less
            && stack_order(b_flags, b_order, a_flags, a_order) == Ordering::Greater,
{
}

} // verus!
