//! Icons in the X bitmap format.

use vstd::prelude::*;

verus! {

/// A bitmap icon stored in a server pixmap.
#[derive(Clone, Copy, Debug, PartialEq, Eq, Structural, Default)]
pub struct Icon {
    pub pixmap: u32,
    pub width: u16,
    pub height: u16,
}

} // verus!
