//! Spacing around the four sides of a box (border, padding, margin).

use vstd::prelude::*;
use crate::config::MixedConfigVal;

verus! {

/// Sizes of the four sides; `-1` marks a side that is unset.
#[derive(Clone, Copy, Debug, PartialEq, Eq, Structural, Default)]
pub struct Spacing {
    pub top: i16,
    pub right: i16,
    pub bottom: i16,
    pub left: i16,
}

/// Why a configuration value does not describe a spacing.
#[derive(Clone, Copy, Debug, PartialEq, Eq, Structural)]
pub enum SpacingError {
    /// A list with a number of values other than two, three or four.
    TooManyValues,
    /// Neither an integer nor a list of integers.
    InvalidType,
}

/// The value a side takes when inheriting: unset sides always take the other
/// side; with `merge`, set sides of the other spacing win as well.
pub open spec fn inherited_side(own: i16, other: i16, merge: bool) -> i16 {
    if own == -1 || (merge && other != -1) {
        other
    } else {
        own
    }
}

/// The spacing that `try_from` builds from a configuration value.
pub open spec fn spacing_of(value: MixedConfigVal) -> Result<Spacing, SpacingError> {
    match value {
        MixedConfigVal::I(v) => Ok(
            Spacing { top: v as i16, right: v as i16, bottom: v as i16, left: v as i16 },
        ),
        MixedConfigVal::VI(v) => if v@.len() == 2 {
            Ok(Spacing { top: v@[0] as i16, right: v@[1] as i16, bottom: v@[1] as i16, left: v@[0] as i16 })
        } else if v@.len() == 3 {
            Ok(Spacing { top: v@[0] as i16, right: v@[1] as i16, bottom: v@[1] as i16, left: v@[2] as i16 })
        } else if v@.len() == 4 {
            Ok(Spacing { top: v@[0] as i16, right: v@[1] as i16, bottom: v@[2] as i16, left: v@[3] as i16 })
        } else {
            Err(SpacingError::TooManyValues)
        },
        _ => Err(SpacingError::InvalidType),
    }
}

impl Spacing {
    /// Take unset sides (and with `merge` also every set side of
    /// `other_space`) from `other_space`.
    pub fn inherit(&mut self, other_space: &Spacing, merge: bool)
        ensures
            final(self).top == inherited_side(old(self).top, other_space.top, merge),
            final(self).right == inherited_side(old(self).right, other_space.right, merge),
            final(self).bottom == inherited_side(old(self).bottom, other_space.bottom, merge),
            final(self).left == inherited_side(old(self).left, other_space.left, merge),
    {
        if -1 == self.top || (merge && -1 != other_space.top) {
            self.top = other_space.top;
        }
        if -1 == self.right || (merge && -1 != other_space.right) {
            self.right = other_space.right;
        }
        if -1 == self.bottom || (merge && -1 != other_space.bottom) {
            self.bottom = other_space.bottom;
        }
        if -1 == self.left || (merge && -1 != other_space.left) {
            self.left = other_space.left;
        }
    }

    /// Set all four sides to `default_value`.
    pub fn reset(&mut self, default_value: i16)
        ensures
            *final(self) == (Spacing {
                top: default_value,
                right: default_value,
                bottom: default_value,
                left: default_value,
            }),
    {
        self.top = default_value;
        self.right = default_value;
        self.bottom = default_value;
        self.left = default_value;
    }

    /// A spacing from a configuration value: one integer sets all four
    /// sides; a list of two, three or four integers sets them in turn.
    /// Values are truncated to 16 bits.
    pub fn try_from(value: &MixedConfigVal) -> (r: Result<Spacing, SpacingError>)
        ensures
            r == spacing_of(*value),
    {
        match value {
            MixedConfigVal::I(val) => Ok(
                Spacing {
                    top: *val as i16,
                    right: *val as i16,
                    bottom: *val as i16,
                    left: *val as i16,
                },
            ),
            MixedConfigVal::VI(val) => {
                if val.len() == 2 {
                    Ok(Spacing { top: val[0] as i16, right: val[1] as i16, bottom: val[1] as i16, left: val[0] as i16 })
                } else if val.len() == 3 {
                    Ok(Spacing { top: val[0] as i16, right: val[1] as i16, bottom: val[1] as i16, left: val[2] as i16 })
                } else if val.len() == 4 {
                    Ok(Spacing { top: val[0] as i16, right: val[1] as i16, bottom: val[2] as i16, left: val[3] as i16 })
                } else {
                    Err(SpacingError::TooManyValues)
                }
            },
            _ => Err(SpacingError::InvalidType),
        }
    }
}

} // verus!
