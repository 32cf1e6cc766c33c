//! Styles: colors, borders, padding, margin and font of drawn items.

use vstd::prelude::*;
use crate::font::Font;
use crate::spacing::{Spacing, inherited_side};

verus! {

/// Style has a custom font.
pub const STYLE_FONT: u32 = 1;
/// Style has a separator.
pub const STYLE_SEPARATOR: u32 = 2;

/// The dimension of a style to measure.
#[derive(Clone, Copy, Debug, PartialEq, Eq, Structural)]
pub enum CalcSpacing {
    Top,
    Right,
    Bottom,
    Left,
    Width,
    Height,
}

/// Colors, border, padding, margin and font; `-1` marks unset values.
#[derive(Clone, Copy, Debug, PartialEq, Eq, Structural)]
pub struct Style {
    pub flags: u32,
    pub min_width: i16,
    pub fg: i32,
    pub bg: i32,
    pub icon: i32,
    pub top: i32,
    pub right: i32,
    pub bottom: i32,
    pub left: i32,
    pub border: Spacing,
    pub padding: Spacing,
    pub margin: Spacing,
    pub font_id: isize,
}

/// Width and height are computed from the sides.
pub open spec fn spacing_rank(s: CalcSpacing) -> nat {
    match s {
        CalcSpacing::Width => 1,
        CalcSpacing::Height => 1,
        _ => 0,
    }
}

/// A value fits into 16 signed bits.
pub open spec fn fits_i16(v: int) -> bool {
    i16::MIN <= v <= i16::MAX
}

/// An unset value takes the other one.
pub open spec fn inherited(own: int, other: int) -> int {
    if own == -1 {
        other
    } else {
        own
    }
}

impl Style {
    /// Sum of border, padding and margin on one side.
    pub open spec fn side(self, s: CalcSpacing) -> int {
        match s {
            CalcSpacing::Top => self.border.top + self.padding.top + self.margin.top,
            CalcSpacing::Right => self.border.right + self.padding.right + self.margin.right,
            CalcSpacing::Bottom => self.border.bottom + self.padding.bottom + self.margin.bottom,
            CalcSpacing::Left => self.border.left + self.padding.left + self.margin.left,
            CalcSpacing::Width => 0,
            CalcSpacing::Height => 0,
        }
    }

    /// The spacing of the style in the given dimension: one side, or the sum
    /// of left and right (width) or top and bottom (height).
    pub open spec fn spacing(self, s: CalcSpacing) -> int {
        match s {
            CalcSpacing::Width => self.side(CalcSpacing::Left) + self.side(CalcSpacing::Right),
            CalcSpacing::Height => self.side(CalcSpacing::Top) + self.side(CalcSpacing::Bottom),
            _ => self.side(s),
        }
    }

    /// Summing one side does not overflow at any step.
    pub open spec fn side_fits(self, s: CalcSpacing) -> bool {
        match s {
            CalcSpacing::Top => fits_i16(self.border.top + self.padding.top) && fits_i16(self.side(s)),
            CalcSpacing::Right => fits_i16(self.border.right + self.padding.right) && fits_i16(
                self.side(s),
            ),
            CalcSpacing::Bottom => fits_i16(self.border.bottom + self.padding.bottom) && fits_i16(
                self.side(s),
            ),
            CalcSpacing::Left => fits_i16(self.border.left + self.padding.left) && fits_i16(
                self.side(s),
            ),
            _ => true,
        }
    }

    /// Computing the spacing in this dimension does not overflow.
    pub open spec fn spacing_fits(self, s: CalcSpacing) -> bool {
        match s {
            CalcSpacing::Width => self.side_fits(CalcSpacing::Left) && self.side_fits(
                CalcSpacing::Right,
            ) && fits_i16(self.spacing(s)),
            CalcSpacing::Height => self.side_fits(CalcSpacing::Top) && self.side_fits(
                CalcSpacing::Bottom,
            ) && fits_i16(self.spacing(s)),
            _ => self.side_fits(s),
        }
    }

    /// Pixel size of border, padding and margin in the given dimension.
    pub fn calc_spacing(&self, spacing: CalcSpacing) -> (r: i16)
        requires
            self.spacing_fits(spacing),
        ensures
            r == self.spacing(spacing),
        decreases spacing_rank(spacing),
    {
        match spacing {
            CalcSpacing::Top => self.border.top + self.padding.top + self.margin.top,
            CalcSpacing::Right => self.border.right + self.padding.right + self.margin.right,
            CalcSpacing::Bottom => self.border.bottom + self.padding.bottom + self.margin.bottom,
            CalcSpacing::Left => self.border.left + self.padding.left + self.margin.left,
            CalcSpacing::Width => self.calc_spacing(CalcSpacing::Left) + self.calc_spacing(
                CalcSpacing::Right,
            ),
            CalcSpacing::Height => self.calc_spacing(CalcSpacing::Top) + self.calc_spacing(
                CalcSpacing::Bottom,
            ),
        }
    }

    /// The style after inheriting from `other`: unset colors, spacing sides
    /// and font come from `other`; the minimum width is at least zero.
    pub open spec fn inherit_from(self, other: Style) -> Style {
        Style {
            flags: self.flags,
            min_width: if self.min_width < 0 {
                0i16
            } else {
                self.min_width
            },
            fg: inherited(self.fg as int, other.fg as int) as i32,
            bg: inherited(self.bg as int, other.bg as int) as i32,
            icon: inherited(self.icon as int, other.icon as int) as i32,
            top: inherited(self.top as int, other.top as int) as i32,
            right: inherited(self.right as int, other.right as int) as i32,
            bottom: inherited(self.bottom as int, other.bottom as int) as i32,
            left: inherited(self.left as int, other.left as int) as i32,
            border: inherit_spacing(self.border, other.border),
            padding: inherit_spacing(self.padding, other.padding),
            margin: inherit_spacing(self.margin, other.margin),
            font_id: inherited(self.font_id as int, other.font_id as int) as isize,
        }
    }

    /// Take unset values from `other_style`.
    pub fn inherit(&mut self, other_style: &Style)
        ensures
            *final(self) == old(self).inherit_from(*other_style),
    {
        if -1 == self.fg {
            self.fg = other_style.fg;
        }
        if -1 == self.bg {
            self.bg = other_style.bg;
        }
        if -1 == self.icon {
            self.icon = other_style.icon;
        }
        if -1 == self.top {
            self.top = other_style.top;
        }
        if -1 == self.right {
            self.right = other_style.right;
        }
        if -1 == self.bottom {
            self.bottom = other_style.bottom;
        }
        if -1 == self.left {
            self.left = other_style.left;
        }
        self.border.inherit(&other_style.border, false);
        self.padding.inherit(&other_style.padding, false);
        self.margin.inherit(&other_style.margin, false);
        if -1 == self.font_id {
            self.font_id = other_style.font_id;
        }
        if self.min_width < 0 {
            self.min_width = 0;
        }
    }

    /// The style after resetting to `default_value`; icon and font stay
    /// unset so that they are never inherited as zero.
    pub open spec fn reset_to(self, default_value: i32) -> Style {
        let d = default_value as i16;
        let sp = Spacing { top: d, right: d, bottom: d, left: d };
        Style {
            fg: default_value,
            bg: default_value,
            top: default_value,
            right: default_value,
            bottom: default_value,
            left: default_value,
            border: sp,
            padding: sp,
            margin: sp,
            icon: -1i32,
            font_id: -1isize,
            ..self
        }
    }

    /// Set colors and spacings to `default_value`; icon and font become unset.
    pub fn reset(&mut self, default_value: i32)
        ensures
            *final(self) == old(self).reset_to(default_value),
    {
        self.fg = default_value;
        self.bg = default_value;
        self.top = default_value;
        self.right = default_value;
        self.bottom = default_value;
        self.left = default_value;
        self.border.reset(default_value as i16);
        self.padding.reset(default_value as i16);
        self.margin.reset(default_value as i16);
        self.icon = -1;
        self.font_id = -1;
    }

    /// The font of this style among `fonts`, if it has one.
    pub fn get_font<'a>(&self, fonts: &'a Vec<Font>) -> (r: Option<&'a Font>)
        ensures
            r == (if 0 <= self.font_id < fonts@.len() {
                Some(&fonts@[self.font_id as int])
            } else {
                None::<&Font>
            }),
    {
        if self.font_id >= 0 && (self.font_id as usize) < fonts.len() {
            Some(&fonts[self.font_id as usize])
        } else {
            None
        }
    }

    /// The unset style: no flags, every value `-1`, spacings zero.
    pub open spec fn spec_default() -> Style {
        Style {
            flags: 0u32,
            min_width: -1i16,
            fg: -1i32,
            bg: -1i32,
            icon: -1i32,
            top: -1i32,
            right: -1i32,
            bottom: -1i32,
            left: -1i32,
            border: Spacing { top: 0i16, right: 0i16, bottom: 0i16, left: 0i16 },
            padding: Spacing { top: 0i16, right: 0i16, bottom: 0i16, left: 0i16 },
            margin: Spacing { top: 0i16, right: 0i16, bottom: 0i16, left: 0i16 },
            font_id: -1isize,
        }
    }
}

/// Spacing after inheriting unset sides from `other`.
pub open spec fn inherit_spacing(own: Spacing, other: Spacing) -> Spacing {
    Spacing {
        top: inherited_side(own.top, other.top, false),
        right: inherited_side(own.right, other.right, false),
        bottom: inherited_side(own.bottom, other.bottom, false),
        left: inherited_side(own.left, other.left, false),
    }
}

impl Default for Style {
    fn default() -> (s: Style)
        ensures
            s == Style::spec_default(),
    {
        let zero = Spacing { top: 0, right: 0, bottom: 0, left: 0 };
        Style {
            flags: 0,
            min_width: -1,
            fg: -1,
            bg: -1,
            icon: -1,
            top: -1,
            right: -1,
            bottom: -1,
            left: -1,
            border: zero,
            padding: zero,
            margin: zero,
            font_id: -1,
        }
    }
}

} // verus!
