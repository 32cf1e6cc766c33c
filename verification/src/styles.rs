//! Styles from the configuration: reading one style table, sorting the
//! tables into the styles by their kind, and letting styles inherit from
//! each other.

use vstd::prelude::*;
use crate::config::{ConfigTable, MixedConfigVal};
use crate::font::Font;
use crate::spacing::{Spacing, SpacingError, spacing_of};
use crate::style::{CalcSpacing, Style, STYLE_FONT};
use crate::text::str_eq;

verus! {

/// Why a style table could not be read.
#[derive(Clone, Copy, Debug, PartialEq, Eq, Structural)]
pub enum StyleError {
    /// A color that is no hex color or could not be allocated.
    Color,
    /// A spacing value that is not one.
    Spacing(SpacingError),
}

/// Red, green and blue of a hex color such as `#ff8800`, as the
/// `hex_color` crate reads it; `None` when it is none.
pub uninterp spec fn hex_rgb(s: Seq<char>) -> Option<(u8, u8, u8)>;

/// Read a hex color.
///
/// Trusted: calls `hex_color::HexColor::parse`, whose result depends on
/// the text alone and is named `hex_rgb`; its alpha is not used.
#[verifier::external_body]
fn parse_hex(s: &str) -> (r: Option<(u8, u8, u8)>)
    ensures
        r == hex_rgb(s@),
{
    match hex_color::HexColor::parse(s) {
        Ok(c) => Some((c.r, c.g, c.b)),
        Err(_) => None,
    }
}

/// The color keys of a style table.
pub open spec fn color_keys() -> Seq<Seq<char>> {
    seq![
        "active"@,
        "inactive"@,
        "foreground"@,
        "background"@,
        "border_color"@,
        "border_top_color"@,
        "border_right_color"@,
        "border_bottom_color"@,
        "border_left_color"@,
    ]
}

/// The colors a style table names under the color keys from index `k` on,
/// each with its hex value.
pub open spec fn colors_from(values: ConfigTable, k: int) -> Seq<(Seq<char>, Option<(u8, u8, u8)>)>
    decreases color_keys().len() - k,
{
    if k < 0 || k >= color_keys().len() {
        seq![]
    } else {
        let rest = colors_from(values, k + 1);
        match values.value_of(color_keys()[k]) {
            Some(MixedConfigVal::S(s)) => seq![(s@, hex_rgb(s@))] + rest,
            _ => rest,
        }
    }
}

/// The colors a style table names, each with its hex value (red, green,
/// blue), in the order of the color keys; they are to be allocated before
/// the table is read (see `parse`).
pub fn color_requests(values: &ConfigTable) -> (r: Vec<(String, Option<(u8, u8, u8)>)>)
    ensures
        r@.map_values(|e: (String, Option<(u8, u8, u8)>)| (e.0@, e.1)) == colors_from(*values, 0),
{
    let keys = [
        "active",
        "inactive",
        "foreground",
        "background",
        "border_color",
        "border_top_color",
        "border_right_color",
        "border_bottom_color",
        "border_left_color",
    ];
    proof {
        reveal_strlit("active");
        reveal_strlit("inactive");
        reveal_strlit("foreground");
        reveal_strlit("background");
        reveal_strlit("border_color");
        reveal_strlit("border_top_color");
        reveal_strlit("border_right_color");
        reveal_strlit("border_bottom_color");
        reveal_strlit("border_left_color");
        assert(keys@.map_values(|k: &str| k@) =~= color_keys());
    }
    let mut out: Vec<(String, Option<(u8, u8, u8)>)> = Vec::new();
    let mut k: usize = keys.len();
    while k > 0
        invariant
            k <= keys@.len(),
            keys@.len() == color_keys().len(),
            forall|j: int| 0 <= j < keys@.len() ==> keys@[j]@ == color_keys()[j],
            out@.map_values(|e: (String, Option<(u8, u8, u8)>)| (e.0@, e.1)) == colors_from(*values, k as int),
        decreases k,
    {
        k = k - 1;
        assert(keys@[k as int]@ == color_keys()[k as int]);
        let ghost before = out@;
        if let Some(MixedConfigVal::S(s)) = values.get(keys[k]) {
            let rgb = parse_hex(s.as_str());
            out.insert(0, (s.clone(), rgb));
            proof {
                assert(out@.map_values(|e: (String, Option<(u8, u8, u8)>)| (e.0@, e.1)) =~= seq![
                    (s@, hex_rgb(s@)),
                ] + before.map_values(|e: (String, Option<(u8, u8, u8)>)| (e.0@, e.1)));
            }
        }
    }
    out
}

/// The pixel allocated for a color: the first entry of the table for that
/// color from index `i` on; `None` when it failed or is missing.
pub open spec fn pixel_from(pixels: Seq<(String, Option<i32>)>, color: Seq<char>, i: int) -> Option<i32>
    decreases pixels.len() - i,
{
    if i < 0 || i >= pixels.len() {
        None
    } else if pixels[i].0@ == color {
        pixels[i].1
    } else {
        pixel_from(pixels, color, i + 1)
    }
}

/// The pixel of a color in the table of allocated colors.
fn find_pixel(pixels: &Vec<(String, Option<i32>)>, color: &str) -> (r: Option<i32>)
    ensures
        r == pixel_from(pixels@, color@, 0),
{
    let mut i: usize = 0;
    while i < pixels.len()
        invariant
            i <= pixels.len(),
            pixel_from(pixels@, color@, 0) == pixel_from(pixels@, color@, i as int),
        decreases pixels.len() - i,
    {
        if str_eq(pixels[i].0.as_str(), color) {
            return pixels[i].1;
        }
        i = i + 1;
    }
    None
}

/// The color under `key`: none when the key names no color, its pixel, or
/// an error when it has no pixel.
pub open spec fn color_at(values: ConfigTable, key: Seq<char>, pixels: Seq<(String, Option<i32>)>) -> Result<
    Option<i32>,
    StyleError,
> {
    match values.value_of(key) {
        Some(MixedConfigVal::S(s)) => match pixel_from(pixels, s@, 0) {
            Some(p) => Ok(Some(p)),
            None => Err(StyleError::Color),
        },
        _ => Ok(None),
    }
}

fn get_color(values: &ConfigTable, key: &str, pixels: &Vec<(String, Option<i32>)>) -> (r: Result<Option<i32>, StyleError>)
    ensures
        r == color_at(*values, key@, pixels@),
{
    match values.get(key) {
        Some(MixedConfigVal::S(s)) => match find_pixel(pixels, s.as_str()) {
            Some(p) => Ok(Some(p)),
            None => Err(StyleError::Color),
        },
        _ => Ok(None),
    }
}

/// The integer under `key`, cut to 16 bits.
pub open spec fn int_at(values: ConfigTable, key: Seq<char>) -> Option<i16> {
    match values.value_of(key) {
        Some(MixedConfigVal::I(v)) => Some(v as i16),
        _ => None,
    }
}

fn get_int(values: &ConfigTable, key: &str) -> (r: Option<i16>)
    ensures
        r == int_at(*values, key@),
{
    match values.get(key) {
        Some(MixedConfigVal::I(v)) => Some(#[verifier::truncate] (*v as i16)),
        _ => None,
    }
}

/// The spacing under `key`: none when the key is missing, else the spacing
/// it describes or why it does not.
pub open spec fn spacing_at(values: ConfigTable, key: Seq<char>) -> Result<Option<Spacing>, StyleError> {
    match values.value_of(key) {
        Some(v) => match spacing_of(v) {
            Ok(s) => Ok(Some(s)),
            Err(e) => Err(StyleError::Spacing(e)),
        },
        None => Ok(None),
    }
}

fn get_spacing(values: &ConfigTable, key: &str) -> (r: Result<Option<Spacing>, StyleError>)
    ensures
        r == spacing_at(*values, key@),
{
    match values.get(key) {
        Some(v) => match Spacing::try_from(v) {
            Ok(s) => Ok(Some(s)),
            Err(e) => Err(StyleError::Spacing(e)),
        },
        None => Ok(None),
    }
}

/// The style a table describes once its colors are allocated (`pixels`),
/// or the first error: all values reset to `default_value`, then client
/// colors (`active`, `inactive`), top border width (`border_width`), strut
/// (`strut`, kept as padding), minimum title width (`title_width`), colors
/// (`foreground`, `background`), border colors (`border_color` for all
/// sides, then `border_top_color` and the other sides), border widths
/// (`border_width` for all sides, then `border_top_width` and the others),
/// padding and margin. A `font` names the font to load, which becomes font
/// number `fonts_len`.
pub open spec fn parsed_style(
    values: ConfigTable,
    default_value: i32,
    pixels: Seq<(String, Option<i32>)>,
    fonts_len: int,
) -> Result<(Style, Option<Seq<char>>), StyleError> {
    let s0 = Style::spec_default().reset_to(default_value);
    match (color_at(values, "active"@, pixels), color_at(values, "inactive"@, pixels)) {
        (Err(e), _) => Err(e),
        (Ok(_), Err(e)) => Err(e),
        (Ok(active), Ok(inactive)) => {
            let s1 = Style {
                fg: match active {
                    Some(p) => p,
                    None => s0.fg,
                },
                bg: match inactive {
                    Some(p) => p,
                    None => s0.bg,
                },
                border: match int_at(values, "border_width"@) {
                    Some(w) => Spacing { top: w, ..s0.border },
                    None => s0.border,
                },
                ..s0
            };
            match spacing_at(values, "strut"@) {
                Err(e) => Err(e),
                Ok(strut) => {
                    let s2 = Style {
                        padding: match strut {
                            Some(p) => p,
                            None => s1.padding,
                        },
                        min_width: match int_at(values, "title_width"@) {
                            Some(w) => w,
                            None => s1.min_width,
                        },
                        ..s1
                    };
                    parsed_colors(values, pixels, fonts_len, s2)
                },
            }
        },
    }
}

/// The color under `key`, or `d` where it names none.
pub open spec fn color_or(c: Result<Option<i32>, StyleError>, d: i32) -> i32 {
    match c {
        Ok(Some(p)) => p,
        _ => d,
    }
}

/// Some color of the table from the foreground on has no pixel.
pub open spec fn colors_fail(values: ConfigTable, pixels: Seq<(String, Option<i32>)>) -> bool {
    ||| color_at(values, "foreground"@, pixels) is Err
    ||| color_at(values, "background"@, pixels) is Err
    ||| color_at(values, "border_color"@, pixels) is Err
    ||| color_at(values, "border_top_color"@, pixels) is Err
    ||| color_at(values, "border_right_color"@, pixels) is Err
    ||| color_at(values, "border_bottom_color"@, pixels) is Err
    ||| color_at(values, "border_left_color"@, pixels) is Err
}

/// The style with the colors and border widths of the table.
pub open spec fn colored(values: ConfigTable, pixels: Seq<(String, Option<i32>)>, s2: Style) -> Style {
    let all = color_at(values, "border_color"@, pixels);
    let b0 = match int_at(values, "border_width"@) {
        Some(w) => Spacing { top: w, right: w, bottom: w, left: w },
        None => s2.border,
    };
    Style {
        fg: color_or(color_at(values, "foreground"@, pixels), s2.fg),
        bg: color_or(color_at(values, "background"@, pixels), s2.bg),
        top: color_or(color_at(values, "border_top_color"@, pixels), color_or(all, s2.top)),
        right: color_or(color_at(values, "border_right_color"@, pixels), color_or(all, s2.right)),
        bottom: color_or(color_at(values, "border_bottom_color"@, pixels), color_or(all, s2.bottom)),
        left: color_or(color_at(values, "border_left_color"@, pixels), color_or(all, s2.left)),
        border: Spacing {
            top: match int_at(values, "border_top_width"@) {
                Some(w) => w,
                None => b0.top,
            },
            right: match int_at(values, "border_right_width"@) {
                Some(w) => w,
                None => b0.right,
            },
            bottom: match int_at(values, "border_bottom_width"@) {
                Some(w) => w,
                None => b0.bottom,
            },
            left: match int_at(values, "border_left_width"@) {
                Some(w) => w,
                None => b0.left,
            },
        },
        ..s2
    }
}

/// The end of reading a style table: padding, margin and font.
pub open spec fn parsed_rest(values: ConfigTable, fonts_len: int, s4: Style) -> Result<(Style, Option<Seq<char>>), StyleError> {
    match (spacing_at(values, "padding"@), spacing_at(values, "margin"@)) {
        (Err(e), _) => Err(e),
        (Ok(_), Err(e)) => Err(e),
        (Ok(pad), Ok(mar)) => {
            let s5 = Style {
                padding: match pad {
                    Some(p) => p,
                    None => s4.padding,
                },
                margin: match mar {
                    Some(m) => m,
                    None => s4.margin,
                },
                ..s4
            };
            match values.value_of("font"@) {
                Some(MixedConfigVal::S(name)) => Ok(
                    (Style { font_id: fonts_len as isize, flags: s5.flags | STYLE_FONT, ..s5 }, Some(name@)),
                ),
                _ => Ok((s5, None)),
            }
        },
    }
}

/// The rest of reading a style table, from the colors on.
pub open spec fn parsed_colors(
    values: ConfigTable,
    pixels: Seq<(String, Option<i32>)>,
    fonts_len: int,
    s2: Style,
) -> Result<(Style, Option<Seq<char>>), StyleError> {
    if colors_fail(values, pixels) {
        Err(StyleError::Color)
    } else {
        parsed_rest(values, fonts_len, colored(values, pixels, s2))
    }
}

/// Read a style table (see `parsed_style`), with the pixels of its colors
/// allocated in `pixels` and `fonts_len` fonts loaded so far. Returns the
/// style and the name of the font to load for it.
pub fn parse(values: &ConfigTable, default_value: i32, pixels: &Vec<(String, Option<i32>)>, fonts_len: usize) -> (r:
    Result<(Style, Option<String>), StyleError>)
    requires
        fonts_len <= isize::MAX,
    ensures
        match r {
            Ok((s, None)) => parsed_style(*values, default_value, pixels@, fonts_len as int) == Ok::<
                (Style, Option<Seq<char>>),
                StyleError,
            >((s, None)),
            Ok((s, Some(n))) => parsed_style(*values, default_value, pixels@, fonts_len as int) == Ok::<
                (Style, Option<Seq<char>>),
                StyleError,
            >((s, Some(n@))),
            Err(e) => parsed_style(*values, default_value, pixels@, fonts_len as int) == Err::<
                (Style, Option<Seq<char>>),
                StyleError,
            >(e),
        },
{
    let mut style = Style::default();
    style.reset(default_value);
    if let Some(p) = get_color(values, "active", pixels)? {
        style.fg = p;
    }
    if let Some(p) = get_color(values, "inactive", pixels)? {
        style.bg = p;
    }
    if let Some(w) = get_int(values, "border_width") {
        style.border.top = w;
    }
    if let Some(p) = get_spacing(values, "strut")? {
        style.padding = p;
    }
    if let Some(w) = get_int(values, "title_width") {
        style.min_width = w;
    }
    parse_colors(values, pixels, fonts_len, style)
}

/// The rest of reading a style table, from the colors on (see
/// `parsed_colors`).
fn parse_colors(values: &ConfigTable, pixels: &Vec<(String, Option<i32>)>, fonts_len: usize, style: Style) -> (r:
    Result<(Style, Option<String>), StyleError>)
    requires
        fonts_len <= isize::MAX,
    ensures
        match r {
            Ok((s, None)) => parsed_colors(*values, pixels@, fonts_len as int, style) == Ok::<
                (Style, Option<Seq<char>>),
                StyleError,
            >((s, None)),
            Ok((s, Some(n))) => parsed_colors(*values, pixels@, fonts_len as int, style) == Ok::<
                (Style, Option<Seq<char>>),
                StyleError,
            >((s, Some(n@))),
            Err(e) => parsed_colors(*values, pixels@, fonts_len as int, style) == Err::<
                (Style, Option<Seq<char>>),
                StyleError,
            >(e),
        },
{
    let fg = get_color(values, "foreground", pixels);
    let bg = get_color(values, "background", pixels);
    let all = get_color(values, "border_color", pixels);
    let top = get_color(values, "border_top_color", pixels);
    let right = get_color(values, "border_right_color", pixels);
    let bottom = get_color(values, "border_bottom_color", pixels);
    let left = get_color(values, "border_left_color", pixels);
    if fg.is_err() || bg.is_err() || all.is_err() || top.is_err() || right.is_err() || bottom.is_err()
        || left.is_err() {
        return Err(StyleError::Color);
    }
    let colored_style = apply_colors(values, pixels, style);
    parse_rest(values, fonts_len, colored_style)
}

fn or_color(c: Result<Option<i32>, StyleError>, d: i32) -> (r: i32)
    ensures
        r == color_or(c, d),
{
    match c {
        Ok(Some(p)) => p,
        _ => d,
    }
}

fn apply_colors(values: &ConfigTable, pixels: &Vec<(String, Option<i32>)>, style: Style) -> (r: Style)
    ensures
        r == colored(*values, pixels@, style),
{
    let mut s = style;
    let all = get_color(values, "border_color", pixels);
    s.fg = or_color(get_color(values, "foreground", pixels), style.fg);
    s.bg = or_color(get_color(values, "background", pixels), style.bg);
    s.top = or_color(get_color(values, "border_top_color", pixels), or_color(all, style.top));
    s.right = or_color(get_color(values, "border_right_color", pixels), or_color(all, style.right));
    s.bottom = or_color(get_color(values, "border_bottom_color", pixels), or_color(all, style.bottom));
    s.left = or_color(get_color(values, "border_left_color", pixels), or_color(all, style.left));
    if let Some(w) = get_int(values, "border_width") {
        s.border = Spacing { top: w, right: w, bottom: w, left: w };
    }
    if let Some(w) = get_int(values, "border_top_width") {
        s.border.top = w;
    }
    if let Some(w) = get_int(values, "border_right_width") {
        s.border.right = w;
    }
    if let Some(w) = get_int(values, "border_bottom_width") {
        s.border.bottom = w;
    }
    if let Some(w) = get_int(values, "border_left_width") {
        s.border.left = w;
    }
    s
}

fn parse_rest(values: &ConfigTable, fonts_len: usize, style: Style) -> (r: Result<(Style, Option<String>), StyleError>)
    requires
        fonts_len <= isize::MAX,
    ensures
        match r {
            Ok((s, None)) => parsed_rest(*values, fonts_len as int, style) == Ok::<
                (Style, Option<Seq<char>>),
                StyleError,
            >((s, None)),
            Ok((s, Some(n))) => parsed_rest(*values, fonts_len as int, style) == Ok::<
                (Style, Option<Seq<char>>),
                StyleError,
            >((s, Some(n@))),
            Err(e) => parsed_rest(*values, fonts_len as int, style) == Err::<
                (Style, Option<Seq<char>>),
                StyleError,
            >(e),
        },
{
    let mut style = style;
    if let Some(p) = get_spacing(values, "padding")? {
        style.padding = p;
    }
    if let Some(m) = get_spacing(values, "margin")? {
        style.margin = m;
    }
    match values.get("font") {
        Some(MixedConfigVal::S(name)) => {
            style.font_id = fonts_len as isize;
            style.flags = style.flags | STYLE_FONT;
            Ok((style, Some(name.clone())))
        },
        _ => Ok((style, None)),
    }
}


/// All styles of the window manager.
#[derive(Clone, Copy, Debug)]
pub struct Styles {
    pub all: Style,
    pub views: Style,
    pub views_active: Style,
    pub views_occupied: Style,
    pub views_visible: Style,
    pub title: Style,
    pub urgent: Style,
    pub panels: Style,
    pub separator: Style,
    pub clients: Style,
    pub tray: Style,
    pub top_panel: Style,
    pub bottom_panel: Style,
}

/// The style slot a kind names, with the value that unset fields of its
/// table start with: zero for `all`, `tray` and `clients`, else unset.
pub open spec fn kind_slot(kind: Seq<char>) -> Option<(int, i32)> {
    if kind == "all"@ {
        Some((0int, 0i32))
    } else if kind == "views"@ {
        Some((1int, -1i32))
    } else if kind == "active_views"@ {
        Some((2int, -1i32))
    } else if kind == "occupied_views"@ {
        Some((3int, -1i32))
    } else if kind == "visible_views"@ {
        Some((4int, -1i32))
    } else if kind == "separator"@ {
        Some((8int, -1i32))
    } else if kind == "top_panel"@ {
        Some((11int, -1i32))
    } else if kind == "bottom_panel"@ {
        Some((12int, -1i32))
    } else if kind == "tray"@ {
        Some((10int, 0i32))
    } else if kind == "urgent"@ {
        Some((6int, -1i32))
    } else if kind == "clients"@ {
        Some((9int, 0i32))
    } else if kind == "title"@ {
        Some((5int, -1i32))
    } else {
        None
    }
}

/// The style slot of a style table's kind (see `kind_slot`); `None` for
/// unknown kinds, which are skipped with a warning.
pub fn style_kind(kind: &str) -> (r: Option<(usize, i32)>)
    ensures
        match r {
            Some((k, d)) => kind_slot(kind@) == Some((k as int, d)),
            None => kind_slot(kind@) is None,
        },
{
    if str_eq(kind, "all") {
        Some((0, 0))
    } else if str_eq(kind, "views") {
        Some((1, -1))
    } else if str_eq(kind, "active_views") {
        Some((2, -1))
    } else if str_eq(kind, "occupied_views") {
        Some((3, -1))
    } else if str_eq(kind, "visible_views") {
        Some((4, -1))
    } else if str_eq(kind, "separator") {
        Some((8, -1))
    } else if str_eq(kind, "top_panel") {
        Some((11, -1))
    } else if str_eq(kind, "bottom_panel") {
        Some((12, -1))
    } else if str_eq(kind, "tray") {
        Some((10, 0))
    } else if str_eq(kind, "urgent") {
        Some((6, -1))
    } else if str_eq(kind, "clients") {
        Some((9, 0))
    } else if str_eq(kind, "title") {
        Some((5, -1))
    } else {
        None
    }
}

impl Styles {
    /// Every style unset.
    pub open spec fn spec_default() -> Styles {
        let d = Style::spec_default();
        Styles {
            all: d,
            views: d,
            views_active: d,
            views_occupied: d,
            views_visible: d,
            title: d,
            urgent: d,
            panels: d,
            separator: d,
            clients: d,
            tray: d,
            top_panel: d,
            bottom_panel: d,
        }
    }

    /// The style in slot `k`: all, views, active, occupied and visible
    /// views, title, urgent, panels, separator, clients, tray, top and
    /// bottom panel.
    pub open spec fn slot(self, k: int) -> Style {
        if k == 0 {
            self.all
        } else if k == 1 {
            self.views
        } else if k == 2 {
            self.views_active
        } else if k == 3 {
            self.views_occupied
        } else if k == 4 {
            self.views_visible
        } else if k == 5 {
            self.title
        } else if k == 6 {
            self.urgent
        } else if k == 7 {
            self.panels
        } else if k == 8 {
            self.separator
        } else if k == 9 {
            self.clients
        } else if k == 10 {
            self.tray
        } else if k == 11 {
            self.top_panel
        } else {
            self.bottom_panel
        }
    }

    /// Put `style` into slot `k` (see `slot`).
    pub fn set(&mut self, k: usize, style: Style)
        requires
            k < 13,
        ensures
            final(self).slot(k as int) == style,
            forall|j: int| 0 <= j < 13 && j != k ==> final(self).slot(j) == old(self).slot(j),
    {
        if k == 0 {
            self.all = style;
        } else if k == 1 {
            self.views = style;
        } else if k == 2 {
            self.views_active = style;
        } else if k == 3 {
            self.views_occupied = style;
        } else if k == 4 {
            self.views_visible = style;
        } else if k == 5 {
            self.title = style;
        } else if k == 6 {
            self.urgent = style;
        } else if k == 7 {
            self.panels = style;
        } else if k == 8 {
            self.separator = style;
        } else if k == 9 {
            self.clients = style;
        } else if k == 10 {
            self.tray = style;
        } else if k == 11 {
            self.top_panel = style;
        } else {
            self.bottom_panel = style;
        }
    }
}

impl Default for Styles {
    fn default() -> (s: Styles)
        ensures
            s == Styles::spec_default(),
    {
        let d = Style::default();
        Styles {
            all: d,
            views: d,
            views_active: d,
            views_occupied: d,
            views_visible: d,
            title: d,
            urgent: d,
            panels: d,
            separator: d,
            clients: d,
            tray: d,
            top_panel: d,
            bottom_panel: d,
        }
    }
}

/// The styles after inheriting: views from all, the other view styles from
/// views, and title, tray, urgent, separator and both panels from all.
pub open spec fn inherited_styles(s: Styles) -> Styles {
    let views = s.views.inherit_from(s.all);
    Styles {
        views,
        views_active: s.views_active.inherit_from(views),
        views_occupied: s.views_occupied.inherit_from(views),
        views_visible: s.views_visible.inherit_from(views),
        title: s.title.inherit_from(s.all),
        tray: s.tray.inherit_from(s.all),
        urgent: s.urgent.inherit_from(s.all),
        separator: s.separator.inherit_from(s.all),
        top_panel: s.top_panel.inherit_from(s.all),
        bottom_panel: s.bottom_panel.inherit_from(s.all),
        ..s
    }
}

/// The styles whose fonts decide the panel height.
pub open spec fn panel_styles(s: Styles) -> Seq<Style> {
    seq![
        s.views,
        s.views_active,
        s.views_occupied,
        s.views_visible,
        s.title,
        s.tray,
        s.urgent,
        s.separator,
        s.top_panel,
        s.bottom_panel,
    ]
}

/// The height a style's items need, if it has a font: its vertical
/// spacing and the font's height.
pub open spec fn item_height(style: Style, fonts: Seq<Font>) -> Option<int> {
    if style.font_id != -1 && 0 <= style.font_id < fonts.len() {
        Some(((style.spacing(CalcSpacing::Height) as i16) as u16) + fonts[style.font_id as int].height)
    } else {
        None
    }
}

/// The panel height after the first `n` styles: the largest item height,
/// at least `start`.
pub open spec fn panel_height_of(styles: Seq<Style>, fonts: Seq<Font>, start: int, n: int) -> int
    decreases n,
{
    if n <= 0 || n > styles.len() {
        start
    } else {
        let h = panel_height_of(styles, fonts, start, n - 1);
        match item_height(styles[n - 1], fonts) {
            Some(v) => if v > h {
                v
            } else {
                h
            },
            None => h,
        }
    }
}

/// Updating the styles fits the numbers: each panel style with a font has a
/// vertical spacing that fits, and its item height fits.
pub open spec fn update_fits(s: Styles, fonts: Seq<Font>) -> bool {
    forall|k: int|
        0 <= k < 10 ==> {
            let st = #[trigger] panel_styles(inherited_styles(s))[k];
            st.font_id != -1 && 0 <= st.font_id < fonts.len() ==> {
                &&& st.spacing_fits(CalcSpacing::Height)
                &&& item_height(st, fonts).unwrap() <= u16::MAX
            }
        }
}

/// The panel height with one more style: at least its item height.
fn grow_height(style: &Style, fonts: &Vec<Font>, h: u16) -> (r: u16)
    requires
        style.font_id != -1 && 0 <= style.font_id < fonts.len() ==> {
            &&& style.spacing_fits(CalcSpacing::Height)
            &&& item_height(*style, fonts@).unwrap() <= u16::MAX
        },
    ensures
        r == (match item_height(*style, fonts@) {
            Some(v) => if v > h {
                v
            } else {
                h as int
            },
            None => h as int,
        }),
{
    if style.font_id != -1 {
        if let Some(font) = style.get_font(fonts) {
            let need = (#[verifier::truncate] (style.calc_spacing(CalcSpacing::Height) as u16)) + font.height;
            return if need > h {
                need
            } else {
                h
            };
        }
    }
    h
}

impl Styles {
    /// Let the styles inherit (see `inherited_styles`) and return the panel
    /// height: the largest height that a panel style with a font needs, at
    /// least `panel_height`.
    pub fn update(&mut self, fonts: &Vec<Font>, panel_height: u16) -> (r: u16)
        requires
            update_fits(*old(self), fonts@),
        ensures
            *final(self) == inherited_styles(*old(self)),
            r == panel_height_of(panel_styles(*final(self)), fonts@, panel_height as int, 10),
    {
        let all = self.all;
        self.views.inherit(&all);
        let views = self.views;
        self.views_active.inherit(&views);
        self.views_occupied.inherit(&views);
        self.views_visible.inherit(&views);
        self.title.inherit(&all);
        self.tray.inherit(&all);
        self.urgent.inherit(&all);
        self.separator.inherit(&all);
        self.top_panel.inherit(&all);
        self.bottom_panel.inherit(&all);
        let ghost ps = panel_styles(*self);
        assert(ps[0] == self.views);
        let mut h = grow_height(&self.views, fonts, panel_height);
        assert(ps[1] == self.views_active);
        h = grow_height(&self.views_active, fonts, h);
        assert(ps[2] == self.views_occupied);
        h = grow_height(&self.views_occupied, fonts, h);
        assert(ps[3] == self.views_visible);
        h = grow_height(&self.views_visible, fonts, h);
        assert(ps[4] == self.title);
        h = grow_height(&self.title, fonts, h);
        assert(ps[5] == self.tray);
        h = grow_height(&self.tray, fonts, h);
        assert(ps[6] == self.urgent);
        h = grow_height(&self.urgent, fonts, h);
        assert(ps[7] == self.separator);
        h = grow_height(&self.separator, fonts, h);
        assert(ps[8] == self.top_panel);
        h = grow_height(&self.top_panel, fonts, h);
        assert(ps[9] == self.bottom_panel);
        h = grow_height(&self.bottom_panel, fonts, h);
        proof {
            reveal_with_fuel(panel_height_of, 11);
        }
        h
    }
}

} // verus!
