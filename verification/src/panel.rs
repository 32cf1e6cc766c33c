//! Panel items: titles, views, tray, separators and plugins on the top and
//! bottom panel of a screen.

use vstd::prelude::*;
use crate::bits::{has_any, intersects};
use crate::font::Font;
use crate::style::{CalcSpacing, Style};
use crate::view::{TagView, VIEW_MODE_DYNAMIC, VIEW_MODE_ICON, VIEW_MODE_ICON_ONLY};
use crate::text::{str_eq, starts_with, suffix_from, has_prefix};

verus! {

/// Title item.
pub const PANEL_TITLE: u32 = 1;
/// Views item.
pub const PANEL_VIEWS: u32 = 2;
/// Tray item.
pub const PANEL_TRAY: u32 = 4;
/// Icon item.
pub const PANEL_ICON: u32 = 8;
/// Plugin item.
pub const PANEL_PLUGIN: u32 = 16;
/// Separator item.
pub const PANEL_SEPARATOR: u32 = 32;
/// Copy item.
pub const PANEL_COPY: u32 = 64;
/// The items from here on belong to the bottom panel.
pub const PANEL_BOTTOM_START_MARKER: u32 = 128;
/// Placed on the left.
pub const PANEL_LEFT_POS: u32 = 256;
/// Placed in the center.
pub const PANEL_CENTER_POS: u32 = 512;
/// Placed on the right.
pub const PANEL_RIGHT_POS: u32 = 1024;
/// Hidden item.
pub const PANEL_HIDDEN: u32 = 2048;
/// Reacts on mouse down.
pub const PANEL_MOUSE_DOWN: u32 = 4096;
/// Reacts on mouse over.
pub const PANEL_MOUSE_OVER: u32 = 8192;
/// Reacts on mouse out.
pub const PANEL_MOUSE_OUT: u32 = 16384;

/// Any position flag.
pub const PANEL_POSITIONS: u32 = PANEL_LEFT_POS | PANEL_CENTER_POS | PANEL_RIGHT_POS;

/// A panel item with its position, width and cached text widths.
#[derive(Debug)]
pub struct Panel {
    pub flags: u32,
    pub x: i16,
    pub width: u16,
    pub screen_id: usize,
    pub plugin_id: usize,
    pub text: Option<String>,
    pub text_widths: Vec<u16>,
}

/// Why a panel item could not be made.
#[derive(Clone, Copy, Debug, PartialEq, Eq, Structural)]
pub enum PanelError {
    /// The name names no kind of item.
    UnhandledType,
}

/// The position flag of an item name: a leading `<`, `=` or `>` in a name of
/// more than one character.
pub open spec fn position_of(name: Seq<char>) -> u32 {
    if name.len() > 1 && name[0] == '<' {
        PANEL_LEFT_POS
    } else if name.len() > 1 && name[0] == '=' {
        PANEL_CENTER_POS
    } else if name.len() > 1 && name[0] == '>' {
        PANEL_RIGHT_POS
    } else {
        0
    }
}

/// The name without its position character.
pub open spec fn kind_name(name: Seq<char>) -> Seq<char> {
    if position_of(name) != 0 {
        name.subrange(1, name.len() as int)
    } else {
        name
    }
}

/// The kind of a panel item name: `title`, `views`, `tray`, a plugin
/// `$name`, or else a separator.
pub open spec fn kind_of(name: Seq<char>) -> u32 {
    let k = kind_name(name);
    if k == "title"@ {
        PANEL_TITLE
    } else if k == "views"@ {
        PANEL_VIEWS
    } else if k == "tray"@ {
        PANEL_TRAY
    } else if has_prefix(k, "$"@) {
        PANEL_PLUGIN
    } else {
        PANEL_SEPARATOR
    }
}

/// The flags of a panel item name: its kind and its position.
pub open spec fn panel_flags_of(name: Seq<char>) -> u32 {
    kind_of(name) | position_of(name)
}

/// One kind and at most one position make up the flags of a name, so each
/// kind bit and the position bits can be read back from them.
pub proof fn lemma_kind_and_position(kind: u32, pos: u32)
    requires
        kind == PANEL_TITLE || kind == PANEL_VIEWS || kind == PANEL_TRAY || kind == PANEL_PLUGIN
            || kind == PANEL_SEPARATOR,
        pos == 0 || pos == PANEL_LEFT_POS || pos == PANEL_CENTER_POS || pos == PANEL_RIGHT_POS,
    ensures
        has_any(kind | pos, PANEL_POSITIONS) == (pos != 0),
        has_any(kind | pos, PANEL_TITLE) == (kind == PANEL_TITLE),
        has_any(kind | pos, PANEL_VIEWS) == (kind == PANEL_VIEWS),
        has_any(kind | pos, PANEL_TRAY) == (kind == PANEL_TRAY),
        has_any(kind | pos, PANEL_PLUGIN) == (kind == PANEL_PLUGIN),
        has_any(kind | pos, PANEL_SEPARATOR) == (kind == PANEL_SEPARATOR),
{
    assert(((kind | pos) & (PANEL_LEFT_POS | PANEL_CENTER_POS | PANEL_RIGHT_POS) != 0) == (pos != 0)
        && ((kind | pos) & PANEL_TITLE != 0) == (kind == PANEL_TITLE) && ((kind | pos) & PANEL_VIEWS
        != 0) == (kind == PANEL_VIEWS) && ((kind | pos) & PANEL_TRAY != 0) == (kind == PANEL_TRAY)
        && ((kind | pos) & PANEL_PLUGIN != 0) == (kind == PANEL_PLUGIN) && ((kind | pos)
        & PANEL_SEPARATOR != 0) == (kind == PANEL_SEPARATOR)) by (bit_vector)
        requires
            kind == PANEL_TITLE || kind == PANEL_VIEWS || kind == PANEL_TRAY || kind == PANEL_PLUGIN
                || kind == PANEL_SEPARATOR,
            pos == 0 || pos == PANEL_LEFT_POS || pos == PANEL_CENTER_POS || pos == PANEL_RIGHT_POS,
    ;
}

/// The position flag of an item name.
fn position_flag(name: &str) -> (r: u32)
    ensures
        r == position_of(name@),
{
    if name.unicode_len() > 1 {
        let c = name.get_char(0);
        if c == '<' {
            PANEL_LEFT_POS
        } else if c == '=' {
            PANEL_CENTER_POS
        } else if c == '>' {
            PANEL_RIGHT_POS
        } else {
            0
        }
    } else {
        0
    }
}

/// The flags of a panel item name such as `<title`, `views`, `>$clock` or `|`:
/// its kind (title, views, tray, plugin for names starting with `$`, and
/// separator for anything else) and its position (`<` left, `=` center,
/// `>` right).
pub fn panel_flags(name: &str) -> (r: u32)
    ensures
        r == panel_flags_of(name@),
{
    kind_flag(name) | position_flag(name)
}

/// The kind of a panel item name.
fn kind_flag(name: &str) -> (r: u32)
    ensures
        r == kind_of(name@),
{
    let pos = position_flag(name);
    let k = if pos != 0 {
        suffix_from(name, 1)
    } else {
        name
    };
    let kind = if str_eq(k, "title") {
        PANEL_TITLE
    } else if str_eq(k, "views") {
        PANEL_VIEWS
    } else if str_eq(k, "tray") {
        PANEL_TRAY
    } else if starts_with(k, "$") {
        PANEL_PLUGIN
    } else {
        PANEL_SEPARATOR
    };
    kind
}

/// The name makes a panel item: it names a kind that has one.
pub open spec fn makes_item(name: Seq<char>) -> bool {
    has_any(panel_flags_of(name), PANEL_SEPARATOR | PANEL_TITLE | PANEL_PLUGIN | PANEL_VIEWS | PANEL_TRAY)
}

/// `p` is the item made of `name` for screen `screen_id`, carrying the
/// bottom marker when `marker`: a separator shows its name without the
/// position character, a title caches two text widths, a plugin one, and a
/// views item reacts on mouse down.
pub open spec fn new_item(p: Panel, name: Seq<char>, screen_id: usize, marker: bool) -> bool {
    let f = panel_flags_of(name);
    let base = if has_any(f, PANEL_SEPARATOR) || has_any(f, PANEL_TITLE) || has_any(f, PANEL_PLUGIN) || !has_any(
        f,
        PANEL_VIEWS,
    ) {
        f
    } else {
        f | PANEL_MOUSE_DOWN
    };
    &&& p.wf()
    &&& p.x == 0
    &&& p.width == 0
    &&& p.screen_id == screen_id
    &&& p.plugin_id == 0
    &&& p.flags == (if marker {
        base | PANEL_BOTTOM_START_MARKER
    } else {
        base
    })
    &&& p.text_widths@ == (if has_any(f, PANEL_SEPARATOR) || (!has_any(f, PANEL_TITLE) && has_any(f, PANEL_PLUGIN)) {
        seq![0u16]
    } else if has_any(f, PANEL_TITLE) {
        seq![0u16, 0u16]
    } else {
        Seq::<u16>::empty()
    })
    &&& match p.text {
        Some(t) => has_any(f, PANEL_SEPARATOR) && t@ == kind_name(name),
        None => !has_any(f, PANEL_SEPARATOR),
    }
}

impl Panel {
    /// The panel holds text widths for each text it shows.
    pub open spec fn wf(&self) -> bool {
        &&& has_any(self.flags, PANEL_SEPARATOR) ==> self.text_widths.len() >= 1
        &&& has_any(self.flags, PANEL_PLUGIN) ==> self.text_widths.len() >= 1
        &&& has_any(self.flags, PANEL_TITLE) ==> self.text_widths.len() >= 2
    }

    /// Create the panel item of a name (see `panel_flags`): a separator
    /// shows its name without the position character, a title caches two
    /// text widths, a plugin one, and a views item reacts on mouse down.
    pub fn new(name: &str) -> (r: Result<Panel, PanelError>)
        ensures
            match r {
                Ok(p) => makes_item(name@) && new_item(p, name@, 0, false),
                Err(e) => !makes_item(name@) && e == PanelError::UnhandledType,
            },
    {
        let kind = kind_flag(name);
        let pos = position_flag(name);
        let flags = kind | pos;
        proof {
            lemma_kind_and_position(kind, pos);
        }
        let mut panel = Panel {
            flags,
            x: 0,
            width: 0,
            screen_id: 0,
            plugin_id: 0,
            text: None,
            text_widths: Vec::new(),
        };
        if intersects(flags, PANEL_SEPARATOR) {
            panel.text_widths.push(0);
            let k = if intersects(flags, PANEL_POSITIONS) {
                suffix_from(name, 1)
            } else {
                name
            };
            panel.text = Some(String::from_str(k));
            assert(panel.text_widths@ =~= seq![0u16]);
        } else if intersects(flags, PANEL_TITLE) {
            panel.text_widths.push(0);
            panel.text_widths.push(0);
            assert(panel.text_widths@ =~= seq![0u16, 0u16]);
        } else if intersects(flags, PANEL_PLUGIN) {
            panel.text_widths.push(0);
            assert(panel.text_widths@ =~= seq![0u16]);
        } else if intersects(flags, PANEL_VIEWS) {
            panel.flags = flags | PANEL_MOUSE_DOWN;
            assert(((flags | PANEL_MOUSE_DOWN) & PANEL_SEPARATOR) == (flags & PANEL_SEPARATOR) && ((flags
                | PANEL_MOUSE_DOWN) & PANEL_PLUGIN) == (flags & PANEL_PLUGIN) && ((flags | PANEL_MOUSE_DOWN)
                & PANEL_TITLE) == (flags & PANEL_TITLE)) by (bit_vector);
        } else if !intersects(flags, PANEL_TRAY) {
            return Err(PanelError::UnhandledType);
        }
        assert(panel.text_widths@.len() == 0 ==> panel.text_widths@ =~= Seq::<u16>::empty());
        assert(flags & (PANEL_SEPARATOR | PANEL_TITLE | PANEL_PLUGIN | PANEL_VIEWS | PANEL_TRAY) != 0) by (bit_vector)
            requires
                flags & PANEL_SEPARATOR != 0 || flags & PANEL_TITLE != 0 || flags & PANEL_PLUGIN != 0 || flags
                    & PANEL_VIEWS != 0 || flags & PANEL_TRAY != 0,
        ;
        Ok(panel)
    }
}


/// The styles that panel items are drawn with.
#[derive(Clone, Copy, Debug)]
pub struct PanelStyles {
    /// Base style of views.
    pub views: Style,
    /// The view that the item's screen shows.
    pub active: Style,
    /// Views with clients.
    pub occupied: Style,
    /// Views that some screen shows.
    pub visible: Style,
    /// Views with urgent clients.
    pub urgent: Style,
    /// Separators.
    pub separator: Style,
    /// The tray.
    pub tray: Style,
    /// The title.
    pub title: Style,
    /// Clients; its right color value caps the title width.
    pub clients: Style,
}

/// The tags and views that decide how views are shown.
#[derive(Clone, Copy, Debug)]
pub struct TagState {
    /// Tags of all clients.
    pub client_tags: u32,
    /// Tags of urgent clients.
    pub urgent_tags: u32,
    /// Views that some screen shows, one bit after the lowest for each view.
    pub visible_views: u32,
}

/// The style of view `view_idx` with tags `view_tags`, starting from `prev`:
/// reset, then the active or occupied style, the base style, and the urgent
/// and visible styles where they apply.
pub open spec fn picked(
    prev: Style,
    styles: PanelStyles,
    state: TagState,
    screen_view: Option<isize>,
    view_idx: int,
    view_tags: u32,
) -> Style {
    let s0 = prev.reset_to(-1i32);
    let s1 = match screen_view {
        Some(v) => if v == view_idx {
            s0.inherit_from(styles.active)
        } else if has_any(state.client_tags, view_tags) {
            s0.inherit_from(styles.occupied)
        } else {
            s0
        },
        None => s0,
    };
    let s2 = s1.inherit_from(styles.views);
    let s3 = if has_any(state.urgent_tags, view_tags) {
        s2.inherit_from(styles.urgent)
    } else {
        s2
    };
    if has_any(state.visible_views, (1u32 << (view_idx + 1) as u32) as u32) {
        s3.inherit_from(styles.visible)
    } else {
        s3
    }
}

/// Pick the style for drawing view `view_idx` into `style`.
pub fn pick_style(
    style: &mut Style,
    styles: &PanelStyles,
    state: &TagState,
    screen_view: Option<isize>,
    view_idx: usize,
    view_tags: u32,
)
    requires
        view_idx < 31,
    ensures
        *final(style) == picked(*old(style), *styles, *state, screen_view, view_idx as int, view_tags),
{
    style.reset(-1);
    if let Some(v) = screen_view {
        if v == view_idx as isize {
            style.inherit(&styles.active);
        } else if intersects(state.client_tags, view_tags) {
            style.inherit(&styles.occupied);
        }
    }
    style.inherit(&styles.views);
    if intersects(state.urgent_tags, view_tags) {
        style.inherit(&styles.urgent);
    }
    if intersects(state.visible_views, 1u32 << (view_idx + 1) as u32) {
        style.inherit(&styles.visible);
    }
}

/// Two styles agree on spacing and font.
pub open spec fn same_parts(a: Style, b: Style) -> bool {
    &&& a.border == b.border
    &&& a.padding == b.padding
    &&& a.margin == b.margin
    &&& a.font_id == b.font_id
}

proof fn lemma_inherit_same(a: Style, b: Style, o: Style)
    requires
        same_parts(a, b),
    ensures
        same_parts(a.inherit_from(o), b.inherit_from(o)),
        a.inherit_from(o).min_width >= 0,
{
}

proof fn lemma_maybe_inherit_same(a: Style, b: Style, o: Style, c: bool)
    requires
        same_parts(a, b),
    ensures
        same_parts(if c { a.inherit_from(o) } else { a }, if c { b.inherit_from(o) } else { b }),
{
    if c {
        lemma_inherit_same(a, b, o);
    }
}

/// The style that a view is picked with does not depend on the style it
/// starts from, but for its flags and minimum width, which is never
/// negative.
pub proof fn lemma_picked_parts(
    prev: Style,
    styles: PanelStyles,
    state: TagState,
    screen_view: Option<isize>,
    view_idx: int,
    view_tags: u32,
)
    ensures
        same_parts(
            picked(prev, styles, state, screen_view, view_idx, view_tags),
            picked(Style::spec_default(), styles, state, screen_view, view_idx, view_tags),
        ),
        picked(prev, styles, state, screen_view, view_idx, view_tags).min_width >= 0,
{
    let a0 = prev.reset_to(-1i32);
    let b0 = Style::spec_default().reset_to(-1i32);
    assert(same_parts(a0, b0));
    let c_active = screen_view is Some && screen_view.unwrap() == view_idx;
    let c_occ = screen_view is Some && !c_active && has_any(state.client_tags, view_tags);
    lemma_maybe_inherit_same(a0, b0, styles.active, c_active);
    let a1 = if c_active { a0.inherit_from(styles.active) } else { a0 };
    let b1 = if c_active { b0.inherit_from(styles.active) } else { b0 };
    lemma_maybe_inherit_same(a1, b1, styles.occupied, c_occ);
    let a1b = if c_occ { a1.inherit_from(styles.occupied) } else { a1 };
    let b1b = if c_occ { b1.inherit_from(styles.occupied) } else { b1 };
    lemma_inherit_same(a1b, b1b, styles.views);
    let a2 = a1b.inherit_from(styles.views);
    let b2 = b1b.inherit_from(styles.views);
    let c_urg = has_any(state.urgent_tags, view_tags);
    lemma_maybe_inherit_same(a2, b2, styles.urgent, c_urg);
    let a3 = if c_urg { a2.inherit_from(styles.urgent) } else { a2 };
    let b3 = if c_urg { b2.inherit_from(styles.urgent) } else { b2 };
    let c_vis = has_any(state.visible_views, (1u32 << (view_idx + 1) as u32) as u32);
    lemma_maybe_inherit_same(a3, b3, styles.visible, c_vis);
    assert(a3.min_width >= 0);
    if c_vis {
        lemma_inherit_same(a3, b3, styles.visible);
    }
    assert(picked(prev, styles, state, screen_view, view_idx, view_tags) == if c_vis {
        a3.inherit_from(styles.visible)
    } else {
        a3
    });
    assert(picked(Style::spec_default(), styles, state, screen_view, view_idx, view_tags) == if c_vis {
        b3.inherit_from(styles.visible)
    } else {
        b3
    });
}

/// A view is left out of the panel: it is dynamic and no client has its tags.
pub open spec fn skipped(view: TagView, state: TagState) -> bool {
    has_any(view.flags, VIEW_MODE_DYNAMIC) && !has_any(state.client_tags, view.tags)
}

/// Unsigned value of a signed pixel count, as a cast gives it.
pub open spec fn unsigned(v: int) -> u16 {
    (v as i16) as u16
}

/// Width of the icon of a view, or zero.
pub open spec fn icon_width(view: TagView) -> int {
    match view.icon {
        Some(i) => i.width as int,
        None => 0,
    }
}

/// Width of a view item when the panel is updated: its spacing, plus its
/// icon for icon-only views, or else (with a font) its text, the left
/// spacing, and the icon with another left spacing for views with icons.
pub open spec fn view_update_width(style: Style, view: TagView, text_width: u16, has_font: bool) -> int {
    let base = unsigned(style.spacing(CalcSpacing::Width)) as int;
    let left = unsigned(style.spacing(CalcSpacing::Left)) as int;
    if has_any(view.flags, VIEW_MODE_ICON_ONLY) && view.icon is Some {
        base + icon_width(view)
    } else if has_font {
        base + text_width + left + (if has_any(view.flags, VIEW_MODE_ICON) && view.icon is Some {
            icon_width(view) + left
        } else {
            0
        })
    } else {
        base
    }
}

/// The name of the view is measured: it shows text and its style has a font.
pub open spec fn measures(view: TagView, has_font: bool) -> bool {
    has_font && !(has_any(view.flags, VIEW_MODE_ICON_ONLY) && view.icon is Some)
}

/// The larger of two numbers.
pub open spec fn max_int(a: int, b: int) -> int {
    if a >= b {
        a
    } else {
        b
    }
}

/// Updating the views item from view `i` on: the cached text widths, the
/// style carried from view to view and the width so far.
pub open spec fn views_update_from(
    styles: PanelStyles,
    state: TagState,
    screen_view: Option<isize>,
    fonts: Seq<Font>,
    views: Seq<TagView>,
    measured: Seq<Option<u16>>,
    i: int,
    style: Style,
    widths: Seq<u16>,
    total: int,
) -> (Seq<u16>, int)
    decreases views.len() - i,
{
    if i < 0 || i >= views.len() {
        (widths, total)
    } else if skipped(views[i], state) {
        views_update_from(styles, state, screen_view, fonts, views, measured, i + 1, style, widths, total)
    } else {
        let st = picked(style, styles, state, screen_view, i, views[i].tags);
        let has_font = 0 <= st.font_id < fonts.len();
        let w2 = if measures(views[i], has_font) && measured[i] is Some {
            widths.update(i, measured[i].unwrap())
        } else {
            widths
        };
        let vw = view_update_width(st, views[i], w2[i], has_font);
        views_update_from(
            styles,
            state,
            screen_view,
            fonts,
            views,
            measured,
            i + 1,
            st,
            w2,
            total + max_int(st.min_width as int, vw),
        )
    }
}

/// Updating the views item fits its numbers: each shown view has a bit in
/// the visible views, its style's spacing fits, and the width fits.
pub open spec fn views_update_fits(
    styles: PanelStyles,
    state: TagState,
    screen_view: Option<isize>,
    fonts: Seq<Font>,
    views: Seq<TagView>,
    measured: Seq<Option<u16>>,
    widths: Seq<u16>,
) -> bool {
    &&& forall|i: int|
        #![trigger views[i]]
        0 <= i < views.len() && !skipped(views[i], state) ==> {
            &&& i < 31
            &&& picked(Style::spec_default(), styles, state, screen_view, i, views[i].tags).spacing_fits(
                CalcSpacing::Width,
            )
        }
    &&& views_update_from(
        styles,
        state,
        screen_view,
        fonts,
        views,
        measured,
        0,
        Style::spec_default(),
        widths,
        0,
    ).1 <= u16::MAX
}

proof fn lemma_view_update_width_nonneg(style: Style, view: TagView, text_width: u16, has_font: bool)
    ensures
        view_update_width(style, view, text_width, has_font) >= unsigned(style.spacing(CalcSpacing::Width)),
{
}

/// Updating the views item never makes its width smaller than it was.
pub proof fn lemma_views_update_mono(
    styles: PanelStyles,
    state: TagState,
    screen_view: Option<isize>,
    fonts: Seq<Font>,
    views: Seq<TagView>,
    measured: Seq<Option<u16>>,
    i: int,
    style: Style,
    widths: Seq<u16>,
    total: int,
)
    ensures
        views_update_from(styles, state, screen_view, fonts, views, measured, i, style, widths, total).1
            >= total,
    decreases views.len() - i,
{
    if 0 <= i < views.len() {
        if skipped(views[i], state) {
            lemma_views_update_mono(styles, state, screen_view, fonts, views, measured, i + 1, style, widths, total);
        } else {
            let st = picked(style, styles, state, screen_view, i, views[i].tags);
            let has_font = 0 <= st.font_id < fonts.len();
            let w2 = if measures(views[i], has_font) && measured[i] is Some {
                widths.update(i, measured[i].unwrap())
            } else {
                widths
            };
            let vw = view_update_width(st, views[i], w2[i], has_font);
            lemma_view_update_width_nonneg(st, views[i], w2[i], has_font);
            lemma_views_update_mono(
                styles,
                state,
                screen_view,
                fonts,
                views,
                measured,
                i + 1,
                st,
                w2,
                total + max_int(st.min_width as int, vw),
            );
        }
    }
}

/// Signed pixel count as unsigned, as a cast gives it.
fn to_unsigned(v: i16) -> (r: u16)
    ensures
        r == unsigned(v as int),
{
    #[verifier::truncate]
    (v as u16)
}


/// The cached text widths after fitting them to `n` views: cut, or filled
/// up with zeros.
pub open spec fn resized(widths: Seq<u16>, n: int) -> Seq<u16> {
    if n <= widths.len() {
        widths.subrange(0, n)
    } else {
        widths + Seq::new((n - widths.len()) as nat, |i: int| 0u16)
    }
}

/// Fit the cached text widths to `n` views.
fn resize_widths(widths: &mut Vec<u16>, n: usize)
    ensures
        final(widths)@ == resized(old(widths)@, n as int),
{
    if widths.len() != n {
        if n <= widths.len() {
            widths.truncate(n);
        } else {
            let ghost start = widths@;
            while widths.len() < n
                invariant
                    start.len() <= widths@.len() <= n,
                    widths@ == start + Seq::new((widths@.len() - start.len()) as nat, |i: int| 0u16),
                decreases n - widths.len(),
            {
                widths.push(0);
                assert(widths@ =~= start + Seq::new((widths@.len() - start.len()) as nat, |i: int| 0u16));
            }
        }
    }
    assert(widths.len() == n ==> widths@ == resized(old(widths)@, n as int)) by {
        if old(widths)@.len() == n {
            assert(old(widths)@.subrange(0, n as int) =~= old(widths)@);
        }
    }
}

impl Panel {
    /// Update the width of a views item: fit the cached text widths to the
    /// views, then for each shown view pick its style, cache the measured
    /// width of its name (where its style has a font and the measure
    /// succeeded) and add its width, at least the style's minimum width.
    /// `measured` holds the measured name width of each view.
    pub fn update_views(
        &mut self,
        views: &Vec<TagView>,
        styles: &PanelStyles,
        state: &TagState,
        screen_view: Option<isize>,
        fonts: &Vec<Font>,
        measured: &Vec<Option<u16>>,
    )
        requires
            measured.len() == views.len(),
            views_update_fits(
                *styles,
                *state,
                screen_view,
                fonts@,
                views@,
                measured@,
                resized(old(self).text_widths@, views.len() as int),
            ),
        ensures
            ({
                let r = views_update_from(
                    *styles,
                    *state,
                    screen_view,
                    fonts@,
                    views@,
                    measured@,
                    0,
                    Style::spec_default(),
                    resized(old(self).text_widths@, views.len() as int),
                    0,
                );
                &&& final(self).text_widths@ == r.0
                &&& final(self).width == r.1
            }),
            final(self).flags == old(self).flags,
            final(self).x == old(self).x,
            final(self).screen_id == old(self).screen_id,
            final(self).plugin_id == old(self).plugin_id,
            final(self).text == old(self).text,
    {
        let mut widths: Vec<u16> = Vec::new();
        std::mem::swap(&mut widths, &mut self.text_widths);
        resize_widths(&mut widths, views.len());
        let ghost w0 = widths@;
        let mut style = Style::default();
        let mut total: u16 = 0;
        let mut i: usize = 0;
        while i < views.len()
            invariant
                i <= views.len(),
                widths@.len() == views.len(),
                measured.len() == views.len(),
                views_update_fits(*styles, *state, screen_view, fonts@, views@, measured@, w0),
                views_update_from(
                    *styles,
                    *state,
                    screen_view,
                    fonts@,
                    views@,
                    measured@,
                    0,
                    Style::spec_default(),
                    w0,
                    0,
                ) == views_update_from(
                    *styles,
                    *state,
                    screen_view,
                    fonts@,
                    views@,
                    measured@,
                    i as int,
                    style,
                    widths@,
                    total as int,
                ),
            decreases views.len() - i,
        {
            let view = &views[i];
            if intersects(view.flags, VIEW_MODE_DYNAMIC) && !intersects(state.client_tags, view.tags) {
                i = i + 1;
                continue;
            }
            assert(!skipped(views@[i as int], *state));
            let ghost prev = style;
            let ghost widths_old = widths@;
            let ghost total_old = total;
            pick_style(&mut style, styles, state, screen_view, i, view.tags);
            proof {
                lemma_picked_parts(prev, *styles, *state, screen_view, i as int, view.tags);
                assert(views@[i as int] == *view);
            }
            proof {
                let st = style;
                let has_font = 0 <= st.font_id < fonts@.len();
                let w2 = if measures(views@[i as int], has_font) && measured@[i as int] is Some {
                    widths@.update(i as int, measured@[i as int].unwrap())
                } else {
                    widths@
                };
                let vw = view_update_width(st, views@[i as int], w2[i as int], has_font);
                lemma_view_update_width_nonneg(st, views@[i as int], w2[i as int], has_font);
                lemma_views_update_mono(
                    *styles,
                    *state,
                    screen_view,
                    fonts@,
                    views@,
                    measured@,
                    i + 1,
                    st,
                    w2,
                    total + max_int(st.min_width as int, vw),
                );
            }
            let mut view_width: u16 = to_unsigned(style.calc_spacing(CalcSpacing::Width));
            let has_icon = view.icon.is_some();
            if intersects(view.flags, VIEW_MODE_ICON_ONLY) && has_icon {
                let icon = view.icon.unwrap();
                view_width = view_width + icon.width;
            } else {
                if let Some(_font) = style.get_font(fonts) {
                    if let Some(w) = measured[i] {
                        widths.set(i, w);
                    }
                    let left = to_unsigned(style.calc_spacing(CalcSpacing::Left));
                    view_width = view_width + widths[i] + left;
                    if intersects(view.flags, VIEW_MODE_ICON) && has_icon {
                        let icon = view.icon.unwrap();
                        view_width = view_width + icon.width + left;
                    }
                }
            }
            let min_width = style.min_width as u16;
            proof {
                let has_font = 0 <= style.font_id < fonts@.len();
                let w2 = if measures(views@[i as int], has_font) && measured@[i as int] is Some {
                    widths_old.update(i as int, measured@[i as int].unwrap())
                } else {
                    widths_old
                };
                assert(widths@ == w2);
                assert(view_width == view_update_width(style, views@[i as int], w2[i as int], has_font));
            }
            total = total + if min_width >= view_width {
                min_width
            } else {
                view_width
            };
            i = i + 1;
        }
        self.text_widths = widths;
        self.width = total;
    }
}


/// A cached text width after a measure: the measured width where the style
/// has a font and the measure succeeded, else the cached one.
pub open spec fn measured_width(cached: u16, has_font: bool, measured: Option<u16>) -> u16 {
    if has_font && measured is Some {
        measured.unwrap()
    } else {
        cached
    }
}

/// The style has a font among `fonts`.
pub open spec fn style_has_font(style: Style, fonts: Seq<Font>) -> bool {
    0 <= style.font_id < fonts.len()
}

/// Width of a one-text item: its text and the style's spacing.
pub open spec fn text_item_width(text_width: u16, style: Style) -> int {
    text_width + unsigned(style.spacing(CalcSpacing::Width))
}

/// Width of the title: mode string, name capped at the clients' right
/// value, and spacing; at least the title's minimum width.
pub open spec fn title_width(mode_width: u16, name_width: u16, title: Style, clients: Style) -> int {
    let cap = (clients.right as u16) as int;
    let w = mode_width + (if name_width > cap {
        cap
    } else {
        name_width as int
    }) + unsigned(title.spacing(CalcSpacing::Width));
    max_int((title.min_width as u16) as int, w)
}

/// Widths and positions of the live trays, starting at `x`: each tray is
/// placed where the item's width has grown to, then adds its width.
pub open spec fn trays_from(trays: Seq<Option<u16>>, i: int, x: int, offsets: Seq<i32>) -> (int, Seq<i32>)
    decreases trays.len() - i,
{
    if i < 0 || i >= trays.len() {
        (x, offsets)
    } else {
        match trays[i] {
            None => trays_from(trays, i + 1, x, offsets),
            Some(w) => trays_from(trays, i + 1, x + w, offsets.push(x as i32)),
        }
    }
}

proof fn lemma_trays_mono(trays: Seq<Option<u16>>, i: int, x: int, offsets: Seq<i32>)
    ensures
        trays_from(trays, i, x, offsets).0 >= x,
    decreases trays.len() - i,
{
    if 0 <= i < trays.len() {
        match trays[i] {
            None => lemma_trays_mono(trays, i + 1, x, offsets),
            Some(w) => lemma_trays_mono(trays, i + 1, x + w, offsets.push(x as i32)),
        }
    }
}

impl Panel {
    /// Update a plugin item with the plugin's new text: cache its measured
    /// width where the views style has a font and the measure succeeded,
    /// then the width is that text width plus the style's spacing.
    pub fn update_plugin(&mut self, text: String, measured: Option<u16>, style: &Style, fonts: &Vec<Font>)
        requires
            old(self).text_widths.len() >= 1,
            style.spacing_fits(CalcSpacing::Width),
            text_item_width(
                measured_width(old(self).text_widths@[0], style_has_font(*style, fonts@), measured),
                *style,
            ) <= u16::MAX,
        ensures
            final(self).text_widths@ == old(self).text_widths@.update(
                0,
                measured_width(old(self).text_widths@[0], style_has_font(*style, fonts@), measured),
            ),
            final(self).width == text_item_width(final(self).text_widths@[0], *style),
            final(self).text == Some(text),
            final(self).flags == old(self).flags,
            final(self).x == old(self).x,
    {
        if let Some(_font) = style.get_font(fonts) {
            if let Some(w) = measured {
                self.text_widths.set(0, w);
            }
        }
        self.width = self.text_widths[0] + to_unsigned(style.calc_spacing(CalcSpacing::Width));
        self.text = Some(text);
        assert(self.text_widths@ =~= old(self).text_widths@.update(
            0,
            measured_width(old(self).text_widths@[0], style_has_font(*style, fonts@), measured),
        ));
    }

    /// Update a separator item: where it has a text, cache the text's
    /// measured width (with the separator style's font) and take that width
    /// plus the style's spacing; without a text nothing changes.
    pub fn update_separator(&mut self, measured: Option<u16>, style: &Style, fonts: &Vec<Font>)
        requires
            old(self).text_widths.len() >= 1,
            style.spacing_fits(CalcSpacing::Width),
            old(self).text is Some ==> text_item_width(
                measured_width(old(self).text_widths@[0], style_has_font(*style, fonts@), measured),
                *style,
            ) <= u16::MAX,
        ensures
            old(self).text is Some ==> {
                &&& final(self).text_widths@ == old(self).text_widths@.update(
                    0,
                    measured_width(old(self).text_widths@[0], style_has_font(*style, fonts@), measured),
                )
                &&& final(self).width == text_item_width(final(self).text_widths@[0], *style)
            },
            old(self).text is None ==> final(self).text_widths@ == old(self).text_widths@ && final(self).width
                == old(self).width,
            final(self).text == old(self).text,
            final(self).flags == old(self).flags,
            final(self).x == old(self).x,
    {
        if self.text.is_some() {
            if let Some(_font) = style.get_font(fonts) {
                if let Some(w) = measured {
                    self.text_widths.set(0, w);
                }
            }
            self.width = self.text_widths[0] + to_unsigned(style.calc_spacing(CalcSpacing::Width));
            assert(self.text_widths@ =~= old(self).text_widths@.update(
                0,
                measured_width(old(self).text_widths@[0], style_has_font(*style, fonts@), measured),
            ));
        }
    }

    /// Update the tray item from the trays, each given by its width or
    /// `None` when it is dead: without trays the item is hidden; else it is
    /// shown, starts at the tray style's spacing and grows by each live tray,
    /// which is placed where the item has grown to. Returns those places.
    pub fn update_tray(&mut self, trays: &Vec<Option<u16>>, style: &Style) -> (r: Vec<i32>)
        requires
            style.spacing_fits(CalcSpacing::Width),
            trays_from(trays@, 0, unsigned(style.spacing(CalcSpacing::Width)) as int, seq![]).0 <= u16::MAX,
        ensures
            trays.len() == 0 ==> {
                &&& final(self).flags == old(self).flags | PANEL_HIDDEN
                &&& final(self).width == unsigned(style.spacing(CalcSpacing::Width))
                &&& r@.len() == 0
            },
            trays.len() > 0 ==> {
                let t = trays_from(trays@, 0, unsigned(style.spacing(CalcSpacing::Width)) as int, seq![]);
                &&& final(self).flags == old(self).flags & !PANEL_HIDDEN
                &&& final(self).width == t.0
                &&& r@ == t.1
            },
            final(self).text_widths == old(self).text_widths,
            final(self).text == old(self).text,
            final(self).x == old(self).x,
    {
        let mut width: u16 = to_unsigned(style.calc_spacing(CalcSpacing::Width));
        self.flags = self.flags & !PANEL_HIDDEN;
        let mut offsets: Vec<i32> = Vec::new();
        if trays.len() > 0 {
            let mut i: usize = 0;
            while i < trays.len()
                invariant
                    i <= trays.len(),
                    trays_from(trays@, 0, unsigned(style.spacing(CalcSpacing::Width)) as int, seq![])
                        == trays_from(trays@, i as int, width as int, offsets@),
                    trays_from(trays@, 0, unsigned(style.spacing(CalcSpacing::Width)) as int, seq![]).0
                        <= u16::MAX,
                decreases trays.len() - i,
            {
                if let Some(w) = trays[i] {
                    proof {
                        lemma_trays_mono(trays@, i + 1, width + w, offsets@.push(width as i32));
                    }
                    offsets.push(width as i32);
                    width = width + w;
                }
                i = i + 1;
            }
        } else {
            let ghost f = old(self).flags;
            self.flags = self.flags | PANEL_HIDDEN;
            assert((f & !PANEL_HIDDEN) | PANEL_HIDDEN == f | PANEL_HIDDEN) by (bit_vector);
        }
        self.width = width;
        offsets
    }

    /// Update the title item: without a focused client to show its width is
    /// zero; else, where the title style has a font, cache the measured
    /// widths of the mode string and the client's name, and take the mode
    /// width, the name width capped at the clients style's right value and
    /// the spacing, at least the title's minimum width. `title` holds the
    /// two measures when a live, visible client that is no desktop has the
    /// focus.
    pub fn update_title(
        &mut self,
        title: Option<(Option<u16>, Option<u16>)>,
        title_style: &Style,
        clients_style: &Style,
        fonts: &Vec<Font>,
    )
        requires
            old(self).text_widths.len() >= 2,
            title_style.spacing_fits(CalcSpacing::Width),
            title is Some && style_has_font(*title_style, fonts@) ==> title_width(
                measured_width(old(self).text_widths@[0], true, title.unwrap().0),
                measured_width(old(self).text_widths@[1], true, title.unwrap().1),
                *title_style,
                *clients_style,
            ) <= u16::MAX,
        ensures
            title is None ==> final(self).width == 0 && final(self).text_widths == old(self).text_widths,
            title is Some && !style_has_font(*title_style, fonts@) ==> final(self).width == (
            title_style.min_width as u16) && final(self).text_widths == old(self).text_widths,
            title is Some && style_has_font(*title_style, fonts@) ==> {
                let m = measured_width(old(self).text_widths@[0], true, title.unwrap().0);
                let n = measured_width(old(self).text_widths@[1], true, title.unwrap().1);
                &&& final(self).text_widths@ == old(self).text_widths@.update(0, m).update(1, n)
                &&& final(self).width == title_width(m, n, *title_style, *clients_style)
            },
            final(self).text == old(self).text,
            final(self).flags == old(self).flags,
            final(self).x == old(self).x,
    {
        self.width = 0;
        if let Some((mode_width, name_width)) = title {
            if let Some(_font) = title_style.get_font(fonts) {
                if let Some(w) = mode_width {
                    self.text_widths.set(0, w);
                }
                if let Some(w) = name_width {
                    self.text_widths.set(1, w);
                }
                let cap = clients_style.right as u16;
                let name = if self.text_widths[1] > cap {
                    cap
                } else {
                    self.text_widths[1]
                };
                assert(self.text_widths[0] + name + unsigned(title_style.spacing(CalcSpacing::Width))
                    <= title_width(
                    self.text_widths[0],
                    self.text_widths[1],
                    *title_style,
                    *clients_style,
                ));
                self.width = self.text_widths[0] + name + to_unsigned(title_style.calc_spacing(CalcSpacing::Width));
            }
            let min_width = title_style.min_width as u16;
            if min_width > self.width {
                self.width = min_width;
            }
        }
    }
}


/// Which panel, top (0) or bottom (1), item `i` is on: the bottom one from
/// the first item with the bottom marker on.
pub open spec fn section_of(panels: Seq<Panel>, i: int) -> int
    decreases i,
{
    if i < 0 || i >= panels.len() {
        0
    } else if has_any(panels[i].flags, PANEL_BOTTOM_START_MARKER) {
        1
    } else if i == 0 {
        0
    } else {
        section_of(panels, i - 1)
    }
}

/// Placement class of an item: 1 left, 2 center, 3 right, else 0.
pub open spec fn class_of(flags: u32) -> int {
    if has_any(flags, PANEL_LEFT_POS) {
        1
    } else if has_any(flags, PANEL_CENTER_POS) {
        2
    } else if has_any(flags, PANEL_RIGHT_POS) {
        3
    } else {
        0
    }
}

/// Sum of the widths of the first `n` items in section `sec` and class
/// `class`, leaving out hidden items where `skip_hidden`.
pub open spec fn width_sum(panels: Seq<Panel>, n: int, sec: int, class: int, skip_hidden: bool) -> int
    decreases n,
{
    if n <= 0 || n > panels.len() {
        0
    } else {
        width_sum(panels, n - 1, sec, class, skip_hidden) + (if section_of(panels, n - 1) == sec
            && class_of(panels[n - 1].flags) == class && !(skip_hidden && has_any(
            panels[n - 1].flags,
            PANEL_HIDDEN,
        )) {
            panels[n - 1].width as int
        } else {
            0
        })
    }
}

/// Where the items of a section and class start: left items at 0, other
/// unplaced items after the left ones, centered items around the middle of
/// the screen width `bw`, right items at its end.
pub open spec fn start_of(panels: Seq<Panel>, sec: int, class: int, bw: int) -> int {
    let n = panels.len() as int;
    if class == 0 {
        ((width_sum(panels, n, sec, 1, false) as u16) as i16) as int
    } else if class == 1 {
        0
    } else if class == 2 {
        (((bw - width_sum(panels, n, sec, 2, false)) / 2) as u16 as i16) as int
    } else {
        ((bw - width_sum(panels, n, sec, 3, false)) as u16 as i16) as int
    }
}

/// The position of item `i`: the start of its section and class plus the
/// widths of the shown items before it there.
pub open spec fn placed_x(panels: Seq<Panel>, i: int, bw: int) -> int {
    let sec = section_of(panels, i);
    let class = class_of(panels[i].flags);
    start_of(panels, sec, class, bw) + width_sum(panels, i, sec, class, true)
}

/// Placing the items fits the numbers: the summed widths of placed items
/// fit, centered and right items fit on the screen, and every shown item
/// ends within the signed range of positions.
pub open spec fn layout_fits(panels: Seq<Panel>, bw: int) -> bool {
    &&& forall|sec: int, class: int|
        0 <= sec <= 1 && 1 <= class <= 3 ==> #[trigger] width_sum(
            panels,
            panels.len() as int,
            sec,
            class,
            false,
        ) <= u16::MAX
    &&& forall|sec: int| 0 <= sec <= 1 ==> #[trigger] width_sum(panels, panels.len() as int, sec, 2, false) <= bw
    &&& forall|sec: int| 0 <= sec <= 1 ==> #[trigger] width_sum(panels, panels.len() as int, sec, 3, false) <= bw
    &&& forall|i: int|
        0 <= i < panels.len() && !has_any(#[trigger] panels[i].flags, PANEL_HIDDEN) ==> {
            &&& panels[i].width <= i16::MAX
            &&& i16::MIN <= placed_x(panels, i, bw)
            &&& placed_x(panels, i, bw) + panels[i].width <= i16::MAX
        }
}

proof fn lemma_width_sum_mono(panels: Seq<Panel>, m: int, n: int, sec: int, class: int, skip_hidden: bool)
    requires
        0 <= m <= n <= panels.len(),
    ensures
        width_sum(panels, m, sec, class, skip_hidden) <= width_sum(panels, n, sec, class, skip_hidden),
    decreases n - m,
{
    if m < n {
        lemma_width_sum_mono(panels, m, n - 1, sec, class, skip_hidden);
    }
}

proof fn lemma_width_sum_hidden(panels: Seq<Panel>, n: int, sec: int, class: int)
    requires
        0 <= n <= panels.len(),
    ensures
        width_sum(panels, n, sec, class, true) <= width_sum(panels, n, sec, class, false),
    decreases n,
{
    if n > 0 {
        lemma_width_sum_hidden(panels, n - 1, sec, class);
    }
}


/// Index of the last shown tray item among the first `n` items.
pub open spec fn last_tray(panels: Seq<Panel>, n: int) -> Option<int>
    decreases n,
{
    if n <= 0 || n > panels.len() {
        None
    } else if has_any(panels[n - 1].flags, PANEL_TRAY) && !has_any(panels[n - 1].flags, PANEL_HIDDEN) {
        Some(n - 1)
    } else {
        last_tray(panels, n - 1)
    }
}

/// The placement class of an item's flags.
fn class_flag(flags: u32) -> (r: usize)
    ensures
        r == class_of(flags),
{
    if intersects(flags, PANEL_LEFT_POS) {
        1
    } else if intersects(flags, PANEL_CENTER_POS) {
        2
    } else if intersects(flags, PANEL_RIGHT_POS) {
        3
    } else {
        0
    }
}

/// Sum of the widths of all items in a section and class.
fn class_sum(panels: &Vec<Panel>, sec: usize, class: usize) -> (r: u16)
    requires
        width_sum(panels@, panels.len() as int, sec as int, class as int, false) <= u16::MAX,
    ensures
        r == width_sum(panels@, panels.len() as int, sec as int, class as int, false),
{
    let mut sum: u16 = 0;
    let mut sel: usize = 0;
    let mut i: usize = 0;
    while i < panels.len()
        invariant
            i <= panels.len(),
            sel <= 1,
            i == 0 ==> sel == 0,
            i > 0 ==> sel == section_of(panels@, i - 1),
            sum == width_sum(panels@, i as int, sec as int, class as int, false),
            width_sum(panels@, panels.len() as int, sec as int, class as int, false) <= u16::MAX,
        decreases panels.len() - i,
    {
        if intersects(panels[i].flags, PANEL_BOTTOM_START_MARKER) {
            sel = 1;
        }
        proof {
            lemma_width_sum_mono(panels@, i + 1, panels.len() as int, sec as int, class as int, false);
        }
        if sel == sec && class_flag(panels[i].flags) == class {
            sum = sum + panels[i].width;
        }
        i = i + 1;
    }
    sum
}

/// Sum of the widths of all items in a section and class, or `None` where
/// it exceeds 16 bits.
fn class_sum_checked(panels: &Vec<Panel>, sec: usize, class: usize) -> (r: Option<u16>)
    ensures
        match r {
            Some(v) => v == width_sum(panels@, panels.len() as int, sec as int, class as int, false),
            None => width_sum(panels@, panels.len() as int, sec as int, class as int, false) > u16::MAX,
        },
{
    let mut sum: u32 = 0;
    let mut sel: usize = 0;
    let mut i: usize = 0;
    while i < panels.len()
        invariant
            i <= panels.len(),
            sel <= 1,
            i == 0 ==> sel == 0,
            i > 0 ==> sel == section_of(panels@, i - 1),
            sum == width_sum(panels@, i as int, sec as int, class as int, false),
            sum <= u16::MAX,
        decreases panels.len() - i,
    {
        if intersects(panels[i].flags, PANEL_BOTTOM_START_MARKER) {
            sel = 1;
        }
        if sel == sec && class_flag(panels[i].flags) == class {
            let next = sum + panels[i].width as u32;
            if next > 65535 {
                proof {
                    lemma_width_sum_mono(panels@, i + 1, panels.len() as int, sec as int, class as int, false);
                }
                return None;
            }
            sum = next;
        }
        i = i + 1;
    }
    Some(sum as u16)
}

/// Whether the items of a screen's panels can be placed on a screen
/// `base_width` wide (see `layout_fits`).
#[verifier::rlimit(100)]
pub fn layout_fits_check(panels: &Vec<Panel>, base_width: u16) -> (r: bool)
    ensures
        r == layout_fits(panels@, base_width as int),
{
    let ghost ps = panels@;
    let ghost n = panels@.len() as int;
    let ghost bw = base_width as int;
    let l0 = match class_sum_checked(panels, 0, 1) {
        Some(v) => v,
        None => return false,
    };
    let c0 = match class_sum_checked(panels, 0, 2) {
        Some(v) => v,
        None => return false,
    };
    let r0 = match class_sum_checked(panels, 0, 3) {
        Some(v) => v,
        None => return false,
    };
    let l1 = match class_sum_checked(panels, 1, 1) {
        Some(v) => v,
        None => return false,
    };
    let c1 = match class_sum_checked(panels, 1, 2) {
        Some(v) => v,
        None => return false,
    };
    let r1 = match class_sum_checked(panels, 1, 3) {
        Some(v) => v,
        None => return false,
    };
    if c0 > base_width || c1 > base_width || r0 > base_width || r1 > base_width {
        return false;
    }
    assert forall|sec: int, class: int| 0 <= sec <= 1 && 1 <= class <= 3 implies #[trigger] width_sum(
        ps,
        n,
        sec,
        class,
        false,
    ) <= u16::MAX by {
        if sec == 0 {
            if class == 1 {
            } else if class == 2 {
            } else {
            }
        } else {
            if class == 1 {
            } else if class == 2 {
            } else {
            }
        }
    }
    let mut offs: Vec<i32> = Vec::new();
    offs.push(#[verifier::truncate] (l0 as i16) as i32);
    offs.push(0);
    offs.push(#[verifier::truncate] (((base_width - c0) / 2) as i16) as i32);
    offs.push(#[verifier::truncate] ((base_width - r0) as i16) as i32);
    offs.push(#[verifier::truncate] (l1 as i16) as i32);
    offs.push(0);
    offs.push(#[verifier::truncate] (((base_width - c1) / 2) as i16) as i32);
    offs.push(#[verifier::truncate] ((base_width - r1) as i16) as i32);
    assert forall|s: int, c: int| 0 <= s < 2 && 0 <= c < 4 implies offs@[4 * s + c] == start_of(ps, s, c, bw)
        && i16::MIN <= offs@[4 * s + c] <= i16::MAX by {
        if s == 0 {
            if c == 0 {
            } else if c == 1 {
            } else if c == 2 {
            } else {
            }
        } else {
            if c == 0 {
            } else if c == 1 {
            } else if c == 2 {
            } else {
            }
        }
    }
    let mut sel: usize = 0;
    let mut i: usize = 0;
    while i < panels.len()
        invariant
            i <= panels.len(),
            ps == panels@,
            n == ps.len(),
            bw == base_width as int,
            sel <= 1,
            i == 0 ==> sel == 0,
            i > 0 ==> sel == section_of(ps, i - 1),
            offs@.len() == 8,
            forall|sec: int, class: int|
                0 <= sec <= 1 && 1 <= class <= 3 ==> #[trigger] width_sum(ps, n, sec, class, false) <= u16::MAX,
            forall|sec: int| 0 <= sec <= 1 ==> #[trigger] width_sum(ps, n, sec, 2, false) <= bw,
            forall|sec: int| 0 <= sec <= 1 ==> #[trigger] width_sum(ps, n, sec, 3, false) <= bw,
            forall|s: int, c: int|
                0 <= s < 2 && 0 <= c < 4 ==> offs@[4 * s + c] == start_of(ps, s, c, bw) + width_sum(
                    ps,
                    i as int,
                    s,
                    c,
                    true,
                ) && i16::MIN <= offs@[4 * s + c] <= i16::MAX,
            forall|j: int|
                0 <= j < i && !has_any(#[trigger] ps[j].flags, PANEL_HIDDEN) ==> {
                    &&& ps[j].width <= i16::MAX
                    &&& i16::MIN <= placed_x(ps, j, bw)
                    &&& placed_x(ps, j, bw) + ps[j].width <= i16::MAX
                },
        decreases ps.len() - i,
    {
        let flags = panels[i].flags;
        let width = panels[i].width;
        if intersects(flags, PANEL_BOTTOM_START_MARKER) {
            sel = 1;
        }
        assert(sel == section_of(ps, i as int));
        if !intersects(flags, PANEL_HIDDEN) {
            let class = class_flag(flags);
            let k = 4 * sel + class;
            assert(offs@[k as int] == placed_x(ps, i as int, bw));
            let x = offs[k];
            if width > 32767 || x + width as i32 > 32767 {
                assert(!has_any(ps[i as int].flags, PANEL_HIDDEN));
                return false;
            }
            offs.set(k, x + width as i32);
        }
        assert forall|s: int, c: int| 0 <= s < 2 && 0 <= c < 4 implies offs@[4 * s + c] == start_of(ps, s, c, bw)
            + width_sum(ps, i + 1, s, c, true) && i16::MIN <= offs@[4 * s + c] <= i16::MAX by {
            assert(width_sum(ps, i + 1, s, c, true) == width_sum(ps, i as int, s, c, true) + (if section_of(
                ps,
                i as int,
            ) == s && class_of(ps[i as int].flags) == c && !has_any(ps[i as int].flags, PANEL_HIDDEN) {
                ps[i as int].width as int
            } else {
                0
            }));
        }
        i = i + 1;
    }
    true
}

/// Place the items of a screen's panels on a screen `base_width` wide: in
/// each of the top and bottom panel, left items from 0 on, unplaced items
/// after them, centered items around the middle and right items up to the
/// end, each class in the order of its items; hidden items keep their place
/// and take no room. Returns the section, position and width of the last
/// shown tray item, where the tray window goes.
pub fn layout(panels: &mut Vec<Panel>, base_width: u16) -> (r: Option<(usize, i16, u16)>)
    requires
        layout_fits(old(panels)@, base_width as int),
    ensures
        final(panels)@.len() == old(panels)@.len(),
        forall|i: int|
            0 <= i < old(panels)@.len() ==> {
                let p = #[trigger] final(panels)@[i];
                let q = old(panels)@[i];
                &&& p.x == (if has_any(q.flags, PANEL_HIDDEN) {
                    q.x as int
                } else {
                    placed_x(old(panels)@, i, base_width as int)
                })
                &&& p.flags == q.flags
                &&& p.width == q.width
                &&& p.screen_id == q.screen_id
                &&& p.plugin_id == q.plugin_id
                &&& p.text == q.text
                &&& p.text_widths == q.text_widths
            },
        r == (match last_tray(old(panels)@, old(panels)@.len() as int) {
            Some(t) => Some(
                (
                    section_of(old(panels)@, t) as usize,
                    placed_x(old(panels)@, t, base_width as int) as i16,
                    old(panels)@[t].width,
                ),
            ),
            None => None,
        }),
{
    let ghost ps = panels@;
    let mut offs: Vec<i16> = Vec::new();
    let mut sec: usize = 0;
    while sec < 2
        invariant
            sec <= 2,
            ps == panels@,
            layout_fits(ps, base_width as int),
            offs@.len() == 4 * sec,
            forall|s: int, c: int|
                0 <= s < sec && 0 <= c < 4 ==> offs@[4 * s + c] == start_of(ps, s, c, base_width as int),
        decreases 2 - sec,
    {
        let left = class_sum(panels, sec, 1);
        let center = class_sum(panels, sec, 2);
        let right = class_sum(panels, sec, 3);
        offs.push(left as i16);
        offs.push(0);
        offs.push(((base_width - center) / 2) as i16);
        offs.push((base_width - right) as i16);
        sec = sec + 1;
    }
    let mut tray: Option<(usize, i16, u16)> = None;
    let mut sel: usize = 0;
    let mut i: usize = 0;
    while i < panels.len()
        invariant
            i <= panels.len(),
            panels@.len() == ps.len(),
            layout_fits(ps, base_width as int),
            sel <= 1,
            i == 0 ==> sel == 0,
            i > 0 ==> sel == section_of(ps, i - 1),
            offs@.len() == 8,
            forall|s: int, c: int|
                0 <= s < 2 && 0 <= c < 4 ==> offs@[4 * s + c] == start_of(ps, s, c, base_width as int)
                    + width_sum(ps, i as int, s, c, true),
            forall|j: int|
                i <= j < ps.len() ==> #[trigger] panels@[j] == ps[j],
            forall|j: int|
                0 <= j < i ==> {
                    let p = #[trigger] panels@[j];
                    let q = ps[j];
                    &&& p.x == (if has_any(q.flags, PANEL_HIDDEN) {
                        q.x as int
                    } else {
                        placed_x(ps, j, base_width as int)
                    })
                    &&& p.flags == q.flags
                    &&& p.width == q.width
                    &&& p.screen_id == q.screen_id
                    &&& p.plugin_id == q.plugin_id
                    &&& p.text == q.text
                    &&& p.text_widths == q.text_widths
                },
            tray == (match last_tray(ps, i as int) {
                Some(t) => Some(
                    (
                        section_of(ps, t) as usize,
                        placed_x(ps, t, base_width as int) as i16,
                        ps[t].width,
                    ),
                ),
                None => None,
            }),
        decreases ps.len() - i,
    {
        let flags = panels[i].flags;
        let width = panels[i].width;
        if intersects(flags, PANEL_BOTTOM_START_MARKER) {
            sel = 1;
        }
        assert(sel == section_of(ps, i as int));
        if !intersects(flags, PANEL_HIDDEN) {
            let class = class_flag(flags);
            let k = 4 * sel + class;
            assert(offs@[k as int] == placed_x(ps, i as int, base_width as int));
            let x = offs[k];
            panels[i].x = x;
            offs.set(k, x + width as i16);
            if intersects(flags, PANEL_TRAY) {
                tray = Some((sel, x, width));
            }
        }
        assert forall|s: int, c: int| 0 <= s < 2 && 0 <= c < 4 implies offs@[4 * s + c] == start_of(
            ps,
            s,
            c,
            base_width as int,
        ) + width_sum(ps, i + 1, s, c, true) by {
            assert(width_sum(ps, i + 1, s, c, true) == width_sum(ps, i as int, s, c, true) + (if section_of(
                ps,
                i as int,
            ) == s && class_of(ps[i as int].flags) == c && !has_any(ps[i as int].flags, PANEL_HIDDEN) {
                ps[i as int].width as int
            } else {
                0
            }));
        }
        i = i + 1;
    }
    tray
}


/// An action of the mouse on a panel.
#[derive(Clone, Copy, Debug, PartialEq, Eq, Structural)]
pub enum PanelAction {
    MouseOver(i16, i16),
    MouseDown(i16, i16, i8),
    MouseOut,
}

/// Width of a view item when a click is placed: its spacing, its icon with
/// the left spacing for views with icons, and its text unless icon-only.
pub open spec fn view_hit_width(style: Style, view: TagView, text_width: u16) -> int {
    let icon_part = if has_any(view.flags, VIEW_MODE_ICON) && view.icon is Some {
        (icon_width(view) as i16) as int + style.spacing(CalcSpacing::Left)
    } else {
        0
    };
    let text_part = if !has_any(view.flags, VIEW_MODE_ICON_ONLY) {
        (text_width as i16) as int
    } else {
        0
    };
    style.spacing(CalcSpacing::Width) + icon_part + text_part
}

/// The view whose item holds `x`, looking from view `i` on at `offset`.
pub open spec fn hit_from(
    styles: PanelStyles,
    state: TagState,
    screen_view: Option<isize>,
    views: Seq<TagView>,
    widths: Seq<u16>,
    x: int,
    i: int,
    style: Style,
    offset: int,
) -> Option<int>
    decreases views.len() - i,
{
    if i < 0 || i >= views.len() {
        None
    } else if skipped(views[i], state) {
        hit_from(styles, state, screen_view, views, widths, x, i + 1, style, offset)
    } else {
        let st = picked(style, styles, state, screen_view, i, views[i].tags);
        let vw = view_hit_width(st, views[i], widths[i]);
        if offset <= x <= offset + vw {
            Some(i)
        } else {
            hit_from(styles, state, screen_view, views, widths, x, i + 1, st, offset + vw)
        }
    }
}

/// Finding the view under `x` fits the numbers from view `i` on: each view
/// looked at has a bit in the visible views, a cached text width, a style
/// whose spacing fits, and its summed width and end fit the signed range.
pub open spec fn hit_fits(
    styles: PanelStyles,
    state: TagState,
    screen_view: Option<isize>,
    views: Seq<TagView>,
    widths: Seq<u16>,
    x: int,
    i: int,
    style: Style,
    offset: int,
) -> bool
    decreases views.len() - i,
{
    if i < 0 || i >= views.len() {
        true
    } else if skipped(views[i], state) {
        hit_fits(styles, state, screen_view, views, widths, x, i + 1, style, offset)
    } else {
        let st = picked(style, styles, state, screen_view, i, views[i].tags);
        let w = st.spacing(CalcSpacing::Width);
        let with_icon = w + (if has_any(views[i].flags, VIEW_MODE_ICON) && views[i].icon is Some {
            (icon_width(views[i]) as i16) as int + st.spacing(CalcSpacing::Left)
        } else {
            0
        });
        let vw = view_hit_width(st, views[i], widths[i]);
        &&& i < 31
        &&& i < widths.len()
        &&& st.spacing_fits(CalcSpacing::Width)
        &&& fits_i16(icon_width(views[i]) as i16 as int + st.spacing(CalcSpacing::Left))
        &&& fits_i16(with_icon)
        &&& fits_i16(vw)
        &&& fits_i16(offset + vw)
        &&& !(offset <= x <= offset + vw) ==> hit_fits(
            styles,
            state,
            screen_view,
            views,
            widths,
            x,
            i + 1,
            st,
            offset + vw,
        )
    }
}

/// A value fits into 16 signed bits.
pub open spec fn fits_i16(v: int) -> bool {
    i16::MIN <= v <= i16::MAX
}

/// Signed value of an unsigned pixel count, as a cast gives it.
fn to_signed(v: u16) -> (r: i16)
    ensures
        r == (v as i16),
{
    #[verifier::truncate]
    (v as i16)
}

/// A mouse action on this item can be handled: its right edge fits, and a
/// mouse down within a views item finds its view within the numbers.
pub open spec fn action_fits(
    p: Panel,
    action: PanelAction,
    views: Seq<TagView>,
    styles: PanelStyles,
    state: TagState,
    screen_view: Option<isize>,
) -> bool {
    &&& fits_i16(p.x + (p.width as i16))
    &&& match action {
        PanelAction::MouseDown(x, _, _) => x >= p.x && x <= p.x + (p.width as i16) && has_any(
            p.flags,
            PANEL_VIEWS,
        ) ==> hit_fits(styles, state, screen_view, views, p.text_widths@, x as int, 0, Style::spec_default(), p.x as int),
        _ => true,
    }
}

/// The view that a mouse action on this item focuses: a mouse down within a
/// views item hits the view whose item holds the pointer.
pub open spec fn action_hit(
    p: Panel,
    action: PanelAction,
    views: Seq<TagView>,
    styles: PanelStyles,
    state: TagState,
    screen_view: Option<isize>,
) -> Option<usize> {
    match action {
        PanelAction::MouseDown(x, _, _) => if x >= p.x && x <= p.x + (p.width as i16) && has_any(p.flags, PANEL_VIEWS) {
            match hit_from(styles, state, screen_view, views, p.text_widths@, x as int, 0, Style::spec_default(), p.x as int) {
                Some(k) => Some(k as usize),
                None => None,
            }
        } else {
            None
        },
        _ => None,
    }
}

impl Panel {
    /// The view to focus after a mouse action on this item: a mouse down
    /// within a views item picks the view whose item holds the pointer,
    /// walking the shown views from the item's start.
    pub fn handle_action(
        &self,
        action: PanelAction,
        views: &Vec<TagView>,
        styles: &PanelStyles,
        state: &TagState,
        screen_view: Option<isize>,
    ) -> (r: Option<usize>)
        requires
            action_fits(*self, action, views@, *styles, *state, screen_view),
        ensures
            r == action_hit(*self, action, views@, *styles, *state, screen_view),
    {
        if let PanelAction::MouseDown(x, _y, _button) = action {
            if x >= self.x && x <= self.x + to_signed(self.width) && intersects(self.flags, PANEL_VIEWS) {
                let mut offset_x: i16 = self.x;
                let mut style = Style::default();
                let mut i: usize = 0;
                while i < views.len()
                    invariant
                        i <= views.len(),
                        x >= self.x && x <= self.x + (self.width as i16) && has_any(self.flags, PANEL_VIEWS),
                        action == PanelAction::MouseDown(x, _y, _button),
                        hit_from(
                            *styles,
                            *state,
                            screen_view,
                            views@,
                            self.text_widths@,
                            x as int,
                            0,
                            Style::spec_default(),
                            self.x as int,
                        ) == hit_from(
                            *styles,
                            *state,
                            screen_view,
                            views@,
                            self.text_widths@,
                            x as int,
                            i as int,
                            style,
                            offset_x as int,
                        ),
                        hit_fits(
                            *styles,
                            *state,
                            screen_view,
                            views@,
                            self.text_widths@,
                            x as int,
                            i as int,
                            style,
                            offset_x as int,
                        ),
                    decreases views.len() - i,
                {
                    let view = &views[i];
                    if intersects(view.flags, VIEW_MODE_DYNAMIC) && !intersects(state.client_tags, view.tags) {
                        i = i + 1;
                        continue;
                    }
                    let ghost prev = style;
                    let ghost off = offset_x;
                    assert(views@[i as int] == *view);
                    pick_style(&mut style, styles, state, screen_view, i, view.tags);
                    let mut view_width: i16 = style.calc_spacing(CalcSpacing::Width);
                    if intersects(view.flags, VIEW_MODE_ICON) && view.icon.is_some() {
                        let icon = view.icon.unwrap();
                        view_width = view_width + (to_signed(icon.width) + style.calc_spacing(CalcSpacing::Left));
                    }
                    if !intersects(view.flags, VIEW_MODE_ICON_ONLY) {
                        view_width = view_width + to_signed(self.text_widths[i]);
                    }
                    assert(view_width == view_hit_width(style, views@[i as int], self.text_widths@[i as int]));
                    if x >= offset_x && x <= offset_x + view_width {
                        assert(hit_from(
                            *styles,
                            *state,
                            screen_view,
                            views@,
                            self.text_widths@,
                            x as int,
                            i as int,
                            prev,
                            off as int,
                        ) == Some(i as int));
                        return Some(i);
                    }
                    offset_x = offset_x + view_width;
                    i = i + 1;
                }
            }
        }
        None
    }
}

} // verus!
