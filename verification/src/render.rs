//! What a panel item draws: the rectangles, icons and texts of its parts,
//! and where they go.

use vstd::prelude::*;
use crate::bits::{has_any, intersects};
use crate::panel::{
    Panel, PanelStyles, TagState, picked, pick_style, skipped, unsigned, icon_width, max_int,
    lemma_picked_parts, PANEL_ICON, PANEL_PLUGIN, PANEL_SEPARATOR, PANEL_TRAY, PANEL_TITLE, PANEL_VIEWS,
};
use crate::rect::Rect;
use crate::style::{CalcSpacing, Style, fits_i16};
use crate::icon::Icon;
use crate::view::{TagView, VIEW_MODE_DYNAMIC, VIEW_MODE_ICON, VIEW_MODE_ICON_ONLY};

verus! {

/// How one view of a views item is drawn.
#[derive(Clone, Copy, Debug, PartialEq, Eq, Structural)]
pub struct ViewDraw {
    /// Index of the view.
    pub view: usize,
    /// Left edge of the view's background rectangle.
    pub x: u16,
    /// Width of the view's background rectangle.
    pub width: u16,
    /// The style the view is drawn with.
    pub style: Style,
    /// The view's icon is drawn at `x`.
    pub icon: bool,
    /// Where the view's name is drawn, unless the view shows its icon only.
    pub text_x: Option<u16>,
}

/// What a panel item draws.
#[derive(Debug)]
pub enum Render {
    /// Nothing.
    Nothing,
    /// A rectangle over the whole item in `style`, and, where `text` is set,
    /// the item's text at its left edge.
    Block { style: Style, text: bool },
    /// The title: a rectangle over the whole item in the title style, the
    /// focus client's modes at its left edge and its name at `name_x`.
    Title { name_x: u16 },
    /// The shown views, in order.
    Views(Vec<ViewDraw>),
}

/// The view shows its icon next to its name.
pub open spec fn shows_icon(view: TagView) -> bool {
    has_any(view.flags, VIEW_MODE_ICON) && view.icon is Some
}

/// The view shows its icon in place of its name.
pub open spec fn icon_only(view: TagView) -> bool {
    has_any(view.flags, VIEW_MODE_ICON_ONLY) && view.icon is Some
}

/// Width of the rectangle of a view: its spacing, plus its icon for
/// icon-only views, or else its text, the left spacing, and the icon with
/// another left spacing for views that show one.
pub open spec fn view_draw_width(style: Style, view: TagView, text_width: u16) -> int {
    let base = unsigned(style.spacing(CalcSpacing::Width)) as int;
    let left = unsigned(style.spacing(CalcSpacing::Left)) as int;
    if icon_only(view) {
        base + icon_width(view)
    } else {
        base + text_width + left + (if shows_icon(view) {
            icon_width(view) + left
        } else {
            0
        })
    }
}

/// How view `i` is drawn in `style` with the item's pen at `offset`: a view
/// that shows its icon next to its name moves right by the left spacing
/// first, and its name goes after the icon and another left spacing.
pub open spec fn view_draw(style: Style, view: TagView, i: int, text_width: u16, offset: int) -> ViewDraw {
    let left = unsigned(style.spacing(CalcSpacing::Left)) as int;
    let x = if !icon_only(view) && shows_icon(view) {
        offset + left
    } else {
        offset
    };
    ViewDraw {
        view: i as usize,
        x: x as u16,
        width: view_draw_width(style, view, text_width) as u16,
        style: style,
        icon: shows_icon(view),
        text_x: if has_any(view.flags, VIEW_MODE_ICON_ONLY) {
            None
        } else {
            Some(
                (x + (if shows_icon(view) {
                    icon_width(view) + left
                } else {
                    0
                })) as u16,
            )
        },
    }
}

/// Drawing the views from view `i` on, with `style` carried from the view
/// before and the pen at `offset`: the draws of the shown views and where
/// the pen ends. After each view the pen moves past its rectangle, by at
/// least the style's minimum width.
pub open spec fn views_render_from(
    styles: PanelStyles,
    state: TagState,
    screen_view: Option<isize>,
    views: Seq<TagView>,
    widths: Seq<u16>,
    i: int,
    style: Style,
    offset: int,
) -> (Seq<ViewDraw>, int)
    decreases views.len() - i,
{
    if i < 0 || i >= views.len() {
        (Seq::empty(), offset)
    } else if skipped(views[i], state) {
        views_render_from(styles, state, screen_view, views, widths, i + 1, style, offset)
    } else {
        let st = picked(style, styles, state, screen_view, i, views[i].tags);
        let left = unsigned(st.spacing(CalcSpacing::Left)) as int;
        let x = if !icon_only(views[i]) && shows_icon(views[i]) {
            offset + left
        } else {
            offset
        };
        let vw = view_draw_width(st, views[i], widths[i]);
        let rest = views_render_from(
            styles,
            state,
            screen_view,
            views,
            widths,
            i + 1,
            st,
            x + max_int(st.min_width as int, vw),
        );
        (seq![view_draw(st, views[i], i, widths[i], offset)] + rest.0, rest.1)
    }
}

/// Drawing the views fits the numbers: each shown view has a bit in the
/// visible views and a style whose spacing fits, and the pen never passes
/// the unsigned range.
pub open spec fn views_render_fits(
    styles: PanelStyles,
    state: TagState,
    screen_view: Option<isize>,
    views: Seq<TagView>,
    widths: Seq<u16>,
) -> bool {
    &&& forall|i: int|
        #![trigger views[i]]
        0 <= i < views.len() && !skipped(views[i], state) ==> {
            &&& i < 31
            &&& picked(Style::spec_default(), styles, state, screen_view, i, views[i].tags).spacing_fits(
                CalcSpacing::Width,
            )
        }
    &&& views_render_from(styles, state, screen_view, views, widths, 0, Style::spec_default(), 0).1
        <= u16::MAX
}

/// The pen never moves left.
pub proof fn lemma_views_render_mono(
    styles: PanelStyles,
    state: TagState,
    screen_view: Option<isize>,
    views: Seq<TagView>,
    widths: Seq<u16>,
    i: int,
    style: Style,
    offset: int,
)
    ensures
        views_render_from(styles, state, screen_view, views, widths, i, style, offset).1 >= offset,
    decreases views.len() - i,
{
    if 0 <= i < views.len() {
        if skipped(views[i], state) {
            lemma_views_render_mono(styles, state, screen_view, views, widths, i + 1, style, offset);
        } else {
            let st = picked(style, styles, state, screen_view, i, views[i].tags);
            let left = unsigned(st.spacing(CalcSpacing::Left)) as int;
            let x = if !icon_only(views[i]) && shows_icon(views[i]) {
                offset + left
            } else {
                offset
            };
            let vw = view_draw_width(st, views[i], widths[i]);
            lemma_views_render_mono(
                styles,
                state,
                screen_view,
                views,
                widths,
                i + 1,
                st,
                x + max_int(st.min_width as int, vw),
            );
        }
    }
}

/// The views of a views item are drawn left to right without overlap: each
/// rectangle ends before the next one starts, and all of them lie between
/// the pen's start and end.
pub proof fn lemma_view_draws_apart(
    styles: PanelStyles,
    state: TagState,
    screen_view: Option<isize>,
    views: Seq<TagView>,
    widths: Seq<u16>,
    i: int,
    style: Style,
    offset: int,
)
    requires
        0 <= offset,
        views_render_from(styles, state, screen_view, views, widths, i, style, offset).1 <= u16::MAX,
    ensures
        ({
            let r = views_render_from(styles, state, screen_view, views, widths, i, style, offset);
            &&& forall|a: int, b: int|
                0 <= a < b < r.0.len() ==> #[trigger] r.0[a].x + r.0[a].width <= #[trigger] r.0[b].x
            &&& forall|a: int| 0 <= a < r.0.len() ==> offset <= #[trigger] r.0[a].x && r.0[a].x + r.0[a].width <= r.1
        }),
    decreases views.len() - i,
{
    if 0 <= i < views.len() {
        if skipped(views[i], state) {
            lemma_view_draws_apart(styles, state, screen_view, views, widths, i + 1, style, offset);
        } else {
            let st = picked(style, styles, state, screen_view, i, views[i].tags);
            let left = unsigned(st.spacing(CalcSpacing::Left)) as int;
            let x = if !icon_only(views[i]) && shows_icon(views[i]) {
                offset + left
            } else {
                offset
            };
            let vw = view_draw_width(st, views[i], widths[i]);
            let next = x + max_int(st.min_width as int, vw);
            let rest = views_render_from(styles, state, screen_view, views, widths, i + 1, st, next);
            let d = view_draw(st, views[i], i, widths[i], offset);
            lemma_views_render_mono(styles, state, screen_view, views, widths, i + 1, st, next);
            lemma_view_draws_apart(styles, state, screen_view, views, widths, i + 1, st, next);
            let r = views_render_from(styles, state, screen_view, views, widths, i, style, offset);
            assert(r.0 == seq![d] + rest.0);
            assert(r.1 == rest.1);
            assert(d.x == x);
            assert(d.width == vw);
            assert forall|a: int, b: int| 0 <= a < b < r.0.len() implies #[trigger] r.0[a].x + r.0[a].width
                <= #[trigger] r.0[b].x by {
                if a == 0 {
                    assert(r.0[b] == rest.0[b - 1]);
                } else {
                    assert(r.0[a] == rest.0[a - 1]);
                    assert(r.0[b] == rest.0[b - 1]);
                }
            }
            assert forall|a: int| 0 <= a < r.0.len() implies offset <= #[trigger] r.0[a].x && r.0[a].x
                + r.0[a].width <= r.1 by {
                if a > 0 {
                    assert(r.0[a] == rest.0[a - 1]);
                }
            }
        }
    }
}

/// Signed pixel count as unsigned, as a cast gives it.
fn as_unsigned(v: i16) -> (r: u16)
    ensures
        r == unsigned(v as int),
{
    #[verifier::truncate]
    (v as u16)
}

/// Draw the views of a views item: for each shown view pick its style, and
/// place its rectangle, icon and name from the cached text widths.
pub fn render_views(
    views: &Vec<TagView>,
    widths: &Vec<u16>,
    styles: &PanelStyles,
    state: &TagState,
    screen_view: Option<isize>,
) -> (r: Vec<ViewDraw>)
    requires
        widths.len() >= views.len(),
        views_render_fits(*styles, *state, screen_view, views@, widths@),
    ensures
        r@ == views_render_from(
            *styles,
            *state,
            screen_view,
            views@,
            widths@,
            0,
            Style::spec_default(),
            0,
        ).0,
{
    let ghost whole = views_render_from(
        *styles,
        *state,
        screen_view,
        views@,
        widths@,
        0,
        Style::spec_default(),
        0,
    );
    let mut out: Vec<ViewDraw> = Vec::new();
    let mut style = Style::default();
    let mut offset: u16 = 0;
    let mut i: usize = 0;
    while i < views.len()
        invariant
            i <= views.len(),
            widths.len() >= views.len(),
            views_render_fits(*styles, *state, screen_view, views@, widths@),
            whole == views_render_from(
                *styles,
                *state,
                screen_view,
                views@,
                widths@,
                0,
                Style::spec_default(),
                0,
            ),
            whole.0 == out@ + views_render_from(
                *styles,
                *state,
                screen_view,
                views@,
                widths@,
                i as int,
                style,
                offset as int,
            ).0,
            whole.1 == views_render_from(
                *styles,
                *state,
                screen_view,
                views@,
                widths@,
                i as int,
                style,
                offset as int,
            ).1,
        decreases views.len() - i,
    {
        let view = &views[i];
        assert(views@[i as int] == *view);
        if intersects(view.flags, VIEW_MODE_DYNAMIC) && !intersects(state.client_tags, view.tags) {
            i = i + 1;
            continue;
        }
        assert(!skipped(views@[i as int], *state));
        let ghost prev = style;
        let ghost off = offset as int;
        pick_style(&mut style, styles, state, screen_view, i, view.tags);
        proof {
            lemma_picked_parts(prev, *styles, *state, screen_view, i as int, view.tags);
        }
        let ghost st = style;
        let ghost left_i = unsigned(st.spacing(CalcSpacing::Left)) as int;
        let ghost x_i = if !icon_only(views@[i as int]) && shows_icon(views@[i as int]) {
            off + left_i
        } else {
            off
        };
        let ghost vw_i = view_draw_width(st, views@[i as int], widths@[i as int]);
        proof {
            lemma_views_render_mono(
                *styles,
                *state,
                screen_view,
                views@,
                widths@,
                i + 1,
                st,
                x_i + max_int(st.min_width as int, vw_i),
            );
        }
        let left = as_unsigned(style.calc_spacing(CalcSpacing::Left));
        let mut view_width: u16 = as_unsigned(style.calc_spacing(CalcSpacing::Width));
        let has_icon = view.icon.is_some();
        let with_icon = intersects(view.flags, VIEW_MODE_ICON) && has_icon;
        if intersects(view.flags, VIEW_MODE_ICON_ONLY) && has_icon {
            let icon = view.icon.unwrap();
            view_width = view_width + icon.width;
        } else {
            view_width = view_width + widths[i] + left;
            if with_icon {
                let icon = view.icon.unwrap();
                view_width = view_width + icon.width + left;
                offset = offset + left;
            }
        }
        assert(offset == x_i);
        assert(view_width == vw_i);
        let text_x = if intersects(view.flags, VIEW_MODE_ICON_ONLY) {
            None
        } else if with_icon {
            let icon = view.icon.unwrap();
            Some(offset + icon.width + left)
        } else {
            Some(offset)
        };
        let draw = ViewDraw { view: i, x: offset, width: view_width, style: style, icon: with_icon, text_x: text_x };
        assert(draw == view_draw(st, views@[i as int], i as int, widths@[i as int], off));
        out.push(draw);
        let min_width = style.min_width as u16;
        offset = offset + if min_width >= view_width {
            min_width
        } else {
            view_width
        };
        i = i + 1;
    }
    out
}

/// None of the first `n` drawn kinds, in the order plugin, separator, tray,
/// title and views, is set in `flags`.
pub open spec fn no_kind_before(flags: u32, n: int) -> bool {
    &&& n >= 1 ==> !has_any(flags, PANEL_PLUGIN)
    &&& n >= 2 ==> !has_any(flags, PANEL_SEPARATOR)
    &&& n >= 3 ==> !has_any(flags, PANEL_TRAY)
    &&& n >= 4 ==> !has_any(flags, PANEL_TITLE)
    &&& n >= 5 ==> !has_any(flags, PANEL_VIEWS)
}

impl Panel {
    /// What this item draws. An icon item has no drawing (`requires`). A
    /// plugin item draws a block in the views style, a separator in the
    /// separator style, both with their text where they have one; a tray
    /// item draws a block in the tray style. A title item draws when
    /// `title_shown` (the focus client is alive, visible and no desktop):
    /// its name goes after the left spacing of the title style and the
    /// width of its modes, where `mode_width` is that width as measured with
    /// the title style's font. A views item draws its views.
    pub fn render(
        &self,
        views: &Vec<TagView>,
        styles: &PanelStyles,
        state: &TagState,
        screen_view: Option<isize>,
        title_shown: bool,
        mode_width: Option<u16>,
    ) -> (r: Render)
        requires
            !has_any(self.flags, PANEL_ICON),
            has_any(self.flags, PANEL_TITLE) && title_shown ==> {
                &&& styles.title.spacing_fits(CalcSpacing::Left)
                &&& unsigned(styles.title.spacing(CalcSpacing::Left)) + (match mode_width {
                    Some(w) => w as int,
                    None => 0,
                }) <= u16::MAX
            },
            has_any(self.flags, PANEL_VIEWS) ==> {
                &&& self.text_widths.len() >= views.len()
                &&& views_render_fits(*styles, *state, screen_view, views@, self.text_widths@)
            },
        ensures
            has_any(self.flags, PANEL_PLUGIN) ==> r == (Render::Block { style: styles.views, text: self.text is Some }),
            no_kind_before(self.flags, 1) && has_any(self.flags, PANEL_SEPARATOR) ==> r == (Render::Block {
                style: styles.separator,
                text: self.text is Some,
            }),
            no_kind_before(self.flags, 2) && has_any(self.flags, PANEL_TRAY) ==> r
                == (Render::Block { style: styles.tray, text: false }),
            no_kind_before(self.flags, 3) && has_any(self.flags, PANEL_TITLE)
                ==> r == (if title_shown {
                Render::Title {
                    name_x: (unsigned(styles.title.spacing(CalcSpacing::Left)) + (match mode_width {
                        Some(w) => w as int,
                        None => 0,
                    })) as u16,
                }
            } else {
                Render::Nothing
            }),
            no_kind_before(self.flags, 4) && has_any(
                self.flags,
                PANEL_VIEWS,
            ) ==> (r matches Render::Views(v) && v@ == views_render_from(
                *styles,
                *state,
                screen_view,
                views@,
                self.text_widths@,
                0,
                Style::spec_default(),
                0,
            ).0),
            no_kind_before(self.flags, 5) ==> r
                == Render::Nothing,
    {
        if intersects(self.flags, PANEL_PLUGIN) {
            Render::Block { style: styles.views, text: self.text.is_some() }
        } else if intersects(self.flags, PANEL_SEPARATOR) {
            Render::Block { style: styles.separator, text: self.text.is_some() }
        } else if intersects(self.flags, PANEL_TRAY) {
            Render::Block { style: styles.tray, text: false }
        } else if intersects(self.flags, PANEL_TITLE) {
            if title_shown {
                let mut name_x: u16 = as_unsigned(styles.title.calc_spacing(CalcSpacing::Left));
                if let Some(w) = mode_width {
                    name_x = name_x + w;
                }
                Render::Title { name_x }
            } else {
                Render::Nothing
            }
        } else if intersects(self.flags, PANEL_VIEWS) {
            Render::Views(render_views(views, &self.text_widths, styles, state, screen_view))
        } else {
            Render::Nothing
        }
    }
}

/// A rectangle filled in a color.
#[derive(Clone, Copy, Debug, PartialEq, Eq, Structural)]
pub struct Fill {
    pub color: i32,
    pub rect: Rect,
}

/// Drawing the background and border of a part of an item fits the
/// numbers: the margins sum, the background fits inside `width` and the
/// panel's height, and the edges of the right and bottom border and the
/// left edge of the part stay in range.
pub open spec fn rect_fits(x: i16, offset_x: u16, width: u16, style: Style, panel_height: u16) -> bool {
    let m = style.margin;
    let b = style.border;
    let right0 = x + (width as i16);
    &&& fits_i16(m.left + m.right)
    &&& fits_i16(m.top + m.bottom)
    &&& (x as u16) + (m.left as u16) + offset_x <= u16::MAX
    &&& width >= ((m.left + m.right) as u16)
    &&& panel_height >= ((m.top + m.bottom) as u16)
    &&& fits_i16(right0)
    &&& fits_i16(right0 - b.right)
    &&& fits_i16(right0 - b.right - m.right)
    &&& fits_i16(right0 - b.right - m.right + (offset_x as i16))
    &&& fits_i16((panel_height as i16) - b.bottom)
    &&& fits_i16((panel_height as i16) - b.bottom - m.bottom)
    &&& fits_i16(x + m.left)
    &&& fits_i16(x + m.left + (offset_x as i16))
}

/// The rectangles of a part `width` wide at `offset_x` in an item at `x`:
/// the background inside the margins, then the top, right, bottom and left
/// border, each in its color.
pub open spec fn rect_fill_seq(x: i16, offset_x: u16, width: u16, style: Style, panel_height: u16) -> Seq<Fill> {
    let m = style.margin;
    let b = style.border;
    let inner_x = ((x as u16) + (m.left as u16) + offset_x) as i16;
    let inner_width = (width - ((m.left + m.right) as u16)) as u16;
    let inner_height = (panel_height - ((m.top + m.bottom) as u16)) as u16;
    let side_x = (x + m.left + (offset_x as i16)) as i16;
    seq![
        Fill { color: style.bg, rect: Rect { x: inner_x, y: m.top, width: inner_width, height: inner_height } },
        Fill { color: style.top, rect: Rect { x: inner_x, y: m.top, width: inner_width, height: b.top as u16 } },
        Fill {
            color: style.right,
            rect: Rect {
                x: (x + (width as i16) - b.right - m.right + (offset_x as i16)) as i16,
                y: m.top,
                width: b.right as u16,
                height: inner_height,
            },
        },
        Fill {
            color: style.bottom,
            rect: Rect {
                x: side_x,
                y: ((panel_height as i16) - b.bottom - m.bottom) as i16,
                width: inner_width,
                height: b.bottom as u16,
            },
        },
        Fill { color: style.left, rect: Rect { x: side_x, y: m.top, width: b.left as u16, height: inner_height } },
    ]
}

impl Panel {
    /// The rectangles that draw the background and border of a part of this
    /// item, `width` wide at `offset_x`: none for an item of no width.
    pub fn rect_fills(&self, offset_x: u16, width: u16, style: &Style, panel_height: u16) -> (r: Vec<Fill>)
        requires
            self.width > 0 ==> rect_fits(self.x, offset_x, width, *style, panel_height),
        ensures
            r@ == (if self.width == 0 {
                Seq::empty()
            } else {
                rect_fill_seq(self.x, offset_x, width, *style, panel_height)
            }),
    {
        let mut out: Vec<Fill> = Vec::new();
        if self.width == 0 {
            return out;
        }
        let m = style.margin;
        let b = style.border;
        let margin_width: i16 = m.left + m.right;
        let margin_height: i16 = m.top + m.bottom;
        #[verifier::truncate]
        let mw = margin_width as u16;
        #[verifier::truncate]
        let mh = margin_height as u16;
        #[verifier::truncate]
        let x_u = self.x as u16;
        #[verifier::truncate]
        let ml_u = m.left as u16;
        #[verifier::truncate]
        let inner_x = (x_u + ml_u + offset_x) as i16;
        let inner_width = width - mw;
        let inner_height = panel_height - mh;
        #[verifier::truncate]
        let off_i = offset_x as i16;
        #[verifier::truncate]
        let width_i = width as i16;
        #[verifier::truncate]
        let ph_i = panel_height as i16;
        #[verifier::truncate]
        let top_u = b.top as u16;
        #[verifier::truncate]
        let right_u = b.right as u16;
        #[verifier::truncate]
        let bottom_u = b.bottom as u16;
        #[verifier::truncate]
        let left_u = b.left as u16;
        let side_x = self.x + m.left + off_i;
        out.push(Fill { color: style.bg, rect: Rect { x: inner_x, y: m.top, width: inner_width, height: inner_height } });
        out.push(Fill { color: style.top, rect: Rect { x: inner_x, y: m.top, width: inner_width, height: top_u } });
        out.push(
            Fill {
                color: style.right,
                rect: Rect { x: self.x + width_i - b.right - m.right + off_i, y: m.top, width: right_u, height: inner_height },
            },
        );
        out.push(
            Fill {
                color: style.bottom,
                rect: Rect { x: side_x, y: ph_i - b.bottom - m.bottom, width: inner_width, height: bottom_u },
            },
        );
        out.push(Fill { color: style.left, rect: Rect { x: side_x, y: m.top, width: left_u, height: inner_height } });
        assert(out@ =~= rect_fill_seq(self.x, offset_x, width, *style, panel_height));
        out
    }

    /// Where a text of this item starts, drawn at `offset_x` in `style` with
    /// a font whose baseline is `font_y` below the top: after the item's
    /// left edge and the style's left spacing, on the baseline below the
    /// style's top spacing.
    pub fn text_origin(&self, offset_x: u16, style: &Style, font_y: u16) -> (r: (i16, i16))
        requires
            style.spacing_fits(CalcSpacing::Left),
            style.spacing_fits(CalcSpacing::Top),
            (self.x as u16) + unsigned(style.spacing(CalcSpacing::Left)) + offset_x <= u16::MAX,
            fits_i16((font_y as i16) + style.spacing(CalcSpacing::Top)),
        ensures
            r == (
                ((self.x as u16) + unsigned(style.spacing(CalcSpacing::Left)) + offset_x) as i16,
                ((font_y as i16) + style.spacing(CalcSpacing::Top)) as i16,
            ),
    {
        #[verifier::truncate]
        let x_u = self.x as u16;
        let left = as_unsigned(style.calc_spacing(CalcSpacing::Left));
        #[verifier::truncate]
        let x = (x_u + left + offset_x) as i16;
        #[verifier::truncate]
        let fy = font_y as i16;
        (x, fy + style.calc_spacing(CalcSpacing::Top))
    }

    /// Where an icon of this item goes, drawn at `offset_x` in `style`:
    /// after the item's left edge and the style's left spacing, centered in
    /// the panel's height.
    pub fn icon_origin(&self, offset_x: u16, style: &Style, icon: &Icon, panel_height: u16) -> (r: (i16, i16))
        requires
            style.spacing_fits(CalcSpacing::Left),
            fits_i16(self.x + (offset_x as i16)),
            fits_i16(self.x + (offset_x as i16) + style.spacing(CalcSpacing::Left)),
            panel_height >= icon.height,
        ensures
            r == (
                (self.x + (offset_x as i16) + style.spacing(CalcSpacing::Left)) as i16,
                ((panel_height - icon.height) / 2) as i16,
            ),
    {
        #[verifier::truncate]
        let off_i = offset_x as i16;
        #[verifier::truncate]
        let y = ((panel_height - icon.height) / 2) as i16;
        (self.x + off_i + style.calc_spacing(CalcSpacing::Left), y)
    }
}

} // verus!
