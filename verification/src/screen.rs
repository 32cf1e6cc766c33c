//! Screens: their geometry, panels and the views they show.

use vstd::prelude::*;
use crate::bits::{bit, bit_at, has_any, intersects};
use crate::client::{Client, DEAD, MODE_STICK, TYPE_DESKTOP, UNMAP};
use crate::panel::{makes_item, new_item, Panel, PANEL_BOTTOM_START_MARKER, PANEL_PLUGIN, PANEL_SEPARATOR, PANEL_TITLE};
use crate::spacing::Spacing;
use crate::rect::Rect;
use crate::view::TagView;

verus! {

/// Screen has a top panel.
pub const TOP_PANEL: u32 = 1u32 << 0u32;
/// Screen has a bottom panel.
pub const BOTTOM_PANEL: u32 = 1u32 << 1u32;
/// Screen is virtual.
pub const VIRTUAL: u32 = 1u32 << 2u32;

/// A screen: its full area (`base`), the area left for clients (`geom`), the
/// view it shows (`-1` for none) and its panels.
#[derive(Debug)]
pub struct Screen {
    pub flags: u32,
    pub view_idx: isize,
    pub top_panel_win: u32,
    pub bottom_panel_win: u32,
    pub geom: Rect,
    pub base: Rect,
    pub panels: Vec<Panel>,
}

impl Screen {
    /// A screen covering the given area, without panels and without view.
    pub fn new(x: i16, y: i16, width: u16, height: u16, top_panel_win: u32, bottom_panel_win: u32) -> (s: Screen)
        ensures
            s.geom == (Rect { x, y, width, height }),
            s.base == s.geom,
            s.flags == 0,
            s.view_idx == -1,
            s.top_panel_win == top_panel_win,
            s.bottom_panel_win == bottom_panel_win,
            s.panels@.len() == 0,
    {
        let r = Rect { x, y, width, height };
        Screen { flags: 0, view_idx: -1, top_panel_win, bottom_panel_win, geom: r, base: r, panels: Vec::new() }
    }

    /// The screen shows one of the `nviews` views.
    pub open spec fn shows_view(self, nviews: int) -> bool {
        0 <= self.view_idx < nviews
    }
}

} // verus!

verus! {

/// What configuring decided for one client.
#[derive(Clone, Copy, Debug, PartialEq, Eq, Structural)]
pub enum Placement {
    /// The client is dead and was left alone.
    Dead,
    /// The client is shown with this gravity on this screen and view.
    Shown { gravity_idx: isize, screen_idx: isize, view_idx: isize },
    /// The client is on no visible view and is hidden.
    Hidden,
}

/// The visible tags, views and client tags after configuring, and what was
/// decided for each client.
#[derive(Debug)]
pub struct Configuration {
    pub visible_tags: u32,
    pub visible_views: u32,
    pub client_tags: u32,
    pub placements: Vec<Placement>,
}

/// The tags of `start` with the views of the first `k` screens added.
pub open spec fn acc_tags(start: u32, screens: Seq<Screen>, views: Seq<TagView>, k: int) -> u32
    decreases k,
{
    if k <= 0 {
        start
    } else {
        let p = acc_tags(start, screens, views, k - 1);
        if screens[k - 1].shows_view(views.len() as int) {
            p | views[screens[k - 1].view_idx as int].tags
        } else {
            p
        }
    }
}

/// The view bits of `start` with the views of the first `k` screens added;
/// view `i` has bit `i + 1`.
pub open spec fn acc_views(start: u32, screens: Seq<Screen>, nviews: int, k: int) -> u32
    decreases k,
{
    if k <= 0 {
        start
    } else {
        let p = acc_views(start, screens, nviews, k - 1);
        if screens[k - 1].shows_view(nviews) {
            p | bit(screens[k - 1].view_idx + 1)
        } else {
            p
        }
    }
}

/// The client is not dead.
pub open spec fn live(c: Client) -> bool {
    !has_any(c.flags, DEAD)
}

/// Visible tags after the first `c` clients were configured.
pub open spec fn tags_before(clients: Seq<Client>, screens: Seq<Screen>, views: Seq<TagView>, c: int) -> u32
    decreases c,
{
    if c <= 0 {
        0
    } else {
        let p = tags_before(clients, screens, views, c - 1);
        if live(clients[c - 1]) {
            acc_tags(p, screens, views, screens.len() as int)
        } else {
            p
        }
    }
}

/// Visible views after the first `c` clients were configured.
pub open spec fn views_before(clients: Seq<Client>, screens: Seq<Screen>, nviews: int, c: int) -> u32
    decreases c,
{
    if c <= 0 {
        0
    } else {
        let p = views_before(clients, screens, nviews, c - 1);
        if live(clients[c - 1]) {
            acc_views(p, screens, nviews, screens.len() as int)
        } else {
            p
        }
    }
}

/// Union of the tags of the first `c` live clients.
pub open spec fn client_tags_before(clients: Seq<Client>, c: int) -> u32
    decreases c,
{
    if c <= 0 {
        0
    } else {
        let p = client_tags_before(clients, c - 1);
        if live(clients[c - 1]) {
            p | clients[c - 1].tags
        } else {
            p
        }
    }
}

/// Screen `k` shows a view and, with the visible tags gathered up to and
/// including it, the client is visible.
pub open spec fn shown_on(start: u32, client: Client, screens: Seq<Screen>, views: Seq<TagView>, k: int) -> bool {
    &&& screens[k].shows_view(views.len() as int)
    &&& crate::client::visible_with(acc_tags(start, screens, views, k + 1), client.flags, client.tags)
}

/// The last screen below `k` that the client is shown on.
pub open spec fn last_shown(start: u32, client: Client, screens: Seq<Screen>, views: Seq<TagView>, k: int) -> Option<int>
    decreases k,
{
    if k <= 0 {
        None
    } else if shown_on(start, client, screens, views, k - 1) {
        Some(k - 1)
    } else {
        last_shown(start, client, screens, views, k - 1)
    }
}

/// The placement that configuring decides for client `c`: dead clients are
/// left alone; a client is shown on the last screen whose view it is visible
/// on, with its gravity for that view (a sticky client keeps its own screen
/// and that screen's view); otherwise it is hidden.
pub open spec fn placement_of(clients: Seq<Client>, screens: Seq<Screen>, views: Seq<TagView>, c: int) -> Placement {
    let client = clients[c];
    if !live(client) {
        Placement::Dead
    } else {
        match last_shown(tags_before(clients, screens, views, c), client, screens, views, screens.len() as int) {
            Some(k) => {
                let gravity = client.gravities@[screens[k].view_idx as int] as isize;
                if has_any(client.flags, MODE_STICK) && 0 <= client.screen_idx < screens.len() {
                    Placement::Shown {
                        gravity_idx: gravity,
                        screen_idx: client.screen_idx,
                        view_idx: screens[client.screen_idx as int].view_idx,
                    }
                } else {
                    Placement::Shown { gravity_idx: gravity, screen_idx: k as isize, view_idx: screens[k].view_idx }
                }
            },
            None => Placement::Hidden,
        }
    }
}

proof fn lemma_last_shown(start: u32, client: Client, screens: Seq<Screen>, views: Seq<TagView>, k: int)
    ensures
        last_shown(start, client, screens, views, k) matches Some(i) ==> 0 <= i < k && shown_on(
            start,
            client,
            screens,
            views,
            i,
        ),
    decreases k,
{
    if k > 0 {
        lemma_last_shown(start, client, screens, views, k - 1);
    }
}

/// Some client is alive.
pub open spec fn any_live(clients: Seq<Client>) -> bool {
    exists|c: int| 0 <= c < clients.len() && live(#[trigger] clients[c])
}

/// Every shown view has a bit in a view set.
pub open spec fn view_bits_fit(screens: Seq<Screen>, nviews: int) -> bool {
    forall|k: int| 0 <= k < screens.len() && #[trigger] screens[k].shows_view(nviews) ==> screens[k].view_idx < 31
}

/// Every live client has a gravity for each view it is shown with.
pub open spec fn gravities_cover(clients: Seq<Client>, screens: Seq<Screen>, views: Seq<TagView>) -> bool {
    forall|c: int, k: int|
        0 <= c < clients.len() && 0 <= k < screens.len() && live(clients[c]) && #[trigger] shown_on(
            tags_before(clients, screens, views, c),
            #[trigger] clients[c],
            screens,
            views,
            k,
        ) ==> screens[k].view_idx < clients[c].gravities@.len()
}

/// Configuring does not overflow or index out of bounds.
pub open spec fn configure_ok(clients: Seq<Client>, screens: Seq<Screen>, views: Seq<TagView>) -> bool {
    &&& (clients.len() == 0 || any_live(clients)) ==> view_bits_fit(screens, views.len() as int)
    &&& gravities_cover(clients, screens, views)
}

/// A client after configuring: hidden clients ignore their next unmap.
pub open spec fn configured_client(old: Client, p: Placement) -> Client {
    if p is Hidden {
        Client { flags: old.flags | UNMAP, ..old }
    } else {
        old
    }
}

/// Decide which clients are shown where and which are hidden, and gather the
/// visible tags, the visible views and the tags of all live clients. Hidden
/// clients are marked to ignore their next unmap.
pub fn configure(clients: &mut Vec<Client>, screens: &Vec<Screen>, views: &Vec<TagView>) -> (r: Configuration)
    requires
        configure_ok(old(clients)@, screens@, views@),
    ensures
        r.placements@.len() == old(clients)@.len(),
        final(clients)@.len() == old(clients)@.len(),
        forall|c: int| 0 <= c < old(clients)@.len() ==> #[trigger] r.placements@[c] == placement_of(old(clients)@, screens@, views@, c),
        forall|c: int| 0 <= c < old(clients)@.len() ==> #[trigger] final(clients)@[c] == configured_client(old(clients)@[c], r.placements@[c]),
        r.client_tags == client_tags_before(old(clients)@, old(clients)@.len() as int),
        r.visible_tags == (if old(clients)@.len() == 0 {
            acc_tags(0, screens@, views@, screens@.len() as int)
        } else {
            tags_before(old(clients)@, screens@, views@, old(clients)@.len() as int)
        }),
        r.visible_views == (if old(clients)@.len() == 0 {
            acc_views(0, screens@, views@.len() as int, screens@.len() as int)
        } else {
            views_before(old(clients)@, screens@, views@.len() as int, old(clients)@.len() as int)
        }),
{
    let ghost cs = clients@;
    let mut visible_tags: u32 = 0;
    let mut visible_views: u32 = 0;
    let mut client_tags: u32 = 0;
    let mut placements: Vec<Placement> = Vec::new();
    let mut c: usize = 0;
    while c < clients.len()
        invariant
            clients@.len() == cs.len(),
            configure_ok(cs, screens@, views@),
            c <= cs.len(),
            visible_tags == tags_before(cs, screens@, views@, c as int),
            visible_views == views_before(cs, screens@, views@.len() as int, c as int),
            client_tags == client_tags_before(cs, c as int),
            placements@.len() == c,
            forall|j: int| 0 <= j < c ==> #[trigger] placements@[j] == placement_of(cs, screens@, views@, j),
            forall|j: int| 0 <= j < c ==> #[trigger] clients@[j] == configured_client(cs[j], placements@[j]),
            forall|j: int| c <= j < cs.len() ==> #[trigger] clients@[j] == cs[j],
        decreases cs.len() - c,
    {
        let flags = clients[c].flags;
        if intersects(flags, DEAD) {
            placements.push(Placement::Dead);
        } else {
            proof {
                assert(live(cs[c as int]));
                assert(any_live(cs));
            }
            client_tags = client_tags | clients[c].tags;
            let ghost start = visible_tags;
            let mut found: Option<usize> = None;
            let mut k: usize = 0;
            while k < screens.len()
                invariant
                    clients@.len() == cs.len(),
                    c < cs.len(),
                    clients@[c as int] == cs[c as int],
                    view_bits_fit(screens@, views@.len() as int),
                    k <= screens@.len(),
                    visible_tags == acc_tags(start, screens@, views@, k as int),
                    visible_views == acc_views(
                        views_before(cs, screens@, views@.len() as int, c as int),
                        screens@,
                        views@.len() as int,
                        k as int,
                    ),
                    found == (match last_shown(start, cs[c as int], screens@, views@, k as int) {
                        Some(i) => Some(i as usize),
                        None => None::<usize>,
                    }),
                    match last_shown(start, cs[c as int], screens@, views@, k as int) {
                        Some(i) => 0 <= i < k,
                        None => true,
                    },
                decreases screens.len() - k,
            {
                let vi = screens[k].view_idx;
                if vi >= 0 && (vi as usize) < views.len() {
                    assert(screens@[k as int].shows_view(views@.len() as int));
                    visible_tags = visible_tags | views[vi as usize].tags;
                    visible_views = visible_views | bit_at((vi + 1) as usize);
                    if clients[c].is_visible(visible_tags) {
                        found = Some(k);
                    }
                }
                k = k + 1;
            }
            proof {
                lemma_last_shown(start, cs[c as int], screens@, views@, screens@.len() as int);
            }
            let p = match found {
                Some(k) => {
                    let vi = screens[k].view_idx;
                    assert(shown_on(start, cs[c as int], screens@, views@, k as int));
                    let gravity = #[verifier::truncate] (clients[c].gravities[vi as usize] as isize);
                    let sidx = clients[c].screen_idx;
                    if intersects(flags, MODE_STICK) && sidx >= 0 && (sidx as usize) < screens.len() {
                        Placement::Shown { gravity_idx: gravity, screen_idx: sidx, view_idx: screens[sidx as usize].view_idx }
                    } else {
                        Placement::Shown { gravity_idx: gravity, screen_idx: k as isize, view_idx: vi }
                    }
                },
                None => {
                    clients[c].flags = flags | UNMAP;
                    Placement::Hidden
                },
            };
            placements.push(p);
        }
        c = c + 1;
    }
    if clients.len() == 0 {
        let mut k: usize = 0;
        while k < screens.len()
            invariant
                cs.len() == 0,
                view_bits_fit(screens@, views@.len() as int),
                k <= screens@.len(),
                visible_tags == acc_tags(0, screens@, views@, k as int),
                visible_views == acc_views(0, screens@, views@.len() as int, k as int),
            decreases screens.len() - k,
        {
            let vi = screens[k].view_idx;
            if vi >= 0 && (vi as usize) < views.len() {
                assert(screens@[k as int].shows_view(views@.len() as int));
                visible_tags = visible_tags | views[vi as usize].tags;
                visible_views = visible_views | bit_at((vi + 1) as usize);
            }
            k = k + 1;
        }
    }
    Configuration { visible_tags, visible_views, client_tags, placements }
}

} // verus!

verus! {

/// The right and bottom edge of the screen area fit into 16 bits.
pub open spec fn base_fits(s: Screen) -> bool {
    &&& crate::style::fits_i16(s.base.x + (s.base.width as i16))
    &&& crate::style::fits_i16(s.base.y + (s.base.height as i16))
}

/// The edges of all screens fit into 16 bits.
pub open spec fn screens_fit(screens: Seq<Screen>) -> bool {
    forall|i: int| 0 <= i < screens.len() ==> base_fits(#[trigger] screens[i])
}

/// Whether the edges of all screens fit into 16 bits (see `screens_fit`).
pub fn screens_fit_check(screens: &Vec<Screen>) -> (r: bool)
    ensures
        r == screens_fit(screens@),
{
    let mut i: usize = 0;
    while i < screens.len()
        invariant
            i <= screens.len(),
            forall|j: int| 0 <= j < i ==> base_fits(#[trigger] screens@[j]),
        decreases screens.len() - i,
    {
        let b = screens[i].base;
        let right: i32 = b.x as i32 + #[verifier::truncate] (b.width as i16) as i32;
        let bottom: i32 = b.y as i32 + #[verifier::truncate] (b.height as i16) as i32;
        if right < -32768 || right > 32767 || bottom < -32768 || bottom > 32767 {
            return false;
        }
        i = i + 1;
    }
    true
}

/// The point lies in the screen area (right and bottom edge excluded).
pub open spec fn in_base(s: Screen, x: int, y: int) -> bool {
    &&& x >= s.base.x
    &&& x < s.base.x + (s.base.width as i16)
    &&& y >= s.base.y
    &&& y < s.base.y + (s.base.height as i16)
}

/// The index of the first screen from `i` on that contains the point.
pub open spec fn screen_at_from(screens: Seq<Screen>, x: int, y: int, i: int) -> Option<usize>
    decreases screens.len() - i,
{
    if i < 0 || i >= screens.len() {
        None
    } else if in_base(screens[i], x, y) {
        Some(i as usize)
    } else {
        screen_at_from(screens, x, y, i + 1)
    }
}

/// The index of the first screen that contains the point.
pub open spec fn screen_at(screens: Seq<Screen>, x: int, y: int) -> Option<usize> {
    screen_at_from(screens, x, y, 0)
}

/// The index of the first screen that contains the point (`x`, `y`).
pub fn find_screen_by_xy(screens: &Vec<Screen>, x: i16, y: i16) -> (r: Option<usize>)
    requires
        screens_fit(screens@),
    ensures
        r == screen_at(screens@, x as int, y as int),
{
    let mut i: usize = 0;
    while i < screens.len()
        invariant
            i <= screens@.len(),
            screens_fit(screens@),
            screen_at(screens@, x as int, y as int) == screen_at_from(screens@, x as int, y as int, i as int),
        decreases screens.len() - i,
    {
        let b = screens[i].base;
        assert(base_fits(screens@[i as int]));
        if x >= b.x && x < b.x + b.width as i16 && y >= b.y && y < b.y + b.height as i16 {
            return Some(i);
        }
        i = i + 1;
    }
    None
}

/// The screen under the pointer: the only screen if there is one, else the
/// first screen containing the pointer position, if it could be queried.
pub open spec fn pointer_screen(screens: Seq<Screen>, pointer: Option<(i16, i16)>) -> Option<usize> {
    if screens.len() == 1 {
        Some(0usize)
    } else {
        match pointer {
            Some((x, y)) => screen_at(screens, x as int, y as int),
            None => None,
        }
    }
}

/// The screen under the pointer at `pointer` (the position on the root
/// window, if the server answered).
pub fn find_screen_by_pointer(screens: &Vec<Screen>, pointer: Option<(i16, i16)>) -> (r: Option<usize>)
    requires
        screens.len() != 1 && pointer is Some ==> screens_fit(screens@),
    ensures
        r == pointer_screen(screens@, pointer),
{
    if screens.len() == 1 {
        Some(0)
    } else {
        match pointer {
            Some((x, y)) => find_screen_by_xy(screens, x, y),
            None => None,
        }
    }
}

/// The index of the first screen with the given panel window.
pub fn find_screen_by_panel_win(screens: &Vec<Screen>, win: u32) -> (r: Option<usize>)
    ensures
        match r {
            Some(i) => i < screens@.len() && (screens@[i as int].top_panel_win == win
                || screens@[i as int].bottom_panel_win == win) && forall|j: int|
                0 <= j < i ==> (#[trigger] screens@[j]).top_panel_win != win
                    && screens@[j].bottom_panel_win != win,
            None => forall|j: int|
                0 <= j < screens@.len() ==> (#[trigger] screens@[j]).top_panel_win != win
                    && screens@[j].bottom_panel_win != win,
        },
{
    let mut i: usize = 0;
    while i < screens.len()
        invariant
            i <= screens@.len(),
            forall|j: int|
                0 <= j < i ==> (#[trigger] screens@[j]).top_panel_win != win
                    && screens@[j].bottom_panel_win != win,
        decreases screens.len() - i,
    {
        if screens[i].top_panel_win == win || screens[i].bottom_panel_win == win {
            return Some(i);
        }
        i = i + 1;
    }
    None
}

} // verus!

verus! {

/// The client area of a screen: its base area less the clients' padding
/// (the struts of docks), and less the panel height below a top panel and
/// above a bottom panel.
pub open spec fn client_area(base: Rect, flags: u32, padding: Spacing, panel_height: u16) -> Rect {
    let x = base.x + padding.left;
    let y = base.y + padding.top;
    let w = (((base.width as i16) - padding.left - padding.right) as i16) as u16;
    let h = (((base.height as i16) - padding.top - padding.bottom) as i16) as u16;
    let top = has_any(flags, TOP_PANEL);
    let bottom = has_any(flags, BOTTOM_PANEL);
    let y2 = if top {
        y + (panel_height as i16)
    } else {
        y as int
    };
    let h2 = h - (if top {
        panel_height as int
    } else {
        0
    }) - (if bottom {
        panel_height as int
    } else {
        0
    });
    Rect { x: x as i16, y: y2 as i16, width: w, height: h2 as u16 }
}

/// Computing the client area fits the numbers.
pub open spec fn client_area_fits(base: Rect, flags: u32, padding: Spacing, panel_height: u16) -> bool {
    let w = (base.width as i16) - padding.left;
    let h = (base.height as i16) - padding.top;
    let hh = ((h - padding.bottom) as i16) as u16;
    &&& fits_i16(base.x + padding.left)
    &&& fits_i16(base.y + padding.top)
    &&& fits_i16(w)
    &&& fits_i16(w - padding.right)
    &&& fits_i16(h)
    &&& fits_i16(h - padding.bottom)
    &&& has_any(flags, TOP_PANEL) ==> fits_i16(base.y + padding.top + (panel_height as i16))
    &&& hh - (if has_any(flags, TOP_PANEL) {
        panel_height as int
    } else {
        0
    }) - (if has_any(flags, BOTTOM_PANEL) {
        panel_height as int
    } else {
        0
    }) >= 0
}

/// A value fits into 16 signed bits.
pub open spec fn fits_i16(v: int) -> bool {
    i16::MIN <= v <= i16::MAX
}

impl Screen {
    /// Set the client area of the screen (see `client_area`).
    pub fn resize(&mut self, padding: Spacing, panel_height: u16)
        requires
            client_area_fits(old(self).base, old(self).flags, padding, panel_height),
        ensures
            final(self).geom == client_area(old(self).base, old(self).flags, padding, panel_height),
            final(self).base == old(self).base,
            final(self).flags == old(self).flags,
            final(self).view_idx == old(self).view_idx,
            final(self).top_panel_win == old(self).top_panel_win,
            final(self).bottom_panel_win == old(self).bottom_panel_win,
            final(self).panels == old(self).panels,
    {
        let base = self.base;
        let mut g = Rect {
            x: base.x + padding.left,
            y: base.y + padding.top,
            width: #[verifier::truncate] (((#[verifier::truncate] (base.width as i16)) - padding.left - padding.right) as u16),
            height: #[verifier::truncate] (((#[verifier::truncate] (base.height as i16)) - padding.top - padding.bottom) as u16),
        };
        if intersects(self.flags, TOP_PANEL) {
            g.y = g.y + #[verifier::truncate] (panel_height as i16);
            g.height = g.height - panel_height;
        }
        if intersects(self.flags, BOTTOM_PANEL) {
            g.height = g.height - panel_height;
        }
        self.geom = g;
    }

    /// Where the panel windows go: the top one at the top of the base area,
    /// the bottom one at its bottom, each as wide as the base area and as
    /// tall as the panels; `None` for a panel the screen does not show.
    pub fn panel_windows(&self, panel_height: u16) -> (r: (Option<(i32, i32, u32, u32)>, Option<(i32, i32, u32, u32)>))
        ensures
            r.0 == (if has_any(self.flags, TOP_PANEL) {
                Some((self.base.x as i32, self.base.y as i32, self.base.width as u32, panel_height as u32))
            } else {
                None
            }),
            r.1 == (if has_any(self.flags, BOTTOM_PANEL) {
                Some(
                    (
                        self.base.x as i32,
                        (self.base.y + self.base.height - panel_height) as i32,
                        self.base.width as u32,
                        panel_height as u32,
                    ),
                )
            } else {
                None
            }),
    {
        let top = if intersects(self.flags, TOP_PANEL) {
            Some((self.base.x as i32, self.base.y as i32, self.base.width as u32, panel_height as u32))
        } else {
            None
        };
        let bottom = if intersects(self.flags, BOTTOM_PANEL) {
            Some(
                (
                    self.base.x as i32,
                    self.base.y as i32 + self.base.height as i32 - panel_height as i32,
                    self.base.width as u32,
                    panel_height as u32,
                ),
            )
        } else {
            None
        };
        (top, bottom)
    }

    /// Create the panel items of a list of names (see `Panel::new`) for
    /// screen `screen_id`, skipping names that make no item; the first item
    /// of the bottom panel carries the bottom marker. A non-empty list shows
    /// the panel.
    pub fn add_panels(&mut self, names: &Vec<String>, bottom: bool, screen_id: usize)
        ensures
            final(self).flags == (if names.len() == 0 {
                old(self).flags
            } else if bottom {
                old(self).flags | BOTTOM_PANEL
            } else {
                old(self).flags | TOP_PANEL
            }),
            ({
                let n = old(self).panels@.len() as int;
                let kept = item_names(names@, names.len() as int);
                &&& final(self).panels@.len() == n + kept.len()
                &&& final(self).panels@.subrange(0, n) == old(self).panels@
                &&& forall|k: int|
                    0 <= k < kept.len() ==> new_item(
                        #[trigger] final(self).panels@[n + k],
                        kept[k],
                        screen_id,
                        bottom && k == 0,
                    )
            }),
            final(self).geom == old(self).geom,
            final(self).base == old(self).base,
            final(self).view_idx == old(self).view_idx,
            final(self).top_panel_win == old(self).top_panel_win,
            final(self).bottom_panel_win == old(self).bottom_panel_win,
    {
        let ghost start = self.panels@;
        let ghost n = start.len() as int;
        let mut first = true;
        let mut i: usize = 0;
        while i < names.len()
            invariant
                i <= names.len(),
                n == start.len(),
                self.panels@.len() == n + item_names(names@, i as int).len(),
                self.panels@.subrange(0, n) == start,
                forall|k: int|
                    0 <= k < item_names(names@, i as int).len() ==> new_item(
                        #[trigger] self.panels@[n + k],
                        item_names(names@, i as int)[k],
                        screen_id,
                        bottom && k == 0,
                    ),
                bottom ==> (first <==> self.panels@.len() == n),
                self.flags == old(self).flags,
                self.geom == old(self).geom,
                self.base == old(self).base,
                self.view_idx == old(self).view_idx,
                self.top_panel_win == old(self).top_panel_win,
                self.bottom_panel_win == old(self).bottom_panel_win,
            decreases names.len() - i,
        {
            let ghost kept = item_names(names@, i as int);
            match Panel::new(names[i].as_str()) {
                Ok(mut p) => {
                    let ghost before = self.panels@;
                    p.screen_id = screen_id;
                    if bottom && first {
                        let f = p.flags;
                        assert((f | PANEL_BOTTOM_START_MARKER) & PANEL_SEPARATOR == f & PANEL_SEPARATOR && (f
                            | PANEL_BOTTOM_START_MARKER) & PANEL_PLUGIN == f & PANEL_PLUGIN && (f
                            | PANEL_BOTTOM_START_MARKER) & PANEL_TITLE == f & PANEL_TITLE) by (bit_vector);
                        p.flags = f | PANEL_BOTTOM_START_MARKER;
                        first = false;
                    }
                    proof {
                        assert(item_names(names@, i + 1) == kept.push(names@[i as int]@));
                    }
                    self.panels.push(p);
                    proof {
                        assert(self.panels@.subrange(0, n) =~= before.subrange(0, n));
                        assert(self.panels@[n + kept.len()] == p);
                    }
                },
                Err(_) => {
                    proof {
                        assert(item_names(names@, i + 1) == kept);
                    }
                },
            }
            i = i + 1;
        }
        if names.len() > 0 {
            if bottom {
                self.flags = self.flags | BOTTOM_PANEL;
            } else {
                self.flags = self.flags | TOP_PANEL;
            }
        }
    }
}

/// The names among the first `n` that make panel items, in order.
pub open spec fn item_names(names: Seq<String>, n: int) -> Seq<Seq<char>>
    decreases n,
{
    if n <= 0 || n > names.len() {
        Seq::empty()
    } else {
        let r = item_names(names, n - 1);
        if makes_item(names[n - 1]@) {
            r.push(names[n - 1]@)
        } else {
            r
        }
    }
}

/// The widest base area among the screens, or zero.
pub open spec fn widest_from(screens: Seq<Screen>, n: int) -> u16
    decreases n,
{
    if n <= 0 || n > screens.len() {
        0
    } else {
        let w = widest_from(screens, n - 1);
        if screens[n - 1].base.width > w {
            screens[n - 1].base.width
        } else {
            w
        }
    }
}

/// The width of the panels' drawing buffer: the widest screen's.
pub fn widest_screen(screens: &Vec<Screen>) -> (r: u16)
    ensures
        r == widest_from(screens@, screens@.len() as int),
{
    let mut w: u16 = 0;
    let mut i: usize = 0;
    while i < screens.len()
        invariant
            i <= screens.len(),
            w == widest_from(screens@, i as int),
        decreases screens.len() - i,
    {
        if screens[i].base.width > w {
            w = screens[i].base.width;
        }
        i = i + 1;
    }
    w
}

} // verus!
