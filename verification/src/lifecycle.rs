//! A client from being managed to being killed: its first state, leader,
//! mode string, tags, focus and what killing it leaves to do.

use vstd::prelude::*;
use crate::bits::{bit, bit_at, has_all, has_any, intersects, contains};
use crate::client::{
    Client, RestackOrder, CLOSE, DEAD, FOCUS, INPUT, MIN_HEIGHT, MIN_WIDTH, MODE_FIXED, MODE_FLOAT,
    MODE_FULL, MODE_RESIZE, MODE_STICK, MODE_URGENT, MODE_ZAPHOD, TYPE_DESKTOP, TYPE_DOCK, visible_with,
};
use crate::gravity::{Gravity, GRAVITY_HORZ, GRAVITY_VERT};
use crate::rect::Rect;
use crate::spacing::Spacing;
use crate::subtle::{SUBTLE_GRAVITY_TILING, SUBTLE_SKIP_POINTER_WARP, client_of_win, find_client};
use crate::tag::{Tag, tag_matches, pattern_source};
use crate::view::TagView;

verus! {

/// A one-character text when `on`, else the empty text.
pub open spec fn mark(on: bool, c: char) -> Seq<char> {
    if on {
        seq![c]
    } else {
        Seq::empty()
    }
}

/// The modes of a client as a short text: `+` fullscreen, `^` floating,
/// `*` sticky, `-` resizable, `=` zaphod and `!` fixed, in this order.
pub open spec fn mode_text(flags: u32) -> Seq<char> {
    mark(has_any(flags, MODE_FULL), '+') + mark(has_any(flags, MODE_FLOAT), '^') + mark(
        has_any(flags, MODE_STICK),
        '*',
    ) + mark(has_any(flags, MODE_RESIZE), '-') + mark(has_any(flags, MODE_ZAPHOD), '=') + mark(
        has_any(flags, MODE_FIXED),
        '!',
    )
}

impl Client {
    /// The modes of the client as a short text (see `mode_text`).
    pub fn mode_string(&self) -> (r: String)
        ensures
            r@ == mode_text(self.flags),
    {
        let mut s = String::new();
        proof {
            reveal_strlit("+");
            reveal_strlit("^");
            reveal_strlit("*");
            reveal_strlit("-");
            reveal_strlit("=");
            reveal_strlit("!");
        }
        if intersects(self.flags, MODE_FULL) {
            s.append("+");
        }
        if intersects(self.flags, MODE_FLOAT) {
            s.append("^");
        }
        if intersects(self.flags, MODE_STICK) {
            s.append("*");
        }
        if intersects(self.flags, MODE_RESIZE) {
            s.append("-");
        }
        if intersects(self.flags, MODE_ZAPHOD) {
            s.append("=");
        }
        if intersects(self.flags, MODE_FIXED) {
            s.append("!");
        }
        assert(s@ =~= mode_text(self.flags));
        s
    }

    /// A newly managed client of window `win` at the given geometry (at
    /// least the minimum size): it takes input, is on the first screen, has
    /// no gravity yet and starts with `gravity` (as an index) for each of
    /// the `nviews` views.
    pub fn new(win: u32, x: i16, y: i16, width: u16, height: u16, gravity: isize, nviews: usize) -> (c: Client)
        ensures
            c.flags == INPUT,
            c.win == win,
            c.screen_idx == 0,
            c.gravity_idx == -1,
            c.geom == (Rect {
                x,
                y,
                width: if width >= MIN_WIDTH {
                    width
                } else {
                    MIN_WIDTH
                },
                height: if height >= MIN_HEIGHT {
                    height
                } else {
                    MIN_HEIGHT
                },
            }),
            c.gravities@ == Seq::new(nviews as nat, |i: int| gravity as usize),
            c.tags == 0,
            c.leader == 0,
            c.order == RestackOrder::Unset,
            c.name@.len() == 0,
            c.instance@.len() == 0,
            c.klass@.len() == 0,
            c.role@.len() == 0,
    {
        let g = #[verifier::truncate] (gravity as usize);
        let mut gravities: Vec<usize> = Vec::new();
        let mut i: usize = 0;
        while i < nviews
            invariant
                i <= nviews,
                g == gravity as usize,
                gravities@ == Seq::new(i as nat, |k: int| gravity as usize),
            decreases nviews - i,
        {
            gravities.push(g);
            i = i + 1;
            assert(gravities@ =~= Seq::new(i as nat, |k: int| gravity as usize));
        }
        Client {
            flags: INPUT,
            tags: 0,
            win,
            leader: 0,
            name: String::new(),
            instance: String::new(),
            klass: String::new(),
            role: String::new(),
            aspect: None,
            min_width: 0,
            min_height: 0,
            max_width: 0,
            max_height: 0,
            width_inc: 0,
            height_inc: 0,
            base_width: 0,
            base_height: 0,
            screen_idx: 0,
            gravity_idx: -1,
            geom: Rect {
                x,
                y,
                width: if width >= MIN_WIDTH {
                    width
                } else {
                    MIN_WIDTH
                },
                height: if height >= MIN_HEIGHT {
                    height
                } else {
                    MIN_HEIGHT
                },
            },
            order: RestackOrder::Unset,
            gravities,
        }
    }

    /// Take the leader window from the first value of the window's leader
    /// property, unless there is none or it names no window.
    pub fn set_leader(&mut self, leader: &Vec<u8>)
        ensures
            *final(self) == (if leader.len() > 0 && leader@[0] != 0 {
                Client { leader: leader@[0] as u32, ..*old(self) }
            } else {
                *old(self)
            }),
    {
        if leader.len() > 0 && leader[0] as u32 != 0 {
            self.leader = leader[0] as u32;
        }
    }
}

/// The gravity new clients start with: the configured default, or with
/// the default unset (`-1`) the gravity of the focused client.
pub open spec fn default_gravity_of(default_gravity: isize, clients: Seq<Client>, history: Seq<u32>) -> isize {
    if default_gravity == -1 && history.len() > 0 && client_of_win(clients, history[0], 0) is Some {
        clients[client_of_win(clients, history[0], 0).unwrap()].gravity_idx
    } else {
        default_gravity
    }
}

/// The gravity new clients start with (see `default_gravity_of`).
pub fn get_default_gravity(default_gravity: isize, clients: &Vec<Client>, history: &Vec<u32>) -> (r: isize)
    ensures
        r == default_gravity_of(default_gravity, clients@, history@),
{
    if default_gravity == -1 && history.len() > 0 {
        if let Some(k) = find_client(clients, history[0]) {
            return clients[k].gravity_idx;
        }
    }
    default_gravity
}

/// The tags after giving a client tag `idx` of `ntags`: dead clients and
/// unknown tags change nothing.
pub open spec fn tagged(flags: u32, tags: u32, idx: int, ntags: int) -> u32 {
    if has_all(flags, DEAD) || idx >= ntags {
        tags
    } else {
        tags | bit(idx)
    }
}

/// The tags after matching the first `n` tags against the client.
pub open spec fn matched_tags(c: Client, tags: Seq<Tag>, n: int) -> u32
    decreases n,
{
    if n <= 0 || n > tags.len() {
        c.tags
    } else {
        let before = matched_tags(c, tags, n - 1);
        if tag_matches(pattern_source(tags[n - 1].pattern), c.name@, c.instance@, c.klass@) {
            tagged(c.flags, before, n - 1, tags.len() as int)
        } else {
            before
        }
    }
}

/// The number of views among the first `n` that show all of `tags`.
pub open spec fn views_showing(views: Seq<TagView>, tags: u32, n: int) -> int
    decreases n,
{
    if n <= 0 || n > views.len() {
        0
    } else {
        views_showing(views, tags, n - 1) + (if has_all(views[n - 1].tags, tags) {
            1int
        } else {
            0
        })
    }
}

/// The tags of a client after retagging: each tag whose pattern matches
/// its names is added, and a client that sticks (while `mode_flags` do not
/// make it stick) and that no view shows gets the first tag.
pub open spec fn retagged_client(c: Client, tags: Seq<Tag>, views: Seq<TagView>, mode_flags: u32) -> u32 {
    let t = matched_tags(c, tags, tags.len() as int);
    if has_all(c.flags, MODE_STICK) && !has_all(mode_flags, MODE_STICK) && views_showing(
        views,
        t,
        views.len() as int,
    ) == 0 {
        tagged(c.flags, t, 0, tags.len() as int)
    } else {
        t
    }
}

impl Client {
    /// Give the client tag `tag_idx` of `ntags`; dead clients and unknown
    /// tags change nothing.
    pub fn tag(&mut self, tag_idx: usize, ntags: usize)
        requires
            tag_idx < ntags && !has_all(old(self).flags, DEAD) ==> tag_idx < 32,
        ensures
            *final(self) == (Client {
                tags: tagged(old(self).flags, old(self).tags, tag_idx as int, ntags as int),
                ..*old(self)
            }),
    {
        if contains(self.flags, DEAD) {
            return;
        }
        if tag_idx < ntags {
            self.tags = self.tags | bit_at(tag_idx);
        }
    }

    /// Give the client each tag whose pattern matches its names (see
    /// `matched_tags`).
    fn match_tags(&mut self, tags: &Vec<Tag>)
        requires
            tags_fit(*old(self), tags@),
        ensures
            *final(self) == (Client { tags: matched_tags(*old(self), tags@, tags.len() as int), ..*old(self) }),
    {
        let ghost c = *self;
        let mut i: usize = 0;
        while i < tags.len()
            invariant
                i <= tags.len(),
                tags_fit(c, tags@),
                *self == (Client { tags: matched_tags(c, tags@, i as int), ..c }),
            decreases tags.len() - i,
        {
            if tags[i].matches(self) {
                assert(tag_hit(c, tags@[i as int]));
                self.tag(i, tags.len());
            }
            i = i + 1;
        }
    }

    /// Retag the client (see `retagged_client`).
    pub fn retag(&mut self, tags: &Vec<Tag>, views: &Vec<TagView>, mode_flags: u32)
        requires
            retag_fits(*old(self), tags@, views@, mode_flags),
        ensures
            *final(self) == (Client { tags: retagged_client(*old(self), tags@, views@, mode_flags), ..*old(self) }),
    {
        self.match_tags(tags);
        if contains(self.flags, MODE_STICK) && !contains(mode_flags, MODE_STICK) {
            let visible = count_showing(views, self.tags);
            if visible == 0 {
                self.tag(0, tags.len());
            }
        }
    }

    /// Retag the client (see `Client::retag`) where that is defined: when no
    /// tag beyond the bits of a tag set matches a live client, and at most
    /// 255 views show a sticking client's tags. Returns whether it
    /// retagged; else the client is left as it is.
    pub fn retag_checked(&mut self, tags: &Vec<Tag>, views: &Vec<TagView>, mode_flags: u32) -> (r: bool)
        ensures
            r == retag_fits(*old(self), tags@, views@, mode_flags),
            r ==> *final(self) == (Client {
                tags: retagged_client(*old(self), tags@, views@, mode_flags),
                ..*old(self)
            }),
            !r ==> *final(self) == *old(self),
    {
        let ghost c = *self;
        if !contains(self.flags, DEAD) {
            let mut i: usize = 32;
            while i < tags.len()
                invariant
                    32 <= i,
                    *self == c,
                    !has_all(c.flags, DEAD),
                    forall|k: int| 32 <= k < i && k < tags.len() ==> !#[trigger] tag_hit(c, tags@[k]),
                decreases tags.len() - i,
            {
                if tags[i].matches(self) {
                    assert(tag_hit(c, tags@[i as int]));
                    return false;
                }
                i = i + 1;
            }
        }
        assert(tags_fit(c, tags@));
        if contains(self.flags, MODE_STICK) && !contains(mode_flags, MODE_STICK) {
            let saved = self.tags;
            self.match_tags(tags);
            let visible = count_showing(views, self.tags);
            self.tags = saved;
            if visible > 255 {
                return false;
            }
        }
        self.retag(tags, views, mode_flags);
        true
    }
}

/// The pattern of tag `t` matches a name of client `c`.
pub open spec fn tag_hit(c: Client, t: Tag) -> bool {
    tag_matches(pattern_source(t.pattern), c.name@, c.instance@, c.klass@)
}

/// No tag beyond the bits of a tag set matches a live client.
pub open spec fn tags_fit(c: Client, tags: Seq<Tag>) -> bool {
    !has_all(c.flags, DEAD) ==> forall|i: int| 32 <= i < tags.len() ==> !#[trigger] tag_hit(c, tags[i])
}

/// Retagging is defined: the matching tags fit a tag set, and at most 255
/// views show the tags of a client that sticks.
pub open spec fn retag_fits(c: Client, tags: Seq<Tag>, views: Seq<TagView>, mode_flags: u32) -> bool {
    &&& tags_fit(c, tags)
    &&& (has_all(c.flags, MODE_STICK) && !has_all(mode_flags, MODE_STICK)) ==> views_showing(
        views,
        matched_tags(c, tags, tags.len() as int),
        views.len() as int,
    ) <= 255
}

/// The number of views that show all of `tags` (see `views_showing`).
fn count_showing(views: &Vec<TagView>, tags: u32) -> (r: usize)
    ensures
        r == views_showing(views@, tags, views.len() as int),
{
    let mut visible: usize = 0;
    let mut j: usize = 0;
    while j < views.len()
        invariant
            j <= views.len(),
            visible == views_showing(views@, tags, j as int),
            visible <= j,
        decreases views.len() - j,
    {
        if contains(views[j].tags, tags) {
            visible = visible + 1;
        }
        j = j + 1;
    }
    visible
}

/// The padding of clients after a window's strut property: with four
/// values, each side grows to at least its value (left, right, top,
/// bottom), else nothing changes.
pub open spec fn strut_padding_of(padding: Spacing, values: Seq<u8>) -> Option<Spacing> {
    if values.len() == 4 {
        Some(
            Spacing {
                left: if padding.left >= values[0] as i16 {
                    padding.left
                } else {
                    values[0] as i16
                },
                right: if padding.right >= values[1] as i16 {
                    padding.right
                } else {
                    values[1] as i16
                },
                top: if padding.top >= values[2] as i16 {
                    padding.top
                } else {
                    values[2] as i16
                },
                bottom: if padding.bottom >= values[3] as i16 {
                    padding.bottom
                } else {
                    values[3] as i16
                },
            },
        )
    } else {
        None
    }
}

/// The padding of clients after a window's strut property (see
/// `strut_padding_of`); when it changes, screens are resized and
/// configured again.
pub fn set_strut(padding: Spacing, values: &Vec<u8>) -> (r: Option<Spacing>)
    ensures
        r == strut_padding_of(padding, values@),
{
    if values.len() == 4 {
        let l = values[0] as i16;
        let r = values[1] as i16;
        let t = values[2] as i16;
        let b = values[3] as i16;
        Some(
            Spacing {
                left: if padding.left >= l {
                    padding.left
                } else {
                    l
                },
                right: if padding.right >= r {
                    padding.right
                } else {
                    r
                },
                top: if padding.top >= t {
                    padding.top
                } else {
                    t
                },
                bottom: if padding.bottom >= b {
                    padding.bottom
                } else {
                    b
                },
            },
        )
    } else {
        None
    }
}

/// What is left to do after a client is killed.
#[derive(Clone, Copy, Debug, PartialEq, Eq, Structural)]
pub struct KillEffects {
    /// The urgent tags without those of an urgent client.
    pub urgent_tags: u32,
    /// The remaining clients of its gravity are tiled again.
    pub tile: bool,
}

impl Client {
    /// What killing this client leaves to do: an urgent client's tags leave
    /// the urgent tags, and a shown client whose gravity tiles (by the
    /// settings or being tiled both ways) has its gravity tiled again.
    pub fn kill_effects(&self, urgent_tags: u32, visible_tags: u32, gravities: &Vec<Gravity>, settings_flags: u32) -> (r:
        KillEffects)
        ensures
            r.urgent_tags == (if has_all(self.flags, MODE_URGENT) {
                urgent_tags & !self.tags
            } else {
                urgent_tags
            }),
            r.tile == (visible_with(visible_tags, self.flags, self.tags) && 0 <= self.gravity_idx
                < gravities.len() && (has_all(settings_flags, SUBTLE_GRAVITY_TILING) || has_all(
                gravities@[self.gravity_idx as int].flags,
                GRAVITY_HORZ | GRAVITY_VERT,
            ))),
    {
        let urgent = if contains(self.flags, MODE_URGENT) {
            urgent_tags & !self.tags
        } else {
            urgent_tags
        };
        let mut tile = false;
        if self.is_visible(visible_tags) && self.gravity_idx >= 0 && (self.gravity_idx as usize) < gravities.len() {
            let g = &gravities[self.gravity_idx as usize];
            tile = contains(settings_flags, SUBTLE_GRAVITY_TILING) || contains(g.flags, GRAVITY_HORZ | GRAVITY_VERT);
        }
        KillEffects { urgent_tags: urgent, tile }
    }

    /// Whether closing asks the client to delete its window (it takes part
    /// in that protocol) rather than killing it.
    pub fn closes_by_request(&self) -> (r: bool)
        ensures
            r == has_any(self.flags, CLOSE),
    {
        intersects(self.flags, CLOSE)
    }
}

/// What focusing a client does.
#[derive(Clone, Copy, Debug)]
pub struct FocusPlan {
    /// The client that loses the focus, and whether its border is reset (it
    /// is no desktop).
    pub unfocus: Option<(usize, bool)>,
    /// Send the client a take-focus message.
    pub take_focus_message: bool,
    /// Set the input focus to the client's window.
    pub input_focus: bool,
    /// Color its border as focused (it is no desktop or dock).
    pub border: bool,
    /// Warp the pointer to it.
    pub warp: bool,
}

impl Client {
    /// What focusing this client does, or nothing when it is not shown: the
    /// client of the window that has the focus (if another) loses it; a
    /// client without input that takes the focus is sent a message, one
    /// with input gets the input focus; its border is colored unless it is a
    /// desktop or dock; the pointer is warped to it when asked and not
    /// skipped by the settings.
    pub fn focus_plan(&self, visible_tags: u32, clients: &Vec<Client>, history: &Vec<u32>, settings_flags: u32, warp: bool) -> (r:
        Option<FocusPlan>)
        ensures
            !visible_with(visible_tags, self.flags, self.tags) ==> r is None,
            visible_with(visible_tags, self.flags, self.tags) ==> r == Some(
                FocusPlan {
                    unfocus: if history.len() > 0 && self.win != history@[0] {
                        match client_of_win(clients@, history@[0], 0) {
                            Some(k) => Some((k as usize, !has_all(clients@[k].flags, TYPE_DESKTOP))),
                            None => None,
                        }
                    } else {
                        None
                    },
                    take_focus_message: !has_all(self.flags, INPUT) && has_all(self.flags, FOCUS),
                    input_focus: has_all(self.flags, INPUT),
                    border: !has_any(self.flags, TYPE_DESKTOP | TYPE_DOCK),
                    warp: warp && !has_any(settings_flags, SUBTLE_SKIP_POINTER_WARP),
                },
            ),
    {
        if !self.is_visible(visible_tags) {
            return None;
        }
        let mut unfocus: Option<(usize, bool)> = None;
        if history.len() > 0 && self.win != history[0] {
            if let Some(k) = find_client(clients, history[0]) {
                unfocus = Some((k, !contains(clients[k].flags, TYPE_DESKTOP)));
            }
        }
        Some(
            FocusPlan {
                unfocus,
                take_focus_message: !contains(self.flags, INPUT) && contains(self.flags, FOCUS),
                input_focus: contains(self.flags, INPUT),
                border: !intersects(self.flags, TYPE_DESKTOP | TYPE_DOCK),
                warp: warp && !intersects(settings_flags, SUBTLE_SKIP_POINTER_WARP),
            },
        )
    }
}

} // verus!
