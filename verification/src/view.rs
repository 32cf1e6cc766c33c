//! Views: named sets of tags that screens show.

use vstd::prelude::*;
use crate::bits::{bit, bit_at, has_any, intersects};
use crate::client::Client;
use crate::screen::Screen;
use crate::subtle::{client_of_win, find_client, find_next, next_focus};
use crate::text::str_eq;
use crate::icon::Icon;
use crate::pattern::{Pattern, pattern_matches};
use crate::tag::Tag;

verus! {

/// View icon.
pub const VIEW_MODE_ICON: u32 = 1u32 << 0u32;
/// Icon only.
pub const VIEW_MODE_ICON_ONLY: u32 = 1u32 << 1u32;
/// Dynamic views.
pub const VIEW_MODE_DYNAMIC: u32 = 1u32 << 2u32;
/// Stick view.
pub const VIEW_MODE_STICK: u32 = 1u32 << 3u32;

/// A view: the tags it shows, its name, the pattern that selects its tag and
/// the window that had the focus last.
#[derive(Debug)]
pub struct TagView {
    pub flags: u32,
    pub tags: u32,
    pub name: String,
    pub pattern: Option<Pattern>,
    pub icon: Option<Icon>,
    pub focus_win: u32,
}

/// The last index below `n` of a tag whose name `pattern` matches.
pub open spec fn last_matching_tag(pattern: Seq<char>, tags: Seq<Tag>, n: int) -> Option<int>
    decreases n,
{
    if n <= 0 {
        None
    } else if pattern_matches(pattern, tags[n - 1].name@) {
        Some(n - 1)
    } else {
        last_matching_tag(pattern, tags, n - 1)
    }
}

/// The tags a view has after retagging: the bit of the last tag its pattern
/// matches, or the old tags when none matches or the view has no pattern.
pub open spec fn retagged(old_tags: u32, pattern: Option<Seq<char>>, tags: Seq<Tag>) -> u32 {
    match pattern {
        Some(p) => match last_matching_tag(p, tags, tags.len() as int) {
            Some(i) => bit(i),
            None => old_tags,
        },
        None => old_tags,
    }
}

/// No tag with an index beyond the bits of a tag set matches the pattern.
pub open spec fn matches_fit(pattern: Option<Seq<char>>, tags: Seq<Tag>) -> bool {
    pattern matches Some(p) ==> forall|i: int|
        32 <= i < tags.len() ==> !pattern_matches(p, #[trigger] tags[i].name@)
}

proof fn lemma_last_match_below(p: Seq<char>, tags: Seq<Tag>, n: int)
    ensures
        last_matching_tag(p, tags, n) matches Some(i) ==> 0 <= i < n && pattern_matches(
            p,
            tags[i].name@,
        ),
    decreases n,
{
    if n > 0 {
        lemma_last_match_below(p, tags, n - 1);
    }
}

impl TagView {
    /// Two views are the same when they have the same name.
    pub fn eq(&self, other: &TagView) -> (r: bool)
        ensures
            r == (self.name@ == other.name@),
    {
        self.name == other.name
    }
}

impl TagView {
    /// The source of the pattern of this view.
    pub open spec fn pattern_view(&self) -> Option<Seq<char>> {
        match self.pattern {
            Some(p) => Some(p@),
            None => None,
        }
    }

    /// A view with the given name and nothing else set.
    pub fn new(name: String) -> (v: TagView)
        ensures
            v.name == name,
            v.flags == 0,
            v.tags == 0,
            v.pattern is None,
            v.icon is None,
            v.focus_win == 0,
    {
        TagView { flags: 0, tags: 0, name, pattern: None, icon: None, focus_win: 0 }
    }

    /// Give the view the tag of the last tag whose name its pattern matches.
    pub fn retag(&mut self, tags: &Vec<Tag>)
        requires
            matches_fit(old(self).pattern_view(), tags@),
        ensures
            final(self).tags == retagged(old(self).tags, old(self).pattern_view(), tags@),
            final(self).name == old(self).name,
            final(self).flags == old(self).flags,
            final(self).pattern == old(self).pattern,
            final(self).focus_win == old(self).focus_win,
            final(self).icon == old(self).icon,
    {
        let ghost old_tags = self.tags;
        if let Some(p) = &self.pattern {
            let mut i: usize = 0;
            let mut result = self.tags;
            while i < tags.len()
                invariant
                    i <= tags.len(),
                    matches_fit(Some(p@), tags@),
                    result == (match last_matching_tag(p@, tags@, i as int) {
                        Some(j) => bit(j),
                        None => old_tags,
                    }),
                decreases tags.len() - i,
            {
                if p.is_match(tags[i].name.as_str()) {
                    result = bit_at(i);
                }
                i = i + 1;
            }
            self.tags = result;
        }
    }
}


/// Index of the first view named `name`, searching from index `i` on.
pub open spec fn view_named(views: Seq<TagView>, name: Seq<char>, i: int) -> Option<int>
    decreases views.len() - i,
{
    if i < 0 || i >= views.len() {
        None
    } else if views[i].name@ == name {
        Some(i)
    } else {
        view_named(views, name, i + 1)
    }
}

/// Index of the first screen from index `i` on that shows view `v`.
pub open spec fn screen_showing(screens: Seq<Screen>, v: int, i: int) -> Option<int>
    decreases screens.len() - i,
{
    if i < 0 || i >= screens.len() {
        None
    } else if screens[i].view_idx == v {
        Some(i)
    } else {
        screen_showing(screens, v, i + 1)
    }
}

/// The view index each screen shows after focusing view `v` on screen
/// `s`: a view that no screen shows goes to that screen; a shown one, with
/// more than one screen and `swap_views`, trades places with the view of
/// that screen; else nothing changes.
pub open spec fn focused_view_of(
    screens: Seq<Screen>,
    v: int,
    visible_views: u32,
    s: int,
    swap_views: bool,
    k: int,
) -> isize {
    if !has_any(visible_views, bit(v + 1)) {
        if k == s {
            v as isize
        } else {
            screens[k].view_idx
        }
    } else if screens.len() > 1 && swap_views && screen_showing(screens, v, 0) is Some {
        let o = screen_showing(screens, v, 0).unwrap();
        if k == s {
            v as isize
        } else if k == o {
            screens[s].view_idx
        } else {
            screens[k].view_idx
        }
    } else {
        screens[k].view_idx
    }
}

/// Index of the view named `name`.
pub fn find_view(views: &Vec<TagView>, name: &str) -> (r: Option<usize>)
    ensures
        match r {
            Some(k) => k < views.len() && view_named(views@, name@, 0) == Some(k as int),
            None => view_named(views@, name@, 0) is None,
        },
{
    let mut i: usize = 0;
    while i < views.len()
        invariant
            i <= views.len(),
            view_named(views@, name@, 0) == view_named(views@, name@, i as int),
        decreases views.len() - i,
    {
        if str_eq(views[i].name.as_str(), name) {
            return Some(i);
        }
        i = i + 1;
    }
    None
}

/// What happens to the focus after a view is focused.
#[derive(Clone, Copy, Debug, PartialEq, Eq, Structural)]
pub enum FocusNext {
    /// Nothing changes.
    Keep,
    /// The window the view remembers is not shown: forget it.
    Forget,
    /// Give the focus to the client with this index.
    Focus(usize),
}

impl TagView {
    /// Focus this view on screen `screen_idx` (see `focused_view_of`): the
    /// view is found among `views` by its name, and `visible_views` holds a
    /// bit after the lowest for each view some screen shows.
    pub fn focus(
        &self,
        views: &Vec<TagView>,
        screens: &mut Vec<Screen>,
        visible_views: u32,
        screen_idx: usize,
        swap_views: bool,
    )
        requires
            screen_idx < old(screens)@.len() ==> (view_named(views@, self.name@, 0) matches Some(v) ==> v < 31),
        ensures
            final(screens)@.len() == old(screens)@.len(),
            forall|k: int|
                0 <= k < old(screens)@.len() ==> {
                    let a = #[trigger] final(screens)@[k];
                    let b = old(screens)@[k];
                    &&& a.view_idx == (if screen_idx < old(screens)@.len() && view_named(
                        views@,
                        self.name@,
                        0,
                    ) is Some {
                        focused_view_of(
                            old(screens)@,
                            view_named(views@, self.name@, 0).unwrap(),
                            visible_views,
                            screen_idx as int,
                            swap_views,
                            k,
                        )
                    } else {
                        b.view_idx
                    })
                    &&& a.flags == b.flags
                    &&& a.geom == b.geom
                    &&& a.base == b.base
                    &&& a.top_panel_win == b.top_panel_win
                    &&& a.bottom_panel_win == b.bottom_panel_win
                    &&& a.panels == b.panels
                },
    {
        if screen_idx >= screens.len() {
            return;
        }
        let v = match find_view(views, self.name.as_str()) {
            Some(v) => v,
            None => {
                return;
            },
        };
        if intersects(visible_views, bit_at(v + 1)) {
            if screens.len() > 1 {
                let mut i: usize = 0;
                while i < screens.len()
                    invariant
                        i <= screens.len(),
                        screen_idx < screens.len(),
                        screens.len() > 1,
                        v < 31,
                        has_any(visible_views, bit(v + 1)),
                        view_named(views@, self.name@, 0) == Some(v as int),
                        screens@ == old(screens)@,
                        screen_showing(screens@, v as int, 0) == screen_showing(screens@, v as int, i as int),
                    decreases screens.len() - i,
                {
                    if screens[i].view_idx == v as isize {
                        if swap_views {
                            let current = screens[screen_idx].view_idx;
                            screens[i].view_idx = current;
                            screens[screen_idx].view_idx = v as isize;
                        }
                        return;
                    }
                    i = i + 1;
                }
            }
        } else {
            screens[screen_idx].view_idx = v as isize;
        }
    }

    /// What happens to the focus after focusing this view on screen
    /// `screen_idx`: the client of the window it remembers gets the focus if
    /// it is shown, else the view forgets the window; without such a client
    /// the next client of the screen gets it (see `find_next`; the index is
    /// taken as signed, so that no screen is given as the largest index).
    pub fn focus_next(&self, clients: &Vec<Client>, history: &Vec<u32>, visible_tags: u32, screen_idx: usize) -> (r:
        FocusNext)
        ensures
            r == (match client_of_win(clients@, self.focus_win, 0) {
                Some(k) => if !has_any(visible_tags, clients@[k].tags) {
                    FocusNext::Forget
                } else {
                    FocusNext::Focus(k as usize)
                },
                None => match next_focus(
                    clients@,
                    history@,
                    #[verifier::truncate] (screen_idx as isize),
                    false,
                    visible_tags,
                ) {
                    Some(k) => FocusNext::Focus(k as usize),
                    None => FocusNext::Keep,
                },
            }),
    {
        match find_client(clients, self.focus_win) {
            Some(k) => if !intersects(visible_tags, clients[k].tags) {
                FocusNext::Forget
            } else {
                FocusNext::Focus(k)
            },
            None => match find_next(clients, history, #[verifier::truncate] (screen_idx as isize), false, visible_tags) {
                Some(k) => FocusNext::Focus(k),
                None => FocusNext::Keep,
            },
        }
    }
}

} // verus!
