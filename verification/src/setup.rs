//! Gravities, tags and views from the configuration.

use vstd::prelude::*;
use crate::config::{ConfigTable, MixedConfigVal};
use crate::grab::{find_gravity, gravity_index_from};
use crate::gravity::{Gravity, clamp};
use crate::pattern::{Pattern, pattern_compiles, pattern_matches};
use crate::rect::Rect;
use crate::screen::Screen;
use crate::style::{Style, STYLE_FONT};
use crate::bits::{has_any, intersects};
use crate::tag::{Tag, TAG_GEOMETRY, TAG_GRAVITY, TAG_POSITION, pattern_source};
use crate::view::{TagView, matches_fit, retagged};

verus! {

/// Why the configuration could not be set up.
#[derive(Clone, Copy, Debug, PartialEq, Eq, Structural)]
pub enum SetupError {
    /// No gravity is defined.
    NoGravities,
    /// A `match` pattern does not compile.
    InvalidPattern,
}

/// The gravity a table describes: a name and integer `x`, `y`, `width` and
/// `height` (cut to 16 bits), all present.
pub open spec fn gravity_entry(t: ConfigTable) -> Option<(Seq<char>, u16, u16, u16, u16)> {
    match (t.value_of("name"@), t.value_of("x"@), t.value_of("y"@), t.value_of("width"@), t.value_of("height"@)) {
        (
            Some(MixedConfigVal::S(n)),
            Some(MixedConfigVal::I(x)),
            Some(MixedConfigVal::I(y)),
            Some(MixedConfigVal::I(w)),
            Some(MixedConfigVal::I(h)),
        ) => Some((n@, x as u16, y as u16, w as u16, h as u16)),
        _ => None,
    }
}

/// The gravities that the first `n` tables describe, in their order.
pub open spec fn gravity_entries(tables: Seq<ConfigTable>, n: int) -> Seq<(Seq<char>, u16, u16, u16, u16)>
    decreases n,
{
    if n <= 0 || n > tables.len() {
        seq![]
    } else {
        let rest = gravity_entries(tables, n - 1);
        match gravity_entry(tables[n - 1]) {
            Some(e) => rest.push(e),
            None => rest,
        }
    }
}

/// The gravity is the one `Gravity::new` makes of the entry.
pub open spec fn gravity_made(g: Gravity, e: (Seq<char>, u16, u16, u16, u16)) -> bool {
    &&& g.name@ == e.0
    &&& g.flags == 0
    &&& g.geom.x == clamp((e.1 as i16) as int, 0, 100)
    &&& g.geom.y == clamp((e.2 as i16) as int, 0, 100)
    &&& g.geom.width == clamp(e.3 as int, 1, 100)
    &&& g.geom.height == clamp(e.4 as int, 1, 100)
}

fn get_gravity_entry(t: &ConfigTable) -> (r: Option<(&String, u16, u16, u16, u16)>)
    ensures
        match r {
            Some((n, x, y, w, h)) => gravity_entry(*t) == Some((n@, x, y, w, h)),
            None => gravity_entry(*t) is None,
        },
{
    match (t.get("name"), t.get("x"), t.get("y"), t.get("width"), t.get("height")) {
        (
            Some(MixedConfigVal::S(n)),
            Some(MixedConfigVal::I(x)),
            Some(MixedConfigVal::I(y)),
            Some(MixedConfigVal::I(w)),
            Some(MixedConfigVal::I(h)),
        ) => Some(
            (
                n,
                #[verifier::truncate] (*x as u16),
                #[verifier::truncate] (*y as u16),
                #[verifier::truncate] (*w as u16),
                #[verifier::truncate] (*h as u16),
            ),
        ),
        _ => None,
    }
}

/// The gravities of the configuration: one for each table with a name, a
/// position and a size; there must be at least one. The default gravity is
/// the one named by `default_gravity` (or the first where no gravity has
/// that name); `None` where no default is named.
pub fn gravities_from_config(tables: &Vec<ConfigTable>, settings: &ConfigTable) -> (r: Result<
    (Vec<Gravity>, Option<isize>),
    SetupError,
>)
    ensures
        match r {
            Ok((gs, d)) => {
                let es = gravity_entries(tables@, tables@.len() as int);
                &&& es.len() > 0
                &&& gs@.len() == es.len()
                &&& forall|i: int| 0 <= i < es.len() ==> gravity_made(#[trigger] gs@[i], es[i])
                &&& d == (match settings.value_of("default_gravity"@) {
                    Some(MixedConfigVal::S(n)) => match gravity_index_from(gs@, n@, 0) {
                        Some(k) => Some(k as isize),
                        None => Some(0isize),
                    },
                    _ => None,
                })
            },
            Err(e) => e == SetupError::NoGravities && gravity_entries(tables@, tables@.len() as int).len()
                == 0,
        },
{
    let mut gs: Vec<Gravity> = Vec::new();
    let mut i: usize = 0;
    while i < tables.len()
        invariant
            i <= tables.len(),
            gs@.len() == gravity_entries(tables@, i as int).len(),
            forall|k: int|
                0 <= k < gs@.len() ==> gravity_made(#[trigger] gs@[k], gravity_entries(tables@, i as int)[k]),
        decreases tables.len() - i,
    {
        if let Some((n, x, y, w, h)) = get_gravity_entry(&tables[i]) {
            let g = Gravity::new(n.as_str(), x, y, w, h);
            gs.push(g);
        }
        i = i + 1;
    }
    if gs.len() == 0 {
        return Err(SetupError::NoGravities);
    }
    let d = match settings.get("default_gravity") {
        Some(MixedConfigVal::S(n)) => match find_gravity(&gs, n.as_str()) {
            Some(k) => Some(#[verifier::truncate] (k as isize)),
            None => Some(0isize),
        },
        _ => None,
    };
    Ok((gs, d))
}


/// The text under `key`, if it is one.
pub open spec fn text_at(t: ConfigTable, key: Seq<char>) -> Option<Seq<char>> {
    match t.value_of(key) {
        Some(MixedConfigVal::S(v)) => Some(v@),
        _ => None,
    }
}

/// The integers under `key`, if they are a list of integers.
pub open spec fn ints_at(t: ConfigTable, key: Seq<char>) -> Option<Seq<i32>> {
    match t.value_of(key) {
        Some(MixedConfigVal::VI(v)) => Some(v@),
        _ => None,
    }
}

/// What a tag table sets: flags, name, pattern, gravity and geometry. A
/// gravity that exists sets the gravity flag; a `geometry` of four values
/// sets the geometry; a `position` of two values sets the position unless
/// a geometry is set.
pub open spec fn tag_fields(t: ConfigTable, gravities: Seq<Gravity>) -> (u32, Seq<char>, Option<Seq<char>>, usize, Rect) {
    let name = match text_at(t, "name"@) {
        Some(n) => n,
        None => Seq::empty(),
    };
    let (gflag, gid) = match text_at(t, "gravity"@) {
        Some(g) => match gravity_index_from(gravities, g, 0) {
            Some(k) => (TAG_GRAVITY, k as usize),
            None => (0u32, 0usize),
        },
        None => (0u32, 0usize),
    };
    let (geo_flag, geom) = match ints_at(t, "geometry"@) {
        Some(v) => if v.len() == 4 {
            (TAG_GEOMETRY, Rect { x: v[0] as i16, y: v[1] as i16, width: v[2] as u16, height: v[3] as u16 })
        } else {
            (0u32, Rect::default_spec())
        },
        None => (0u32, Rect::default_spec()),
    };
    let (pos_flag, geom2) = match ints_at(t, "position"@) {
        Some(v) => if geo_flag == 0 && v.len() == 2 {
            (TAG_POSITION, Rect { x: v[0] as i16, y: v[1] as i16, width: 0, height: 0 })
        } else {
            (0u32, geom)
        },
        None => (0u32, geom),
    };
    (gflag | geo_flag | pos_flag, name, text_at(t, "match"@), gid, geom2)
}

/// The tag is the one a table describes.
pub open spec fn tag_made(tag: Tag, t: ConfigTable, gravities: Seq<Gravity>) -> bool {
    let f = tag_fields(t, gravities);
    &&& tag.flags == f.0
    &&& tag.name@ == f.1
    &&& pattern_source(tag.pattern) == f.2
    &&& tag.gravity_id == f.3
    &&& tag.geom == f.4
    &&& tag.screen_id == 0
}

/// A table's `match` pattern does not compile.
pub open spec fn bad_pattern(t: ConfigTable) -> bool {
    match text_at(t, "match"@) {
        Some(p) => !pattern_compiles(p),
        None => false,
    }
}

/// The pattern of a table's `match`, compiled.
fn get_pattern(t: &ConfigTable) -> (r: Result<Option<Pattern>, SetupError>)
    ensures
        match r {
            Ok(p) => !bad_pattern(*t) && pattern_source(p) == text_at(*t, "match"@),
            Err(e) => bad_pattern(*t) && e == SetupError::InvalidPattern,
        },
{
    match t.get("match") {
        Some(MixedConfigVal::S(v)) => match Pattern::compile(v.as_str()) {
            Some(p) => Ok(Some(p)),
            None => Err(SetupError::InvalidPattern),
        },
        _ => Ok(None),
    }
}

/// The tag a table describes (see `tag_fields`); fails when its pattern
/// does not compile.
pub fn tag_from(t: &ConfigTable, gravities: &Vec<Gravity>) -> (r: Result<Tag, SetupError>)
    ensures
        match r {
            Ok(tag) => !bad_pattern(*t) && tag_made(tag, *t, gravities@),
            Err(e) => bad_pattern(*t) && e == SetupError::InvalidPattern,
        },
{
    let name = match t.get("name") {
        Some(MixedConfigVal::S(v)) => v.clone(),
        _ => String::new(),
    };
    let pattern = get_pattern(t)?;
    let mut flags: u32 = 0;
    let mut gravity_id: usize = 0;
    if let Some(MixedConfigVal::S(g)) = t.get("gravity") {
        if let Some(k) = find_gravity(gravities, g.as_str()) {
            flags = TAG_GRAVITY;
            gravity_id = k;
        }
    }
    let mut geo_flag: u32 = 0;
    let mut geom = Rect { x: 0, y: 0, width: 0, height: 0 };
    if let Some(MixedConfigVal::VI(v)) = t.get("geometry") {
        if v.len() == 4 {
            geo_flag = TAG_GEOMETRY;
            geom = Rect {
                x: #[verifier::truncate] (v[0] as i16),
                y: #[verifier::truncate] (v[1] as i16),
                width: #[verifier::truncate] (v[2] as u16),
                height: #[verifier::truncate] (v[3] as u16),
            };
        }
    }
    let mut pos_flag: u32 = 0;
    if let Some(MixedConfigVal::VI(v)) = t.get("position") {
        if geo_flag == 0 && v.len() == 2 {
            pos_flag = TAG_POSITION;
            geom = Rect {
                x: #[verifier::truncate] (v[0] as i16),
                y: #[verifier::truncate] (v[1] as i16),
                width: 0,
                height: 0,
            };
        }
    }
    Ok(Tag { flags: flags | geo_flag | pos_flag, name, pattern, screen_id: 0, gravity_id, geom })
}

/// Index of the first table from `i` on whose pattern does not compile.
pub open spec fn first_bad_pattern(tables: Seq<ConfigTable>, i: int) -> Option<int>
    decreases tables.len() - i,
{
    if i < 0 || i >= tables.len() {
        None
    } else if bad_pattern(tables[i]) {
        Some(i)
    } else {
        first_bad_pattern(tables, i + 1)
    }
}

/// The tags of the configuration, one per table in their order, or a tag
/// named `default` where there is none; fails when a pattern does not
/// compile.
pub fn tags_from_config(tables: &Vec<ConfigTable>, gravities: &Vec<Gravity>) -> (r: Result<Vec<Tag>, SetupError>)
    ensures
        match r {
            Ok(tags) => {
                &&& first_bad_pattern(tables@, 0) is None
                &&& tables.len() > 0 ==> tags@.len() == tables.len() && forall|i: int|
                    0 <= i < tables.len() ==> tag_made(#[trigger] tags@[i], tables@[i], gravities@)
                &&& tables.len() == 0 ==> tags@.len() == 1 && tags@[0].name@ == "default"@ && tags@[0].flags
                    == 0 && tags@[0].pattern is None
            },
            Err(e) => first_bad_pattern(tables@, 0) is Some && e == SetupError::InvalidPattern,
        },
{
    let mut tags: Vec<Tag> = Vec::new();
    let mut i: usize = 0;
    while i < tables.len()
        invariant
            i <= tables.len(),
            tags@.len() == i,
            first_bad_pattern(tables@, 0) == first_bad_pattern(tables@, i as int),
            forall|k: int| 0 <= k < i ==> tag_made(#[trigger] tags@[k], tables@[k], gravities@),
        decreases tables.len() - i,
    {
        let tag = tag_from(&tables[i], gravities)?;
        tags.push(tag);
        i = i + 1;
    }
    if tags.len() == 0 {
        tags.push(Tag::new(String::from_str("default")));
    }
    Ok(tags)
}

/// The views of the configuration, one per table in their order (named by
/// `name`, matching tags by `match`), or a view named `default` where there
/// is none; fails when a pattern does not compile. Views are not tagged yet
/// (see `TagView::retag_checked`).
pub fn views_from_config(tables: &Vec<ConfigTable>) -> (r: Result<Vec<TagView>, SetupError>)
    ensures
        match r {
            Ok(views) => {
                &&& first_bad_pattern(tables@, 0) is None
                &&& tables.len() > 0 ==> views@.len() == tables.len() && forall|i: int|
                    0 <= i < tables.len() ==> {
                        let v = #[trigger] views@[i];
                        &&& v.name@ == (match text_at(tables@[i], "name"@) {
                            Some(n) => n,
                            None => Seq::empty(),
                        })
                        &&& v.pattern_view() == text_at(tables@[i], "match"@)
                        &&& v.tags == 0
                        &&& v.flags == 0
                    }
                &&& tables.len() == 0 ==> views@.len() == 1 && views@[0].name@ == "default"@
                    && views@[0].pattern is None && views@[0].tags == 0
            },
            Err(e) => first_bad_pattern(tables@, 0) is Some && e == SetupError::InvalidPattern,
        },
{
    let mut views: Vec<TagView> = Vec::new();
    let mut i: usize = 0;
    while i < tables.len()
        invariant
            i <= tables.len(),
            views@.len() == i,
            first_bad_pattern(tables@, 0) == first_bad_pattern(tables@, i as int),
            forall|k: int|
                0 <= k < i ==> {
                    let v = #[trigger] views@[k];
                    &&& v.name@ == (match text_at(tables@[k], "name"@) {
                        Some(n) => n,
                        None => Seq::empty(),
                    })
                    &&& v.pattern_view() == text_at(tables@[k], "match"@)
                    &&& v.tags == 0
                    &&& v.flags == 0
                },
        decreases tables.len() - i,
    {
        let t = &tables[i];
        let name = match t.get("name") {
            Some(MixedConfigVal::S(v)) => v.clone(),
            _ => String::new(),
        };
        let pattern = get_pattern(t)?;
        let mut view = TagView::new(name);
        view.pattern = pattern;
        views.push(view);
        i = i + 1;
    }
    if views.len() == 0 {
        views.push(TagView::new(String::from_str("default")));
    }
    Ok(views)
}

impl TagView {
    /// Retag the view (see `TagView::retag`) where that is defined: when its
    /// pattern matches no tag beyond the 32nd, whose bit does not exist.
    /// Returns whether it retagged; else the view is left as it is.
    pub fn retag_checked(&mut self, tags: &Vec<Tag>) -> (r: bool)
        ensures
            r == matches_fit(old(self).pattern_view(), tags@),
            r ==> final(self).tags == retagged(old(self).tags, old(self).pattern_view(), tags@),
            !r ==> final(self).tags == old(self).tags,
            final(self).name == old(self).name,
            final(self).flags == old(self).flags,
            final(self).pattern == old(self).pattern,
            final(self).focus_win == old(self).focus_win,
            final(self).icon == old(self).icon,
    {
        if let Some(p) = &self.pattern {
            let mut i: usize = 32;
            while i < tags.len()
                invariant
                    32 <= i,
                    i <= tags.len() || tags.len() < 32,
                    old(self).pattern_view() == Some(p@),
                    forall|k: int| 32 <= k < i ==> !pattern_matches(p@, #[trigger] tags@[k].name@),
                decreases tags.len() - i,
            {
                if p.is_match(tags[i].name.as_str()) {
                    return false;
                }
                i = i + 1;
            }
        }
        self.retag(tags);
        true
    }
}

/// The view a screen shows at start: the view with the screen's own index,
/// or none where there are fewer views.
pub open spec fn start_view(screen_idx: int, nviews: int) -> isize {
    if screen_idx < nviews {
        screen_idx as isize
    } else {
        -1isize
    }
}

/// Enforce sane defaults before the start: screen `i` shows view `i` where
/// there is one, an unset minimum width of the title becomes 50, and a
/// title style without a font takes the font with index `fonts_len`, the
/// default font the caller loads and adds; returns whether it must.
pub fn sanity_check(screens: &mut Vec<Screen>, nviews: usize, title: &mut Style, fonts_len: usize) -> (r: bool)
    requires
        fonts_len <= isize::MAX,
    ensures
        final(screens)@.len() == old(screens)@.len(),
        forall|i: int|
            0 <= i < old(screens)@.len() ==> #[trigger] final(screens)@[i] == (Screen {
                view_idx: start_view(i, nviews as int),
                ..old(screens)@[i]
            }),
        r == !has_any(old(title).flags, STYLE_FONT),
        *final(title) == (Style {
            min_width: if old(title).min_width == -1 {
                50
            } else {
                old(title).min_width
            },
            font_id: if r {
                fonts_len as isize
            } else {
                old(title).font_id
            },
            flags: if r {
                old(title).flags | STYLE_FONT
            } else {
                old(title).flags
            },
            ..*old(title)
        }),
{
    let mut i: usize = 0;
    while i < screens.len()
        invariant
            i <= screens.len(),
            screens@.len() == old(screens)@.len(),
            forall|k: int|
                0 <= k < old(screens)@.len() ==> #[trigger] screens@[k] == (if k < i {
                    Screen { view_idx: start_view(k, nviews as int), ..old(screens)@[k] }
                } else {
                    old(screens)@[k]
                }),
        decreases screens.len() - i,
    {
        let v: isize = if i < nviews {
            i as isize
        } else {
            -1
        };
        screens[i].view_idx = v;
        i = i + 1;
    }
    if title.min_width == -1 {
        title.min_width = 50;
    }
    if !intersects(title.flags, STYLE_FONT) {
        title.font_id = fonts_len as isize;
        title.flags = title.flags | STYLE_FONT;
        true
    } else {
        false
    }
}

} // verus!
