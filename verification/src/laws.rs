//! Properties that hold across the operations of the library.

use vstd::prelude::*;
use crate::bits::{bit, has_all, has_any};
use crate::client::{Client, visible_with, ALL_MODES, ARRANGE, MODE_CENTER};
use crate::toggle::{toggled_flags, full_refused, KNOWN_FLAGS};
use crate::gravity::clamp;
use crate::grab::{
    keys_from, keys_of, key_step, modifier_of, segment_end, lemma_segment_end, is_button_name, MOD_ANY,
    MOD_SHIFT, MOD_CONTROL, MOD_1, MOD_3, MOD_4, MOD_5, GrabError,
};
use crate::text::{parsed_unsigned, decimal_value, unsigned_digits, all_digits, is_digit, digit_value};
use crate::panel::{Panel, placed_x, section_of, class_of, width_sum, start_of, PANEL_HIDDEN};
use crate::screen::{Screen, acc_tags, tags_before, live};
use crate::spacing::{Spacing, inherited_side};
use crate::style::{Style, inherit_spacing};
use crate::subtle::{without_win, next_focus, next_in_history, next_on_screen, next_anywhere, client_of_win, focusable_on};
use crate::view::TagView;
use crate::tag::Tag;
use crate::lifecycle::{matched_tags, retagged_client, tagged};
use crate::gravity::placed;
use crate::rect::Rect;
use crate::size::snapped;
use crate::toggle::toggled_geom;
use crate::client::{DEAD, TYPE_DESKTOP, TYPE_DOCK};
use crate::screen::{TOP_PANEL, BOTTOM_PANEL};
use crate::grab::{grab_of_name, DirectionOrder, ActionValue, WINDOW_SELECT, WINDOW_RESTACK, WINDOW_MODE};
use crate::client::{RestackOrder, MODE_FLOAT, MODE_FULL, MODE_STICK, MODE_ZAPHOD};
use crate::tag::{tag_matches, pattern_source};
use crate::pattern::pattern_matches;

verus! {

/// A bit of a tag set holds exactly its own tag: the set of tag `a`
/// contains the set of tag `b` only when they are the same tag.
pub proof fn lemma_bit_holds_own_tag(a: int, b: int)
    requires
        0 <= a < 32,
        0 <= b < 32,
    ensures
        has_all(bit(a), bit(b)) <==> a == b,
{
    let x = a as u32;
    let y = b as u32;
    assert(x < 32 && y < 32 ==> ((1u32 << x) & (1u32 << y) == (1u32 << y) <==> x == y)) by (bit_vector);
}

/// Clearing the tags of `mask` from a tag set removes every tag of the mask
/// and keeps every other tag of the set.
pub proof fn lemma_clear_tags(tags: u32, mask: u32)
    ensures
        (tags & !(tags & mask)) & mask == 0,
        (tags & !(tags & mask)) == tags & !mask,
{
    assert((tags & !(tags & mask)) & mask == 0) by (bit_vector);
    assert((tags & !(tags & mask)) == tags & !mask) by (bit_vector);
}

/// Inheriting a side twice from the same side gives what inheriting once
/// gives.
pub proof fn lemma_inherit_side_twice(own: i16, other: i16, merge: bool)
    ensures
        inherited_side(inherited_side(own, other, merge), other, merge) == inherited_side(own, other, merge),
{
}

/// Inheriting a style twice from the same style gives what inheriting once
/// gives.
pub proof fn lemma_inherit_style_twice(s: Style, other: Style)
    ensures
        s.inherit_from(other).inherit_from(other) == s.inherit_from(other),
{
}

/// A style reset to unset values and then inherited from another takes all
/// the other's colors, spacings and font.
pub proof fn lemma_reset_then_inherit(s: Style, other: Style)
    ensures
        ({
            let r = s.reset_to(-1i32).inherit_from(other);
            &&& r.fg == other.fg
            &&& r.bg == other.bg
            &&& r.top == other.top
            &&& r.right == other.right
            &&& r.bottom == other.bottom
            &&& r.left == other.left
            &&& r.icon == other.icon
            &&& r.border == other.border
            &&& r.padding == other.padding
            &&& r.margin == other.margin
            &&& r.font_id == other.font_id
        }),
{
    let d = s.reset_to(-1i32);
    assert(d.border == Spacing { top: -1i16, right: -1i16, bottom: -1i16, left: -1i16 });
    assert(inherit_spacing(d.border, other.border) == other.border);
    assert(inherit_spacing(d.padding, other.padding) == other.padding);
    assert(inherit_spacing(d.margin, other.margin) == other.margin);
}

/// A gravity's placement stays within the whole of its bounds: its
/// position between 0 and 100 percent and its size between 1 and 100.
pub proof fn lemma_gravity_in_bounds(x: u16, y: u16, width: u16, height: u16)
    ensures
        0 <= clamp((x as i16) as int, 0, 100) <= 100,
        0 <= clamp((y as i16) as int, 0, 100) <= 100,
        1 <= clamp(width as int, 1, 100) <= 100,
        1 <= clamp(height as int, 1, 100) <= 100,
{
}

proof fn lemma_modifier_values()
    ensures
        MOD_SHIFT == 1,
        MOD_CONTROL == 4,
        MOD_1 == 8,
        MOD_3 == 32,
        MOD_4 == 64,
        MOD_5 == 128,
        MOD_ANY == 0x8000,
{
    assert(MOD_SHIFT == 1 && MOD_CONTROL == 4 && MOD_1 == 8 && MOD_3 == 32 && MOD_4 == 64 && MOD_5 == 128
        && MOD_ANY == 0x8000) by (bit_vector);
}

/// Reading key names keeps the modifiers to the eight real modifier bits.
proof fn lemma_keys_from_modifiers(s: Seq<char>, i: int, st: (u8, u16, bool), keycodes: Map<u32, u8>)
    requires
        st.1 < 256,
    ensures
        keys_from(s, i, st, keycodes) matches Ok(r) ==> r.1 < 256,
    decreases s.len() + 1 - i,
{
    if 0 <= i <= s.len() {
        let e = segment_end(s, i);
        lemma_segment_end(s, i);
        let key = s.subrange(i, e);
        let m = modifier_of(key);
        lemma_modifier_values();
        assert(m < 256);
        let a = st.1;
        assert(a < 256 && m < 256 ==> a | m < 256) by (bit_vector);
        match key_step(key, st, keycodes) {
            Ok(next) => {
                if e < s.len() {
                    lemma_keys_from_modifiers(s, e + 1, next, keycodes);
                }
            },
            Err(_) => {},
        }
    }
}

/// A key combination never sets the any-modifier bit: its modifiers are
/// among shift, lock, control and mod1 to mod5.
pub proof fn lemma_keys_modifiers(s: Seq<char>, keycodes: Map<u32, u8>)
    ensures
        keys_of(s, keycodes) matches Ok(r) ==> r.1 < 256 && r.1 & MOD_ANY == 0 && r.1 != MOD_ANY,
{
    lemma_keys_from_modifiers(s, 0, (0, 0, false), keycodes);
    lemma_modifier_values();
    if let Ok(r) = keys_of(s, keycodes) {
        let m = r.1;
        assert(m < 256 ==> m & 0x8000u16 == 0) by (bit_vector);
    }
}

/// Configuring finds the tags of the views that the screens show: with
/// some client alive (or no client at all) the visible tags are the union of
/// those views' tags; with only dead clients nothing is visible.
pub proof fn lemma_visible_tags(clients: Seq<Client>, screens: Seq<Screen>, views: Seq<TagView>, c: int)
    requires
        0 <= c <= clients.len(),
    ensures
        tags_before(clients, screens, views, c) == (if exists|i: int| 0 <= i < c && live(#[trigger] clients[i]) {
            acc_tags(0, screens, views, screens.len() as int)
        } else {
            0
        }),
    decreases c,
{
    if c > 0 {
        lemma_visible_tags(clients, screens, views, c - 1);
        let p = tags_before(clients, screens, views, c - 1);
        if live(clients[c - 1]) {
            lemma_acc_tags_start(p, screens, views, screens.len() as int);
            let a = acc_tags(0, screens, views, screens.len() as int);
            assert(a | a == a) by (bit_vector);
            assert(0u32 | a == a) by (bit_vector);
        } else {
            if exists|i: int| 0 <= i < c && live(#[trigger] clients[i]) {
                let i = choose|i: int| 0 <= i < c && live(#[trigger] clients[i]);
                assert(i < c - 1);
            }
        }
    }
}

/// Gathering tags from a start is the start joined with the tags gathered
/// from nothing.
pub proof fn lemma_acc_tags_start(start: u32, screens: Seq<Screen>, views: Seq<TagView>, k: int)
    ensures
        acc_tags(start, screens, views, k) == start | acc_tags(0, screens, views, k),
    decreases k,
{
    if k > 0 {
        lemma_acc_tags_start(start, screens, views, k - 1);
        let p = acc_tags(0, screens, views, k - 1);
        if screens[k - 1].shows_view(views.len() as int) {
            let t = views[screens[k - 1].view_idx as int].tags;
            assert((start | p) | t == start | (p | t)) by (bit_vector);
        }
    } else {
        assert(start | 0u32 == start) by (bit_vector);
    }
}

/// Removing the clients of a window leaves none of that window.
pub proof fn lemma_removed_window(clients: Seq<Client>, win: u32)
    ensures
        forall|k: int| 0 <= k < without_win(clients, win).len() ==> #[trigger] without_win(clients, win)[k].win != win,
        without_win(clients, win).len() <= clients.len(),
    decreases clients.len(),
{
    if clients.len() > 0 {
        lemma_removed_window(clients.drop_last(), win);
    }
}

/// Removing the clients of a window keeps every client of another window.
pub proof fn lemma_removed_keeps_others(clients: Seq<Client>, win: u32, c: Client)
    ensures
        clients.contains(c) && c.win != win ==> without_win(clients, win).contains(c),
    decreases clients.len(),
{
    if clients.len() > 0 {
        lemma_removed_keeps_others(clients.drop_last(), win, c);
        if clients.contains(c) && c.win != win {
            let i = choose|i: int| 0 <= i < clients.len() && clients[i] == c;
            if i < clients.len() - 1 {
                assert(clients.drop_last()[i] == c);
                assert(clients.drop_last().contains(c));
                let rest = without_win(clients.drop_last(), win);
                let j = choose|j: int| 0 <= j < rest.len() && rest[j] == c;
                if clients.last().win != win {
                    assert(rest.push(clients.last())[j] == c);
                }
            } else {
                let rest = without_win(clients.drop_last(), win);
                assert(rest.push(clients.last())[rest.len() as int] == c);
            }
        }
    }
}

proof fn lemma_next_in_history_found(clients: Seq<Client>, history: Seq<u32>, s: isize, vt: u32, h: int)
    ensures
        next_in_history(clients, history, s, vt, h) matches Some(k) ==> 0 <= k < clients.len() && focusable_on(
            clients[k],
            s,
            vt,
        ),
    decreases history.len() - h,
{
    if 0 <= h < history.len() {
        lemma_client_of_win_found(clients, history[h], 0);
        lemma_next_in_history_found(clients, history, s, vt, h + 1);
    }
}

proof fn lemma_client_of_win_found(clients: Seq<Client>, win: u32, i: int)
    ensures
        client_of_win(clients, win, i) matches Some(k) ==> 0 <= k < clients.len() && clients[k].win == win,
    decreases clients.len() - i,
{
    if 0 <= i < clients.len() {
        lemma_client_of_win_found(clients, win, i + 1);
    }
}

proof fn lemma_next_on_screen_found(clients: Seq<Client>, s: isize, vt: u32, i: int)
    ensures
        next_on_screen(clients, s, vt, i) matches Some(k) ==> 0 <= k < clients.len() && focusable_on(
            clients[k],
            s,
            vt,
        ),
    decreases clients.len() - i,
{
    if 0 <= i < clients.len() {
        lemma_next_on_screen_found(clients, s, vt, i + 1);
    }
}

proof fn lemma_next_anywhere_found(clients: Seq<Client>, fw: u32, vt: u32, i: int)
    ensures
        next_anywhere(clients, fw, vt, i) matches Some(k) ==> 0 <= k < clients.len() && live(clients[k])
            && visible_with(vt, clients[k].flags, clients[k].tags),
    decreases clients.len() - i,
{
    if 0 <= i < clients.len() {
        lemma_next_anywhere_found(clients, fw, vt, i + 1);
    }
}

/// The client that gets the focus next is alive and shown, and without a
/// jump to any window it is on the given screen.
pub proof fn lemma_next_focus_shown(clients: Seq<Client>, history: Seq<u32>, s: isize, jump: bool, vt: u32)
    ensures
        next_focus(clients, history, s, jump, vt) matches Some(k) ==> {
            &&& 0 <= k < clients.len()
            &&& live(clients[k])
            &&& visible_with(vt, clients[k].flags, clients[k].tags)
            &&& !jump ==> clients[k].screen_idx == s
        },
{
    lemma_next_in_history_found(clients, history, s, vt, 0);
    lemma_next_on_screen_found(clients, s, vt, 0);
    lemma_next_anywhere_found(clients, crate::subtle::focus_win_of(history), vt, 0);
}

/// Shown panel items of one panel and placement class never overlap: a
/// later one starts where the earlier one ends or beyond.
pub proof fn lemma_panel_items_apart(panels: Seq<Panel>, bw: int, i: int, j: int)
    requires
        0 <= i < j < panels.len(),
        !has_any(panels[i].flags, PANEL_HIDDEN),
        !has_any(panels[j].flags, PANEL_HIDDEN),
        section_of(panels, i) == section_of(panels, j),
        class_of(panels[i].flags) == class_of(panels[j].flags),
    ensures
        placed_x(panels, j, bw) >= placed_x(panels, i, bw) + panels[i].width,
{
    let sec = section_of(panels, i);
    let class = class_of(panels[i].flags);
    assert(width_sum(panels, i + 1, sec, class, true) == width_sum(panels, i, sec, class, true)
        + panels[i].width);
    lemma_width_sum_grows(panels, i + 1, j, sec, class);
}

proof fn lemma_width_sum_grows(panels: Seq<Panel>, m: int, n: int, sec: int, class: int)
    requires
        0 <= m <= n <= panels.len(),
    ensures
        width_sum(panels, m, sec, class, true) <= width_sum(panels, n, sec, class, true),
    decreases n - m,
{
    if m < n {
        lemma_width_sum_grows(panels, m, n - 1, sec, class);
    }
}


proof fn lemma_segment_end_shift(p: Seq<char>, r: Seq<char>, i: int)
    requires
        0 <= i <= r.len(),
    ensures
        segment_end(p + r, p.len() + i) == p.len() + segment_end(r, i),
    decreases r.len() - i,
{
    if i < r.len() {
        assert((p + r)[p.len() + i] == r[i]);
        if r[i] != '-' {
            lemma_segment_end_shift(p, r, i + 1);
        }
    }
}

proof fn lemma_keys_shift(p: Seq<char>, r: Seq<char>, i: int, st: (u8, u16, bool), kc: Map<u32, u8>)
    requires
        0 <= i <= r.len(),
    ensures
        keys_from(p + r, p.len() + i, st, kc) == keys_from(r, i, st, kc),
    decreases r.len() + 1 - i,
{
    let s = p + r;
    lemma_segment_end_shift(p, r, i);
    lemma_segment_end(r, i);
    let e = segment_end(r, i);
    assert(s.subrange(p.len() + i, p.len() + e) =~= r.subrange(i, e));
    match key_step(r.subrange(i, e), st, kc) {
        Ok(next) => {
            if e < r.len() {
                lemma_keys_shift(p, r, e + 1, next, kc);
            }
        },
        Err(_) => {},
    }
}

/// The result of reading key names with `x` added to the modifiers.
pub open spec fn with_modifier(r: Result<(u8, u16, bool), GrabError>, x: u16) -> Result<(u8, u16, bool), GrabError> {
    match r {
        Ok((c, m, b)) => Ok((c, m | x, b)),
        Err(e) => Err(e),
    }
}

proof fn lemma_keys_mods(r: Seq<char>, i: int, c: u8, m: u16, b: bool, x: u16, kc: Map<u32, u8>)
    ensures
        keys_from(r, i, (c, m | x, b), kc) == with_modifier(keys_from(r, i, (c, m, b), kc), x),
    decreases r.len() + 1 - i,
{
    if i < 0 || i > r.len() {
    } else {
        lemma_segment_end(r, i);
        let e = segment_end(r, i);
        let key = r.subrange(i, e);
        let md = modifier_of(key);
        assert((m | x) | md == (m | md) | x) by (bit_vector);
        match key_step(key, (c, m, b), kc) {
            Ok(next) => {
                if e < r.len() {
                    lemma_keys_mods(r, e + 1, next.0, next.1, next.2, x, kc);
                }
            },
            Err(_) => {},
        }
    }
}

/// A modifier name before a key combination adds its modifier: `S`
/// (shift), `C` (control), `A` (mod1), `M` (mod3), `W` (mod4) or `G`
/// (mod5), then `-`, give what the rest gives with that modifier added.
pub proof fn lemma_modifier_prefix(k: Seq<char>, r: Seq<char>, kc: Map<u32, u8>)
    requires
        k == "S"@ || k == "C"@ || k == "A"@ || k == "M"@ || k == "W"@ || k == "G"@,
    ensures
        keys_of(k + "-"@ + r, kc) == with_modifier(keys_of(r, kc), modifier_of(k)),
{
    reveal_strlit("S");
    reveal_strlit("C");
    reveal_strlit("A");
    reveal_strlit("M");
    reveal_strlit("W");
    reveal_strlit("G");
    reveal_strlit("-");
    lemma_modifier_values();
    let p = k + "-"@;
    let s = p + r;
    assert(k + "-"@ + r == s);
    assert(s[0] == k[0]);
    assert(s[1] == '-');
    assert(segment_end(s, 1) == 1);
    assert(segment_end(s, 0) == 1);
    assert(s.subrange(0, 1) =~= k);
    let md = modifier_of(k);
    assert(md != 0);
    assert(0u16 | md == md) by (bit_vector);
    assert(key_step(k, (0u8, 0u16, false), kc) == Ok::<(u8, u16, bool), GrabError>((0u8, md, false)));
    lemma_keys_shift(p, r, 0, (0u8, md, false), kc);
    assert(keys_from(s, 0, (0u8, 0u16, false), kc) == keys_from(s, 2, (0u8, md, false), kc));
    lemma_keys_mods(r, 0, 0u8, 0u16, false, md, kc);
}

/// A mouse button name `B` and a digit stands for that button.
pub proof fn lemma_mouse_button(d: char, kc: Map<u32, u8>)
    requires
        '0' <= d <= '9',
    ensures
        keys_of(seq!['B', d], kc) == Ok::<(u8, u16, bool), GrabError>((((d as int) - ('0' as int)) as u8, 0u16, true)),
{
    reveal_strlit("S");
    reveal_strlit("C");
    reveal_strlit("A");
    reveal_strlit("M");
    reveal_strlit("W");
    reveal_strlit("G");
    let s = seq!['B', d];
    assert(segment_end(s, 2) == 2);
    assert(segment_end(s, 1) == 2);
    assert(segment_end(s, 0) == 2);
    assert(s.subrange(0, 2) =~= s);
    assert(modifier_of(s) == 0);
    assert(is_button_name(s));
    let t = s.subrange(1, 2);
    assert(t =~= seq![d]);
    assert(unsigned_digits(t) == t);
    assert(all_digits(t));
    assert(t.drop_last() =~= Seq::<char>::empty());
    assert(decimal_value(Seq::<char>::empty()) == 0);
    assert(t.last() == d);
    assert(decimal_value(t) == decimal_value(t.drop_last()) * 10 + digit_value(t.last()));
    assert(decimal_value(t) == digit_value(d));
    assert(parsed_unsigned(t, 255) == Some(digit_value(d)));
}

/// Matching tags adds to the tags the client had the bits that matching
/// gives a client without tags.
proof fn lemma_matched_adds(c: Client, tags: Seq<Tag>, n: int)
    ensures
        matched_tags(c, tags, n) == c.tags | matched_tags(Client { tags: 0, ..c }, tags, n),
    decreases n,
{
    let z = Client { tags: 0, ..c };
    let t = c.tags;
    if n <= 0 || n > tags.len() {
        assert(t | 0u32 == t) by (bit_vector);
    } else {
        lemma_matched_adds(c, tags, n - 1);
        let b = matched_tags(z, tags, n - 1);
        if n - 1 < tags.len() && !has_all(c.flags, crate::client::DEAD) {
            let x = bit(n - 1);
            assert((t | b) | x == t | (b | x)) by (bit_vector);
        }
    }
}

/// Retagging a client twice gives the tags that retagging once gives.
pub proof fn lemma_retag_twice(c: Client, tags: Seq<Tag>, views: Seq<TagView>, mode_flags: u32)
    ensures
        retagged_client(
            Client { tags: retagged_client(c, tags, views, mode_flags), ..c },
            tags,
            views,
            mode_flags,
        ) == retagged_client(c, tags, views, mode_flags),
{
    let n = tags.len() as int;
    let r1 = retagged_client(c, tags, views, mode_flags);
    let c2 = Client { tags: r1, ..c };
    let z = Client { tags: 0, ..c };
    assert(Client { tags: 0, ..c2 } == z);
    lemma_matched_adds(c, tags, n);
    lemma_matched_adds(c2, tags, n);
    let b = matched_tags(z, tags, n);
    let t = c.tags;
    let x = bit(0);
    assert((t | b) | b == t | b) by (bit_vector);
    assert(((t | b) | x) | b == (t | b) | x) by (bit_vector);
    assert(((t | b) | x) | x == (t | b) | x) by (bit_vector);
}

/// Toggling the same modes twice restores the client's modes: with no
/// center mode asked for and fullscreen refused neither time, the mode bits
/// after the second toggle are those before the first.
pub proof fn lemma_toggle_twice(c: Client, c2: Client, mode: u32, s1: Option<Screen>, s2: Option<Screen>)
    requires
        !has_all(mode, MODE_CENTER),
        !full_refused(c, mode, s1),
        c2.flags == toggled_flags(c, mode, s1),
        !full_refused(c2, mode, s2),
    ensures
        toggled_flags(c2, mode, s2) & ALL_MODES == c.flags & ALL_MODES,
{
    let f = c.flags;
    assert(forall|g: u32, m: u32|
        #![trigger (((g & (!ALL_MODES & KNOWN_FLAGS)) | (g & ALL_MODES)) ^ (m & ALL_MODES))]
        ((((g & (!ALL_MODES & KNOWN_FLAGS)) | (g & ALL_MODES)) ^ (m & ALL_MODES)) & ALL_MODES) == ((g
            & ALL_MODES) ^ (m & ALL_MODES))) by (bit_vector);
    assert(forall|g: u32| #![trigger (g | ARRANGE)] ((g | ARRANGE) & ALL_MODES) == (g & ALL_MODES)) by (bit_vector);
    assert(forall|g: u32, m: u32| #![trigger ((g ^ m) ^ m)] ((g ^ m) ^ m) == g) by (bit_vector);
}

/// A percentage of a signed length, rounded toward zero.
pub open spec fn percent_toward_zero(len: int, pct: int) -> int {
    let p = len * pct;
    if p >= 0 {
        p / 100
    } else {
        -((-p) / 100)
    }
}

/// A gravity places a window at its percentages of the area: the left edge
/// at `x` percent of the width and the top edge at `y` percent of the
/// height from the area's corner (each rounded toward zero, with the side
/// read as a signed 16-bit length), and for percentages up to 100 the size
/// at `width` and `height` percent of the area's size (rounded down).
pub proof fn lemma_gravity_placement(g: Rect, bounds: Rect)
    requires
        i16::MIN <= ((bounds.width as i16) as int) * g.x <= i16::MAX,
        i16::MIN <= ((bounds.height as i16) as int) * g.y <= i16::MAX,
        i16::MIN <= bounds.x + percent_toward_zero((bounds.width as i16) as int, g.x as int) <= i16::MAX,
        i16::MIN <= bounds.y + percent_toward_zero((bounds.height as i16) as int, g.y as int) <= i16::MAX,
    ensures
        placed(g, bounds).x == bounds.x + percent_toward_zero((bounds.width as i16) as int, g.x as int),
        placed(g, bounds).y == bounds.y + percent_toward_zero((bounds.height as i16) as int, g.y as int),
        g.width <= 100 ==> placed(g, bounds).width == (bounds.width as int) * (g.width as int) / 100,
        g.height <= 100 ==> placed(g, bounds).height == (bounds.height as int) * (g.height as int) / 100,
{
    if g.width <= 100 {
        assert((bounds.width as int) * (g.width as int) / 100 <= bounds.width as int) by (nonlinear_arith)
            requires
                0 <= g.width <= 100,
                0 <= bounds.width,
        ;
        assert(0 <= (bounds.width as int) * (g.width as int) / 100) by (nonlinear_arith)
            requires
                0 <= g.width,
                0 <= bounds.width,
        ;
    }
    if g.height <= 100 {
        assert((bounds.height as int) * (g.height as int) / 100 <= bounds.height as int) by (nonlinear_arith)
            requires
                0 <= g.height <= 100,
                0 <= bounds.height,
        ;
        assert(0 <= (bounds.height as int) * (g.height as int) / 100) by (nonlinear_arith)
            requires
                0 <= g.height,
                0 <= bounds.height,
        ;
    }
}

/// Snapping one axis of a window (position `pos`, length `len`, border
/// `bw`) to a screen (start `s_pos`, length `s_len`) within `snap`: a window
/// whose start is within `snap` of the screen's start moves to it (plus the
/// border); else one whose far edge (with the border) is within `snap` of
/// the screen's far edge moves so that the two edges meet; else it stays.
pub proof fn lemma_snap_edges(s_pos: i16, s_len: u16, pos: i16, len: u16, bw: i16, snap: u16)
    requires
        s_len <= i16::MAX,
        len <= i16::MAX,
        snap <= i16::MAX,
        i16::MIN <= s_pos - pos <= i16::MAX,
        i16::MIN <= s_pos + bw <= i16::MAX,
        i16::MIN <= s_pos + s_len - len - bw <= i16::MAX,
    ensures
        ({
            let near = s_pos - pos;
            let far = (s_pos + s_len) - (pos + len + bw);
            let r = snapped(s_pos, s_len, pos, len, bw, snap) as int;
            &&& (-snap <= near <= snap) ==> r == s_pos + bw
            &&& !(-snap <= near <= snap) && (-snap <= far <= snap) && s_len >= len ==> r + len + bw == s_pos
                + s_len
            &&& !(-snap <= near <= snap) && !(-snap <= far <= snap) ==> r == pos
        }),
{
}

/// Switching center mode on with a known screen centers the window on the
/// screen both ways, leaving one pixel on each side: each offset is half of
/// the screen's side less the window's side less two (read as signed 16-bit
/// lengths, rounded toward zero). The size does not change.
pub proof fn lemma_center_both_ways(c: Client, mode: u32, sc: Screen, panel_height: u16)
    requires
        has_all(mode, MODE_CENTER),
        !has_all(c.flags, MODE_CENTER),
        !has_any(mode, TYPE_DESKTOP | TYPE_DOCK),
        ({
            let dx = ((sc.geom.width as i16) as int) - ((c.geom.width as i16) as int) - 2;
            let dy = ((sc.geom.height as i16) as int) - ((c.geom.height as i16) as int) - 2;
            &&& i16::MIN <= dx && i16::MIN <= dy && dx <= i16::MAX && dy <= i16::MAX
            &&& i16::MIN <= sc.geom.x + (if dx >= 0 { dx / 2 } else { -((-dx) / 2) }) <= i16::MAX
            &&& i16::MIN <= sc.geom.y + (if dy >= 0 { dy / 2 } else { -((-dy) / 2) }) <= i16::MAX
        }),
    ensures
        ({
            let dx = ((sc.geom.width as i16) as int) - ((c.geom.width as i16) as int) - 2;
            let dy = ((sc.geom.height as i16) as int) - ((c.geom.height as i16) as int) - 2;
            let g = toggled_geom(c, mode, Some(sc), panel_height);
            &&& g.x == sc.geom.x + (if dx >= 0 { dx / 2 } else { -((-dx) / 2) })
            &&& g.y == sc.geom.y + (if dy >= 0 { dy / 2 } else { -((-dy) / 2) })
            &&& g.width == c.geom.width
            &&& g.height == c.geom.height
        }),
{
    let f = c.flags;
    assert(!has_all(f, MODE_CENTER) ==> !has_all(f | ARRANGE, MODE_CENTER)) by (bit_vector);
    assert(!has_any(mode, TYPE_DESKTOP | TYPE_DOCK) ==> !has_all(mode, TYPE_DESKTOP | TYPE_DOCK)) by (bit_vector);
}

/// The name of the grab that selects the next window in direction `d`.
pub open spec fn select_name(d: DirectionOrder) -> Seq<char> {
    match d {
        DirectionOrder::Mouse => "window_select"@,
        DirectionOrder::Up => "window_up"@,
        DirectionOrder::Right => "window_right"@,
        DirectionOrder::Down => "window_down"@,
        DirectionOrder::Left => "window_left"@,
    }
}

/// The window selection grabs name their direction: `window_up`,
/// `window_right`, `window_down` and `window_left` select by the code of
/// that direction, and no two directions share a code.
pub proof fn lemma_select_directions(d: DirectionOrder, e: DirectionOrder)
    requires
        d != DirectionOrder::Mouse,
    ensures
        grab_of_name(select_name(d)) == Ok::<(u32, ActionValue), GrabError>(
            (WINDOW_SELECT, ActionValue::Index(d.spec_code())),
        ),
        d != e ==> d.spec_code() != e.spec_code(),
{
    reveal_strlit("window_up");
    reveal_strlit("window_right");
    reveal_strlit("window_down");
    reveal_strlit("window_left");
    reveal_strlit("subtle_reload");
    reveal_strlit("subtle_restart");
    reveal_strlit("subtle_quit");
    reveal_strlit("window_toggle");
    reveal_strlit("window_stack");
    reveal_strlit("window_select");
    reveal_strlit("window_gravity");
    reveal_strlit("window_kill");
    reveal_strlit("window_float");
    reveal_strlit("window_full");
    reveal_strlit("window_stick");
    reveal_strlit("window_zaphod");
    reveal_strlit("window_raise");
    reveal_strlit("window_lower");
}

/// A tag matches a client exactly when its pattern matches the client's
/// name, its instance or its class; a tag without a pattern matches none.
pub proof fn lemma_tag_matches_names(p: Option<Seq<char>>, name: Seq<char>, instance: Seq<char>, klass: Seq<char>)
    ensures
        p is None ==> !tag_matches(p, name, instance, klass),
        p matches Some(q) ==> (pattern_matches(q, klass) ==> tag_matches(p, name, instance, klass)),
        p matches Some(q) ==> (pattern_matches(q, instance) ==> tag_matches(p, name, instance, klass)),
        p matches Some(q) ==> (pattern_matches(q, name) ==> tag_matches(p, name, instance, klass)),
        p matches Some(q) ==> (tag_matches(p, name, instance, klass) ==> pattern_matches(q, name)
            || pattern_matches(q, instance) || pattern_matches(q, klass)),
{
}

/// Matching the first `n` tags keeps the tags a client had and gives a live
/// client tag `i` whenever that tag's pattern matches its name, instance or
/// class.
proof fn lemma_matched_has(c: Client, tags: Seq<Tag>, n: int, i: int)
    requires
        0 <= i < n <= tags.len(),
        i < 32,
        !has_all(c.flags, DEAD),
        tag_matches(pattern_source(tags[i].pattern), c.name@, c.instance@, c.klass@),
    ensures
        has_all(matched_tags(c, tags, n), bit(i)),
    decreases n,
{
    let b = bit(i);
    assert(forall|x: u32, y: u32| #![trigger (x | y)] (x & b) == b ==> ((x | y) & b) == b) by (bit_vector);
    if n - 1 == i {
        let before = matched_tags(c, tags, n - 1);
        let x = i as u32;
        assert(x < 32 ==> ((before | (1u32 << x)) & (1u32 << x)) == (1u32 << x)) by (bit_vector);
    } else {
        lemma_matched_has(c, tags, n - 1, i);
        let before = matched_tags(c, tags, n - 1);
        assert(tagged(c.flags, before, n - 1, tags.len() as int) == before || tagged(
            c.flags,
            before,
            n - 1,
            tags.len() as int,
        ) == before | bit(n - 1));
    }
}

/// Retagging gives a live client every tag among the first 32 whose pattern
/// matches its name, its instance or its class.
pub proof fn lemma_retag_by_class(c: Client, tags: Seq<Tag>, views: Seq<TagView>, mode_flags: u32, i: int)
    requires
        0 <= i < tags.len(),
        i < 32,
        !has_all(c.flags, DEAD),
        pattern_source(tags[i].pattern) matches Some(p) && (pattern_matches(p, c.klass@) || pattern_matches(
            p,
            c.instance@,
        ) || pattern_matches(p, c.name@)),
    ensures
        has_all(retagged_client(c, tags, views, mode_flags), bit(i)),
{
    lemma_matched_has(c, tags, tags.len() as int, i);
    let t = matched_tags(c, tags, tags.len() as int);
    let b = bit(i);
    assert(forall|x: u32, y: u32| #![trigger (x | y)] (x & b) == b ==> ((x | y) & b) == b) by (bit_vector);
    assert(tagged(c.flags, t, 0, tags.len() as int) == t || tagged(c.flags, t, 0, tags.len() as int) == t | bit(0));
}

/// The number a restack order is sent as (see `RestackOrder::code`).
pub open spec fn order_number(o: RestackOrder) -> u32 {
    match o {
        RestackOrder::Unset => 0,
        RestackOrder::Down => 1,
        RestackOrder::Up => 2,
    }
}

/// The name of the grab that restacks a window in order `o`.
pub open spec fn restack_name(o: RestackOrder) -> Seq<char> {
    match o {
        RestackOrder::Unset => "window_stack"@,
        RestackOrder::Down => "window_lower"@,
        RestackOrder::Up => "window_raise"@,
    }
}

/// The restack grabs name their order: `window_raise` restacks up and
/// `window_lower` restacks down.
pub proof fn lemma_restack_names(o: RestackOrder)
    requires
        o != RestackOrder::Unset,
    ensures
        grab_of_name(restack_name(o)) == Ok::<(u32, ActionValue), GrabError>(
            (WINDOW_RESTACK, ActionValue::Index(order_number(o))),
        ),
{
    reveal_strlit("window_raise");
    reveal_strlit("window_lower");
    reveal_strlit("subtle_reload");
    reveal_strlit("subtle_restart");
    reveal_strlit("subtle_quit");
    reveal_strlit("window_toggle");
    reveal_strlit("window_stack");
    reveal_strlit("window_select");
    reveal_strlit("window_gravity");
    reveal_strlit("window_kill");
    reveal_strlit("window_float");
    reveal_strlit("window_full");
    reveal_strlit("window_stick");
    reveal_strlit("window_zaphod");
}

/// The name of the grab that toggles mode `mode`: one of float,
/// fullscreen, stick and zaphod mode.
pub open spec fn mode_name(mode: u32) -> Seq<char> {
    if mode == MODE_FLOAT {
        "window_float"@
    } else if mode == MODE_FULL {
        "window_full"@
    } else if mode == MODE_STICK {
        "window_stick"@
    } else {
        "window_zaphod"@
    }
}

/// The mode grabs name the mode they toggle: `window_float`, `window_full`,
/// `window_stick` and `window_zaphod` toggle float, fullscreen, stick and
/// zaphod mode.
pub proof fn lemma_mode_names(mode: u32)
    requires
        mode == MODE_FLOAT || mode == MODE_FULL || mode == MODE_STICK || mode == MODE_ZAPHOD,
    ensures
        grab_of_name(mode_name(mode)) == Ok::<(u32, ActionValue), GrabError>((WINDOW_MODE, ActionValue::Index(mode))),
{
    reveal_strlit("subtle_reload");
    reveal_strlit("subtle_restart");
    reveal_strlit("subtle_quit");
    reveal_strlit("window_toggle");
    reveal_strlit("window_stack");
    reveal_strlit("window_select");
    reveal_strlit("window_gravity");
    reveal_strlit("window_kill");
    reveal_strlit("window_float");
    reveal_strlit("window_full");
    reveal_strlit("window_stick");
    reveal_strlit("window_zaphod");
    if mode == MODE_FLOAT {
        assert(grab_of_name("window_float"@) == Ok::<(u32, ActionValue), GrabError>(
            (WINDOW_MODE, ActionValue::Index(MODE_FLOAT)),
        ));
    } else if mode == MODE_FULL {
        assert("window_full"@[7] != "window_kill"@[7]);
        assert(grab_of_name("window_full"@) == Ok::<(u32, ActionValue), GrabError>(
            (WINDOW_MODE, ActionValue::Index(MODE_FULL)),
        ));
    } else if mode == MODE_STICK {
        assert(grab_of_name("window_stick"@) == Ok::<(u32, ActionValue), GrabError>(
            (WINDOW_MODE, ActionValue::Index(MODE_STICK)),
        ));
    } else {
        assert(grab_of_name("window_zaphod"@) == Ok::<(u32, ActionValue), GrabError>(
            (WINDOW_MODE, ActionValue::Index(MODE_ZAPHOD)),
        ));
    }
}

/// Making a window a desktop or dock with a known screen gives it the
/// screen's whole area without the panels it has: a top panel moves the top
/// edge down by the panel height, and each panel takes that height off.
pub proof fn lemma_desktop_area(c: Client, mode: u32, sc: Screen, ph: u16)
    requires
        has_all(mode, TYPE_DESKTOP | TYPE_DOCK),
        ({
            let top = if has_all(sc.flags, TOP_PANEL) { ph as int } else { 0 };
            let bottom = if has_all(sc.flags, BOTTOM_PANEL) { ph as int } else { 0 };
            &&& sc.base.y + top <= i16::MAX
            &&& has_all(sc.flags, TOP_PANEL) ==> ph <= i16::MAX
            &&& sc.base.height - top - bottom >= 0
        }),
    ensures
        ({
            let top = if has_all(sc.flags, TOP_PANEL) { ph as int } else { 0 };
            let bottom = if has_all(sc.flags, BOTTOM_PANEL) { ph as int } else { 0 };
            let g = toggled_geom(c, mode, Some(sc), ph);
            &&& g.x == sc.base.x
            &&& g.y == sc.base.y + top
            &&& g.width == sc.base.width
            &&& g.height == sc.base.height - top - bottom
        }),
{
}

} // verus!
