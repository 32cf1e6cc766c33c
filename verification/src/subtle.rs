//! Global settings of the window manager and the lookups over its clients,
//! grabs and focus history.

use vstd::prelude::*;
use crate::bits::{has_any, intersects};
use crate::client::{Client, visible_with, DEAD};
use crate::config::{ConfigTable, MixedConfigVal};
use crate::grab::Grab;

verus! {

/// Debug enabled.
pub const SUBTLE_DEBUG: u32 = 1;
/// Check the configuration.
pub const SUBTLE_CHECK: u32 = 2;
/// Urgent transients.
pub const SUBTLE_URGENT: u32 = 4;
/// Respect size hints.
pub const SUBTLE_RESIZE: u32 = 8;
/// Xinerama is used.
pub const SUBTLE_XINERAMA: u32 = 16;
/// Xrandr is used.
pub const SUBTLE_XRANDR: u32 = 32;
/// Xft is used.
pub const SUBTLE_XFT: u32 = 64;
/// EWMH is set.
pub const SUBTLE_EWMH: u32 = 128;
/// Replace the running window manager.
pub const SUBTLE_REPLACE: u32 = 256;
/// Restart.
pub const SUBTLE_RESTART: u32 = 512;
/// Reload the configuration.
pub const SUBTLE_RELOAD: u32 = 1024;
/// Use the tray.
pub const SUBTLE_TRAY: u32 = 2048;
/// Tile clients of the same gravity.
pub const SUBTLE_GRAVITY_TILING: u32 = 4096;
/// Focus on click.
pub const SUBTLE_CLICK_TO_FOCUS: u32 = 8192;
/// Do not warp the pointer.
pub const SUBTLE_SKIP_POINTER_WARP: u32 = 16384;
/// Do not warp to urgent clients.
pub const SUBTLE_SKIP_URGENT_WARP: u32 = 32768;

/// Number of windows in the focus history.
pub const HISTORY_SIZE: usize = 5;

/// Global settings of the window manager.
#[derive(Clone, Copy, Debug, PartialEq, Eq, Structural)]
pub struct Settings {
    pub flags: u32,
    pub width: u16,
    pub height: u16,
    pub panel_height: u16,
    pub step_size: i16,
    pub snap_size: u16,
    pub default_gravity: isize,
}

impl Settings {
    /// Settings before the configuration is read.
    pub open spec fn spec_default() -> Settings {
        Settings {
            flags: 0,
            width: 0,
            height: 0,
            panel_height: 1,
            step_size: 0,
            snap_size: 0,
            default_gravity: 0,
        }
    }
}

impl Default for Settings {
    fn default() -> (s: Settings)
        ensures
            s == Settings::spec_default(),
    {
        Settings { flags: 0, width: 0, height: 0, panel_height: 1, step_size: 0, snap_size: 0, default_gravity: 0 }
    }
}

/// The flag that a switch of the configuration sets when it is true.
pub open spec fn switch_flag(table: ConfigTable, key: Seq<char>, flag: u32) -> u32 {
    match table.value_of(key) {
        Some(MixedConfigVal::B(true)) => flag,
        _ => 0,
    }
}

/// The flags that the command line and the configuration's switches set.
pub open spec fn settings_flags(replace: bool, debug: bool, table: ConfigTable) -> u32 {
    (if replace {
        SUBTLE_REPLACE
    } else {
        0
    }) | (if debug {
        SUBTLE_DEBUG
    } else {
        0
    }) | switch_flag(table, "urgent_dialogs"@, SUBTLE_URGENT) | switch_flag(
        table,
        "honor_size_hints"@,
        SUBTLE_RESIZE,
    ) | switch_flag(table, "gravity_tiling"@, SUBTLE_GRAVITY_TILING) | switch_flag(
        table,
        "click_to_focus"@,
        SUBTLE_CLICK_TO_FOCUS,
    ) | switch_flag(table, "skip_pointer_warp"@, SUBTLE_SKIP_POINTER_WARP) | switch_flag(
        table,
        "skip_urgent_warp"@,
        SUBTLE_SKIP_URGENT_WARP,
    )
}

/// Set `flag` when the switch `key` is true.
fn apply_switch(table: &ConfigTable, key: &str, flag: u32) -> (r: u32)
    ensures
        r == switch_flag(*table, key@, flag),
{
    match table.get(key) {
        Some(MixedConfigVal::B(v)) => if *v {
            flag
        } else {
            0
        },
        _ => 0,
    }
}

/// The settings from the command line switches `replace` and `debug` and
/// the `subtle` table of the configuration: `increase_step` and
/// `border_snap` (integers, cut to 16 bits) and the switches
/// `urgent_dialogs`, `honor_size_hints`, `gravity_tiling`, `click_to_focus`,
/// `skip_pointer_warp` and `skip_urgent_warp`.
pub fn settings_from(replace: bool, debug: bool, table: &ConfigTable) -> (s: Settings)
    ensures
        s.flags == settings_flags(replace, debug, *table),
        s.step_size == (match table.value_of("increase_step"@) {
            Some(MixedConfigVal::I(v)) => #[verifier::truncate] (v as i16),
            _ => 0i16,
        }),
        s.snap_size == (match table.value_of("border_snap"@) {
            Some(MixedConfigVal::I(v)) => #[verifier::truncate] (v as u16),
            _ => 0u16,
        }),
        s.width == 0,
        s.height == 0,
        s.panel_height == 1,
        s.default_gravity == 0,
{
    let mut s = Settings::default();
    if let Some(MixedConfigVal::I(v)) = table.get("increase_step") {
        s.step_size = #[verifier::truncate] (*v as i16);
    }
    if let Some(MixedConfigVal::I(v)) = table.get("border_snap") {
        s.snap_size = #[verifier::truncate] (*v as u16);
    }
    let r = if replace {
        SUBTLE_REPLACE
    } else {
        0
    };
    let d = if debug {
        SUBTLE_DEBUG
    } else {
        0
    };
    let flags = r | d | apply_switch(table, "urgent_dialogs", SUBTLE_URGENT) | apply_switch(
        table,
        "honor_size_hints",
        SUBTLE_RESIZE,
    ) | apply_switch(table, "gravity_tiling", SUBTLE_GRAVITY_TILING) | apply_switch(
        table,
        "click_to_focus",
        SUBTLE_CLICK_TO_FOCUS,
    ) | apply_switch(table, "skip_pointer_warp", SUBTLE_SKIP_POINTER_WARP) | apply_switch(
        table,
        "skip_urgent_warp",
        SUBTLE_SKIP_URGENT_WARP,
    );
    s.flags = flags;
    s
}

/// Index of the first client of window `win`, searching from index `i` on.
pub open spec fn client_of_win(clients: Seq<Client>, win: u32, i: int) -> Option<int>
    decreases clients.len() - i,
{
    if i < 0 || i >= clients.len() {
        None
    } else if clients[i].win == win {
        Some(i)
    } else {
        client_of_win(clients, win, i + 1)
    }
}

/// Index of the client of window `win`.
pub fn find_client(clients: &Vec<Client>, win: u32) -> (r: Option<usize>)
    ensures
        match r {
            Some(k) => k < clients.len() && client_of_win(clients@, win, 0) == Some(k as int),
            None => client_of_win(clients@, win, 0) is None,
        },
{
    let mut i: usize = 0;
    while i < clients.len()
        invariant
            i <= clients.len(),
            client_of_win(clients@, win, 0) == client_of_win(clients@, win, i as int),
        decreases clients.len() - i,
    {
        if clients[i].win == win {
            return Some(i);
        }
        i = i + 1;
    }
    None
}

/// The window that has the focus: the first of the focus history, or none (0).
pub open spec fn focus_win_of(history: Seq<u32>) -> u32 {
    if history.len() > 0 {
        history[0]
    } else {
        0
    }
}

/// The window that has the focus, or none (0).
pub fn find_focus_win(history: &Vec<u32>) -> (r: u32)
    ensures
        r == focus_win_of(history@),
{
    if history.len() > 0 && history[0] != 0 {
        history[0]
    } else {
        0
    }
}

/// Index of the client that has the focus.
pub fn find_focus_client(clients: &Vec<Client>, history: &Vec<u32>) -> (r: Option<usize>)
    ensures
        history.len() == 0 ==> r is None,
        history.len() > 0 ==> match r {
            Some(k) => client_of_win(clients@, history@[0], 0) == Some(k as int),
            None => client_of_win(clients@, history@[0], 0) is None,
        },
{
    if history.len() > 0 {
        find_client(clients, history[0])
    } else {
        None
    }
}

/// Index of the first grab of key code `code` with exactly `modifiers`,
/// searching from index `i` on.
pub open spec fn grab_of_key(grabs: Seq<Grab>, code: u8, modifiers: u16, i: int) -> Option<int>
    decreases grabs.len() - i,
{
    if i < 0 || i >= grabs.len() {
        None
    } else if grabs[i].keycode == code && grabs[i].modifiers == modifiers {
        Some(i)
    } else {
        grab_of_key(grabs, code, modifiers, i + 1)
    }
}

/// Index of the first grab of a key code with exactly these modifiers.
pub fn find_grab(grabs: &Vec<Grab>, code: u8, modifiers: u16) -> (r: Option<usize>)
    ensures
        match r {
            Some(k) => grab_of_key(grabs@, code, modifiers, 0) == Some(k as int),
            None => grab_of_key(grabs@, code, modifiers, 0) is None,
        },
{
    let mut i: usize = 0;
    while i < grabs.len()
        invariant
            i <= grabs.len(),
            grab_of_key(grabs@, code, modifiers, 0) == grab_of_key(grabs@, code, modifiers, i as int),
        decreases grabs.len() - i,
    {
        if grabs[i].keycode == code && grabs[i].modifiers == modifiers {
            return Some(i);
        }
        i = i + 1;
    }
    None
}

/// The clients without those of window `win`, in their order.
pub open spec fn without_win(clients: Seq<Client>, win: u32) -> Seq<Client>
    decreases clients.len(),
{
    if clients.len() == 0 {
        seq![]
    } else {
        let rest = without_win(clients.drop_last(), win);
        if clients.last().win == win {
            rest
        } else {
            rest.push(clients.last())
        }
    }
}

/// Remove the clients of window `win`, keeping the order of the others.
pub fn remove_client_by_win(clients: &mut Vec<Client>, win: u32)
    ensures
        final(clients)@ == without_win(old(clients)@, win),
{
    let mut kept: Vec<Client> = Vec::new();
    let mut all: Vec<Client> = Vec::new();
    std::mem::swap(&mut all, clients);
    let ghost start = all@;
    assert(start.len() == all.len());
    let mut rev: Vec<Client> = Vec::new();
    while all.len() > 0
        invariant
            start == all@ + rev@.reverse(),
            start.len() <= usize::MAX,
        decreases all.len(),
    {
        let c = all.pop().unwrap();
        proof {
            assert(rev@.push(c).reverse() =~= seq![c] + rev@.reverse());
        }
        rev.push(c);
    }
    assert(start =~= rev@.reverse());
    let mut i: usize = 0;
    while rev.len() > 0
        invariant
            start == start.subrange(0, i as int) + rev@.reverse(),
            i + rev@.len() == start.len(),
            start.len() <= usize::MAX,
            kept@ == without_win(start.subrange(0, i as int), win),
        decreases rev.len(),
    {
        let ghost r = rev@;
        let c = rev.pop().unwrap();
        proof {
            assert(r.reverse() =~= seq![c] + rev@.reverse());
            assert(start[i as int] == c);
            assert(start.subrange(0, i + 1).drop_last() =~= start.subrange(0, i as int));
            assert(start =~= start.subrange(0, i + 1) + rev@.reverse());
        }
        if c.win != win {
            kept.push(c);
        }
        i = i + 1;
    }
    assert(start.subrange(0, i as int) =~= start);
    *clients = kept;
}

/// A client that can take the focus on screen `screen_idx`: on that screen,
/// alive and shown.
pub open spec fn focusable_on(c: Client, screen_idx: isize, visible_tags: u32) -> bool {
    c.screen_idx == screen_idx && !has_any(c.flags, DEAD) && visible_with(visible_tags, c.flags, c.tags)
}

/// Pass one of finding the next focus: the first window of the history from
/// index `h` on whose client is focusable on the screen and has no focus.
pub open spec fn next_in_history(
    clients: Seq<Client>,
    history: Seq<u32>,
    screen_idx: isize,
    visible_tags: u32,
    h: int,
) -> Option<int>
    decreases history.len() - h,
{
    if h < 0 || h >= history.len() {
        None
    } else {
        match client_of_win(clients, history[h], 0) {
            Some(k) => if focusable_on(clients[k], screen_idx, visible_tags) && focus_win_of(history)
                != clients[k].win {
                Some(k)
            } else {
                next_in_history(clients, history, screen_idx, visible_tags, h + 1)
            },
            None => next_in_history(clients, history, screen_idx, visible_tags, h + 1),
        }
    }
}

/// The first client from index `i` on that is focusable on the screen.
pub open spec fn next_on_screen(clients: Seq<Client>, screen_idx: isize, visible_tags: u32, i: int) -> Option<int>
    decreases clients.len() - i,
{
    if i < 0 || i >= clients.len() {
        None
    } else if focusable_on(clients[i], screen_idx, visible_tags) {
        Some(i)
    } else {
        next_on_screen(clients, screen_idx, visible_tags, i + 1)
    }
}

/// The first client from index `i` on that is alive, shown and has no focus.
pub open spec fn next_anywhere(clients: Seq<Client>, focus_win: u32, visible_tags: u32, i: int) -> Option<int>
    decreases clients.len() - i,
{
    if i < 0 || i >= clients.len() {
        None
    } else if !has_any(clients[i].flags, DEAD) && visible_with(visible_tags, clients[i].flags, clients[i].tags)
        && focus_win != clients[i].win {
        Some(i)
    } else {
        next_anywhere(clients, focus_win, visible_tags, i + 1)
    }
}

/// The client that gets the focus next on a screen: first from the focus
/// history, then from the clients on the screen, then (with `jump_to_win`
/// and more than one client) from any shown client.
pub open spec fn next_focus(
    clients: Seq<Client>,
    history: Seq<u32>,
    screen_idx: isize,
    jump_to_win: bool,
    visible_tags: u32,
) -> Option<int> {
    match next_in_history(clients, history, screen_idx, visible_tags, 0) {
        Some(k) => Some(k),
        None => match next_on_screen(clients, screen_idx, visible_tags, 0) {
            Some(k) => Some(k),
            None => if clients.len() > 1 && jump_to_win {
                next_anywhere(clients, focus_win_of(history), visible_tags, 0)
            } else {
                None
            },
        },
    }
}

/// Find the client that gets the focus next on screen `screen_idx` (see
/// `next_focus`).
pub fn find_next(
    clients: &Vec<Client>,
    history: &Vec<u32>,
    screen_idx: isize,
    jump_to_win: bool,
    visible_tags: u32,
) -> (r: Option<usize>)
    ensures
        match r {
            Some(k) => next_focus(clients@, history@, screen_idx, jump_to_win, visible_tags) == Some(k as int),
            None => next_focus(clients@, history@, screen_idx, jump_to_win, visible_tags) is None,
        },
{
    let focus_win = find_focus_win(history);
    let mut h: usize = 0;
    while h < history.len()
        invariant
            h <= history.len(),
            focus_win == focus_win_of(history@),
            next_in_history(clients@, history@, screen_idx, visible_tags, 0) == next_in_history(
                clients@,
                history@,
                screen_idx,
                visible_tags,
                h as int,
            ),
        decreases history.len() - h,
    {
        if let Some(k) = find_client(clients, history[h]) {
            let c = &clients[k];
            if c.screen_idx == screen_idx && c.is_alive() && c.is_visible(visible_tags) && focus_win != c.win {
                return Some(k);
            }
        }
        h = h + 1;
    }
    let mut i: usize = 0;
    while i < clients.len()
        invariant
            i <= clients.len(),
            next_in_history(clients@, history@, screen_idx, visible_tags, 0) is None,
            next_on_screen(clients@, screen_idx, visible_tags, 0) == next_on_screen(
                clients@,
                screen_idx,
                visible_tags,
                i as int,
            ),
        decreases clients.len() - i,
    {
        let c = &clients[i];
        if c.screen_idx == screen_idx && c.is_alive() && c.is_visible(visible_tags) {
            return Some(i);
        }
        i = i + 1;
    }
    if clients.len() > 1 && jump_to_win {
        let mut j: usize = 0;
        while j < clients.len()
            invariant
                j <= clients.len(),
                clients.len() > 1 && jump_to_win,
                next_in_history(clients@, history@, screen_idx, visible_tags, 0) is None,
                next_on_screen(clients@, screen_idx, visible_tags, 0) is None,
                focus_win == focus_win_of(history@),
                next_anywhere(clients@, focus_win, visible_tags, 0) == next_anywhere(
                    clients@,
                    focus_win,
                    visible_tags,
                    j as int,
                ),
            decreases clients.len() - j,
        {
            let c = &clients[j];
            if c.is_alive() && c.is_visible(visible_tags) && focus_win != c.win {
                return Some(j);
            }
            j = j + 1;
        }
    }
    None
}

/// The focus history of a new window manager: `HISTORY_SIZE` empty slots.
pub fn initial_focus_history() -> (h: Vec<u32>)
    ensures
        h@.len() == HISTORY_SIZE,
        forall|i: int| 0 <= i < h@.len() ==> h@[i] == 0,
{
    let mut h: Vec<u32> = Vec::new();
    let mut i: usize = 0;
    while i < HISTORY_SIZE
        invariant
            i <= HISTORY_SIZE,
            h@.len() == i,
            forall|j: int| 0 <= j < h@.len() ==> h@[j] == 0,
        decreases HISTORY_SIZE - i,
    {
        h.push(0);
        i = i + 1;
    }
    h
}

/// Record `win` as the window that has the focus: it takes the first slot
/// of the history; an empty history stays empty.
pub fn remember_focus(history: &mut Vec<u32>, win: u32)
    ensures
        final(history)@ == (if old(history)@.len() > 0 {
            old(history)@.update(0, win)
        } else {
            old(history)@
        }),
{
    if history.len() > 0 {
        history.set(0, win);
    }
}

} // verus!
