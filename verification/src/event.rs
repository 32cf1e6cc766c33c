//! Decisions on events of the X server: what a key press asks for.

use vstd::prelude::*;
use crate::bits::{has_any, intersects};
use crate::client::{Client, visible_with, DEAD, MODE_FLOAT, MODE_FULL, MODE_STICK, MODE_URGENT, UNMAP};
use crate::grab::{
    Grab, GrabAction, ActionValue, IS_KEY, IS_MOUSE, MOD_1, MOD_4, MOD_CONTROL, MOD_SHIFT, SUBTLE_QUIT,
    VIEW_SELECT, VIEW_SWITCH, WINDOW_GRAVITY, WINDOW_KILL, WINDOW_MODE,
};
use crate::screen::{Screen, find_screen_by_xy, screen_at, screens_fit};
use crate::subtle::{SUBTLE_CLICK_TO_FOCUS, SUBTLE_SKIP_POINTER_WARP};
use crate::toggle::KNOWN_FLAGS;

verus! {

/// The modifiers that grabs are told apart by.
pub const RELEVANT_MODIFIERS: u16 = MOD_SHIFT | MOD_CONTROL | MOD_1 | MOD_4;

/// The modifiers of a key press that grabs are told apart by.
pub fn relevant_modifiers(state: u16) -> (r: u16)
    ensures
        r == state & RELEVANT_MODIFIERS,
{
    state & RELEVANT_MODIFIERS
}

/// What a key press asks for.
#[derive(Clone, Copy, Debug, PartialEq, Eq, Structural)]
pub enum KeyAction {
    /// Nothing to do.
    Nothing,
    /// Focus view `view` on screen `screen` (`-1` for none), swapping views
    /// with another screen when `swap`.
    FocusView { view: usize, screen: isize, swap: bool },
    /// Toggle these modes of the focused client.
    ToggleMode(u32),
    /// Remove the modes `modes` of the focused client (where not zero) and
    /// then reset its gravity when `reset_gravity`, arrange it with gravity
    /// `gravity`, and warp the pointer to it when `warp`.
    Gravity { modes: u32, reset_gravity: bool, gravity: usize, warp: bool },
    /// Close the focused client.
    Kill,
    /// Quit the window manager.
    Quit,
}

/// Why a key press could not be handled.
#[derive(Clone, Copy, Debug, PartialEq, Eq, Structural)]
pub enum KeyError {
    /// The mode grab holds bits that are no client flags.
    UnknownFlags,
    /// The gravity grab lists no gravity.
    NoGravity,
}

/// The client that has the focus, as a key press sees it.
#[derive(Clone, Copy, Debug, PartialEq, Eq, Structural)]
pub struct FocusedClient {
    pub flags: u32,
    pub tags: u32,
    pub screen_idx: isize,
    pub gravity_idx: isize,
}

/// The next gravity of a client cycling through `ids`: where its current
/// gravity stands at position `p` of the list, the gravity numbered `p + 1`
/// (a position past the list's end included); with a gravity not in the
/// list, the first id.
pub open spec fn next_gravity_of(ids: Seq<usize>, current: isize) -> Option<int> {
    if ids.len() == 0 {
        None
    } else {
        match first_position(ids, current, 0) {
            Some(p) => Some(p + 1),
            None => Some(ids[0] as int),
        }
    }
}

/// The first position from `i` on in `ids` of the gravity `current`.
pub open spec fn first_position(ids: Seq<usize>, current: isize, i: int) -> Option<int>
    decreases ids.len() - i,
{
    if i < 0 || i >= ids.len() {
        None
    } else if current == ids[i] as int {
        Some(i)
    } else {
        first_position(ids, current, i + 1)
    }
}

/// The next gravity of a client cycling through the gravity ids of a grab
/// (see `next_gravity_of`); `None` when the list is empty.
pub fn next_gravity(ids: &Vec<usize>, current: isize) -> (r: Option<usize>)
    ensures
        match r {
            Some(g) => next_gravity_of(ids@, current) == Some(g as int),
            None => next_gravity_of(ids@, current) is None,
        },
{
    if ids.len() == 0 {
        return None;
    }
    let mut i: usize = 0;
    while i < ids.len()
        invariant
            i <= ids.len(),
            ids.len() > 0,
            first_position(ids@, current, 0) == first_position(ids@, current, i as int),
        decreases ids.len() - i,
    {
        if current >= 0 && current as usize == ids[i] {
            return Some(i + 1);
        }
        i = i + 1;
    }
    Some(ids[0])
}

/// The screen that a view grab focuses its view on: with pointer warps
/// skipped, the screen of a shown focused client; else the screen under the
/// pointer; else none (`-1`).
pub open spec fn view_screen(
    settings_flags: u32,
    focus: Option<FocusedClient>,
    visible_tags: u32,
    screens: Seq<Screen>,
    x: i16,
    y: i16,
) -> isize {
    if has_any(settings_flags, SUBTLE_SKIP_POINTER_WARP) && focus is Some && visible_with(
        visible_tags,
        focus.unwrap().flags,
        focus.unwrap().tags,
    ) {
        focus.unwrap().screen_idx
    } else {
        match screen_at(screens, x as int, y as int) {
            Some(k) => #[verifier::truncate] (k as isize),
            None => -1isize,
        }
    }
}

/// What a key press of `grab` asks for: view grabs focus their view (its
/// index counts from one) on `view_screen`, switching swaps views; mode
/// grabs toggle the modes of the focused client; gravity grabs drop its
/// float and full modes (resetting its gravity when it had one of them),
/// move it on to the next gravity and warp the pointer to it unless pointer
/// warps are skipped; kill and quit
/// grabs close the client or quit.
pub open spec fn key_action_of(
    flags: u32,
    action: ActionValue,
    nviews: int,
    settings_flags: u32,
    focus: Option<FocusedClient>,
    visible_tags: u32,
    screens: Seq<Screen>,
    x: i16,
    y: i16,
) -> Result<KeyAction, KeyError> {
    let flag = flags & !(IS_KEY | IS_MOUSE);
    if flag == VIEW_SWITCH || flag == VIEW_SELECT {
        match action {
            ActionValue::Index(idx) => if 1 <= idx && idx - 1 < nviews {
                Ok(
                    KeyAction::FocusView {
                        view: (idx - 1) as usize,
                        screen: view_screen(settings_flags, focus, visible_tags, screens, x, y),
                        swap: flag == VIEW_SWITCH,
                    },
                )
            } else {
                Ok(KeyAction::Nothing)
            },
            _ => Ok(KeyAction::Nothing),
        }
    } else if flag == WINDOW_MODE {
        match (focus, action) {
            (Some(_), ActionValue::Index(bits)) => if bits & !KNOWN_FLAGS != 0 {
                Err(KeyError::UnknownFlags)
            } else {
                Ok(KeyAction::ToggleMode(bits))
            },
            _ => Ok(KeyAction::Nothing),
        }
    } else if flag == WINDOW_GRAVITY {
        match (focus, action) {
            (Some(c), ActionValue::List(ids)) => {
                let modes = c.flags & (MODE_FLOAT | MODE_FULL);
                let current = if modes != 0 {
                    -1isize
                } else {
                    c.gravity_idx
                };
                match next_gravity_of(ids, current) {
                    Some(g) => Ok(
                        KeyAction::Gravity {
                            modes,
                            reset_gravity: modes != 0,
                            gravity: g as usize,
                            warp: !has_any(settings_flags, SUBTLE_SKIP_POINTER_WARP),
                        },
                    ),
                    None => Err(KeyError::NoGravity),
                }
            },
            _ => Ok(KeyAction::Nothing),
        }
    } else if flag == WINDOW_KILL {
        if focus is Some {
            Ok(KeyAction::Kill)
        } else {
            Ok(KeyAction::Nothing)
        }
    } else if flag == SUBTLE_QUIT {
        Ok(KeyAction::Quit)
    } else {
        Ok(KeyAction::Nothing)
    }
}

/// Decide what a key press of `grab` asks for (see `key_action_of`), given
/// the number of views, the settings' flags, the focused client, the visible
/// tags, the screens and the pointer position of the press.
pub fn key_action(
    grab: &Grab,
    nviews: usize,
    settings_flags: u32,
    focus: Option<FocusedClient>,
    visible_tags: u32,
    screens: &Vec<Screen>,
    x: i16,
    y: i16,
) -> (r: Result<KeyAction, KeyError>)
    requires
        screens_fit(screens@),
    ensures
        r == key_action_of(
            grab.flags,
            grab.action.value(),
            nviews as int,
            settings_flags,
            focus,
            visible_tags,
            screens@,
            x,
            y,
        ),
{
    let flag = grab.flags & !(IS_KEY | IS_MOUSE);
    if flag == VIEW_SWITCH || flag == VIEW_SELECT {
        match &grab.action {
            GrabAction::Index(idx) => {
                let idx = *idx;
                if 1 <= idx && ((idx - 1) as usize) < nviews {
                    let mut screen: isize = -1;
                    let focus_shown = match focus {
                        Some(c) => visible_with_flags(visible_tags, c.flags, c.tags),
                        None => false,
                    };
                    if intersects(settings_flags, SUBTLE_SKIP_POINTER_WARP) && focus_shown {
                        screen = focus.unwrap().screen_idx;
                    } else if let Some(k) = find_screen_by_xy(screens, x, y) {
                        screen = #[verifier::truncate] (k as isize);
                    }
                    Ok(KeyAction::FocusView { view: (idx - 1) as usize, screen, swap: flag == VIEW_SWITCH })
                } else {
                    Ok(KeyAction::Nothing)
                }
            },
            _ => Ok(KeyAction::Nothing),
        }
    } else if flag == WINDOW_MODE {
        match (focus, &grab.action) {
            (Some(_), GrabAction::Index(bits)) => if *bits & !KNOWN_FLAGS != 0 {
                Err(KeyError::UnknownFlags)
            } else {
                Ok(KeyAction::ToggleMode(*bits))
            },
            _ => Ok(KeyAction::Nothing),
        }
    } else if flag == WINDOW_GRAVITY {
        match (focus, &grab.action) {
            (Some(c), GrabAction::List(ids)) => {
                let modes = c.flags & (MODE_FLOAT | MODE_FULL);
                let current = if modes != 0 {
                    -1isize
                } else {
                    c.gravity_idx
                };
                match next_gravity(ids, current) {
                    Some(g) => Ok(
                        KeyAction::Gravity {
                            modes,
                            reset_gravity: modes != 0,
                            gravity: g,
                            warp: !intersects(settings_flags, SUBTLE_SKIP_POINTER_WARP),
                        },
                    ),
                    None => Err(KeyError::NoGravity),
                }
            },
            _ => Ok(KeyAction::Nothing),
        }
    } else if flag == WINDOW_KILL {
        if focus.is_some() {
            Ok(KeyAction::Kill)
        } else {
            Ok(KeyAction::Nothing)
        }
    } else if flag == SUBTLE_QUIT {
        Ok(KeyAction::Quit)
    } else {
        Ok(KeyAction::Nothing)
    }
}

/// What follows toggling the modes of the focused client.
#[derive(Clone, Copy, Debug, PartialEq, Eq, Structural)]
pub enum AfterToggle {
    /// Nothing more.
    Nothing,
    /// Configure the screens, update and render the panels.
    Refresh,
    /// Focus the next client on the client's screen, then refresh.
    FocusNextAndRefresh,
}

/// What follows toggling: a client still shown makes the screens refresh;
/// one hidden by switching exactly stick mode also passes the focus on.
pub open spec fn after_toggle_of(visible: bool, mode_flags: u32) -> AfterToggle {
    if visible {
        AfterToggle::Refresh
    } else if mode_flags == MODE_STICK {
        AfterToggle::FocusNextAndRefresh
    } else {
        AfterToggle::Nothing
    }
}

/// Decide what follows toggling the modes of the focused client, from
/// whether it is shown afterwards and the mode flags the toggle left (see
/// `after_toggle_of`).
pub fn after_mode_toggle(visible: bool, mode_flags: u32) -> (r: AfterToggle)
    ensures
        r == after_toggle_of(visible, mode_flags),
{
    if visible {
        AfterToggle::Refresh
    } else if mode_flags == MODE_STICK {
        AfterToggle::FocusNextAndRefresh
    } else {
        AfterToggle::Nothing
    }
}

/// Whether a client with these flags and tags is shown.
fn visible_with_flags(visible_tags: u32, flags: u32, tags: u32) -> (r: bool)
    ensures
        r == visible_with(visible_tags, flags, tags),
{
    intersects(visible_tags, tags) || intersects(flags, crate::client::TYPE_DESKTOP | crate::client::MODE_STICK)
}


/// The modes that a changed property asks for and the client lacks: those
/// are switched on.
pub fn enable_only(flags: u32, mode_flags: u32) -> (r: u32)
    ensures
        r == !flags & mode_flags,
{
    !flags & mode_flags
}

/// Whether entering a client's window gives it the focus: unless the focus
/// follows clicks.
pub fn focus_on_enter(settings_flags: u32) -> (r: bool)
    ensures
        r == !has_any(settings_flags, SUBTLE_CLICK_TO_FOCUS),
{
    !intersects(settings_flags, SUBTLE_CLICK_TO_FOCUS)
}

impl Client {
    /// The client got the focus: an urgent client is no longer urgent, and
    /// its tags leave the urgent tags. Returns the new urgent tags.
    pub fn focus_in(&mut self, urgent_tags: u32) -> (r: u32)
        ensures
            has_any(old(self).flags, MODE_URGENT) ==> final(self).flags == old(self).flags & !MODE_URGENT && r
                == urgent_tags & !old(self).tags,
            !has_any(old(self).flags, MODE_URGENT) ==> final(self).flags == old(self).flags && r == urgent_tags,
            *final(self) == (Client { flags: final(self).flags, ..*old(self) }),
    {
        if intersects(self.flags, MODE_URGENT) {
            self.flags = self.flags & !MODE_URGENT;
            urgent_tags & !self.tags
        } else {
            urgent_tags
        }
    }

    /// The client's window was unmapped: an unmap the window manager caused
    /// is ignored once (returns true); any other means the client is gone.
    pub fn unmapped(&mut self) -> (r: bool)
        ensures
            r == has_all_flags(old(self).flags, UNMAP),
            r ==> final(self).flags == old(self).flags & !UNMAP,
            !r ==> final(self).flags == old(self).flags,
            *final(self) == (Client { flags: final(self).flags, ..*old(self) }),
    {
        if crate::bits::contains(self.flags, UNMAP) {
            self.flags = self.flags & !UNMAP;
            true
        } else {
            false
        }
    }
}

/// All bits of `mask` are set in `flags`.
pub open spec fn has_all_flags(flags: u32, mask: u32) -> bool {
    crate::bits::has_all(flags, mask)
}

/// A destroyed window that is no client may lead clients: mark each client
/// it leads as dead.
pub fn mark_led_dead(clients: &mut Vec<Client>, win: u32)
    ensures
        final(clients)@.len() == old(clients)@.len(),
        forall|i: int|
            0 <= i < old(clients)@.len() ==> {
                let a = #[trigger] final(clients)@[i];
                let b = old(clients)@[i];
                &&& a.flags == (if b.leader == win {
                    b.flags | DEAD
                } else {
                    b.flags
                })
                &&& a == (Client { flags: a.flags, ..b })
            },
{
    let mut i: usize = 0;
    while i < clients.len()
        invariant
            i <= clients.len(),
            clients@.len() == old(clients)@.len(),
            forall|k: int|
                0 <= k < old(clients)@.len() ==> {
                    let a = #[trigger] clients@[k];
                    let b = old(clients)@[k];
                    &&& a.flags == (if k < i && b.leader == win {
                        b.flags | DEAD
                    } else {
                        b.flags
                    })
                    &&& a == (Client { flags: a.flags, ..b })
                },
        decreases clients.len() - i,
    {
        if clients[i].leader == win {
            let f = clients[i].flags | DEAD;
            clients[i].flags = f;
        }
        i = i + 1;
    }
}

} // verus!
