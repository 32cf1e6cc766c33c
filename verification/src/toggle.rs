//! Toggling the modes of a client (float, fullscreen, stick, center, ...).

use vstd::prelude::*;
use crate::bits::{contains, intersects, has_all, has_any};
use crate::client::{Client, ALL_MODES, ARRANGE, MODE_BORDERLESS, MODE_CENTER, MODE_FIXED, MODE_FLOAT, MODE_FULL, MODE_STICK, MODE_STICK_SCREEN, MODE_URGENT, MODE_ZAPHOD, TYPE_DESKTOP, TYPE_DOCK};
use crate::ewmh::{NetWmState, EWMH_FULL, EWMH_FLOAT, EWMH_STICK, EWMH_URGENT};
use crate::rect::Rect;
use crate::screen::{Screen, pointer_screen, find_screen_by_pointer, screens_fit, screens_fit_check, TOP_PANEL, BOTTOM_PANEL};
use crate::style::fits_i16;
use crate::view::TagView;

verus! {

/// All flags a client knows of.
pub const KNOWN_FLAGS: u32 = 0x3f_ffffu32;

/// Modes whose toggling makes a client re-arrange.
pub const ARRANGE_MODES: u32 = MODE_FLOAT | MODE_STICK | MODE_FULL | MODE_ZAPHOD | MODE_BORDERLESS
    | MODE_CENTER;

/// A change to the window attributes of a client.
#[derive(Clone, Copy, Debug, PartialEq, Eq, Structural)]
pub enum WindowChange {
    /// Set the border width.
    BorderWidth(u32),
    /// Set the border color.
    BorderPixel(u32),
}

/// What toggling needs to know besides the client.
#[derive(Clone, Copy, Debug)]
pub struct ToggleContext {
    /// Also set the gravity of views that do not show the client.
    pub set_gravity: bool,
    /// Prefer the screen of the focus window over the pointer.
    pub skip_pointer_warp: bool,
    /// Whether the focus client is visible, and its screen, if there is one.
    pub focus: Option<(bool, isize)>,
    /// Pointer position on the root window, if the server answered.
    pub pointer: Option<(i16, i16)>,
    /// Border width of client windows.
    pub border_width: i16,
    /// Height of a panel.
    pub panel_height: u16,
}

/// The window changes and the published states after toggling.
#[derive(Debug)]
pub struct ToggleResult {
    pub changes: Vec<WindowChange>,
    pub net_states: Vec<NetWmState>,
    pub ewmh_flags: u32,
}

/// A one-element sequence when `cond` holds, else the empty sequence.
pub open spec fn seq_if<A>(cond: bool, a: A) -> Seq<A> {
    if cond {
        seq![a]
    } else {
        Seq::empty()
    }
}

/// Stick mode is switched on.
pub open spec fn stick_on(flags: u32, mode: u32) -> bool {
    has_all(mode, MODE_STICK) && !has_all(flags, MODE_STICK)
}

/// Flags after the arrange marker is set for modes that need it.
pub open spec fn arranged_flags(flags: u32, mode: u32) -> u32 {
    if has_any(mode, ARRANGE_MODES) {
        flags | ARRANGE
    } else {
        flags
    }
}

/// Gravities after switching stick mode on: views that do not show the
/// client take its current gravity.
pub open spec fn toggled_gravities(c: Client, mode: u32, views: Seq<TagView>, set_gravity: bool) -> Seq<usize> {
    if stick_on(arranged_flags(c.flags, mode), mode) && set_gravity {
        Seq::new(
            c.gravities@.len(),
            |i: int|
                if i < views.len() && !has_all(views[i].tags, c.tags) && c.gravity_idx != -1 {
                    c.gravity_idx as usize
                } else {
                    c.gravities@[i]
                },
        )
    } else {
        c.gravities@
    }
}

/// Screen after switching stick mode on: the focus client's screen or the
/// screen under the pointer, unless the client sticks to its screen.
pub open spec fn toggled_screen(c: Client, mode: u32, screens: Seq<Screen>, ctx: ToggleContext) -> isize {
    let f1 = arranged_flags(c.flags, mode);
    if stick_on(f1, mode) && !has_all(f1, MODE_STICK_SCREEN) {
        if ctx.skip_pointer_warp {
            match ctx.focus {
                Some((visible, s)) => if visible {
                    s
                } else {
                    c.screen_idx
                },
                None => c.screen_idx,
            }
        } else {
            match pointer_screen(screens, ctx.pointer) {
                Some(i) => i as isize,
                None => c.screen_idx,
            }
        }
    } else {
        c.screen_idx
    }
}

/// The screen with index `i`, if there is one.
pub open spec fn screen_of(screens: Seq<Screen>, i: isize) -> Option<Screen> {
    if 0 <= i < screens.len() {
        Some(screens[i as int])
    } else {
        None
    }
}

/// Fullscreen of a fixed-size client is refused when its minimum size is not
/// the screen size.
pub open spec fn full_refused(c: Client, mode: u32, s: Option<Screen>) -> bool {
    let f1 = arranged_flags(c.flags, mode);
    &&& has_all(mode, MODE_FULL)
    &&& !has_all(f1, MODE_FULL)
    &&& has_all(f1, MODE_FIXED)
    &&& s matches Some(s) && (s.base.width != c.min_width || s.base.height != c.min_height)
}

/// Half of `v`, rounded toward zero.
pub open spec fn half(v: int) -> int {
    if v >= 0 {
        v / 2
    } else {
        -((-v) / 2)
    }
}

/// Offset that centers a length inside another, leaving room for a border of
/// one pixel on each side.
pub open spec fn center_offset(outer: u16, inner: u16) -> int {
    half((outer as i16) - (inner as i16) - 2)
}

/// Center mode is switched on while a screen is known.
pub open spec fn center_on(c: Client, mode: u32, s: Option<Screen>) -> bool {
    has_all(mode, MODE_CENTER) && !has_all(arranged_flags(c.flags, mode), MODE_CENTER) && s is Some
}

/// Geometry of a desktop window on screen `s`: the screen without panels.
pub open spec fn desktop_geom(s: Screen, panel_height: u16) -> Rect {
    let g = s.base;
    let g1 = if has_all(s.flags, TOP_PANEL) {
        Rect { y: (g.y + (panel_height as i16)) as i16, height: (g.height - panel_height) as u16, ..g }
    } else {
        g
    };
    if has_all(s.flags, BOTTOM_PANEL) {
        Rect { height: (g1.height - panel_height) as u16, ..g1 }
    } else {
        g1
    }
}

/// Geometry after toggling: centered in the screen for center mode, the
/// screen without panels for desktops.
pub open spec fn toggled_geom(c: Client, mode: u32, s: Option<Screen>, panel_height: u16) -> Rect {
    let g1 = if center_on(c, mode, s) {
        let sc = s->0;
        Rect {
            x: (sc.geom.x + center_offset(sc.geom.width, c.geom.width)) as i16,
            y: (sc.geom.y + center_offset(sc.geom.height, c.geom.height)) as i16,
            ..c.geom
        }
    } else {
        c.geom
    };
    if has_all(mode, TYPE_DESKTOP | TYPE_DOCK) && s is Some {
        desktop_geom(s->0, panel_height)
    } else {
        g1
    }
}

/// Mode flags after toggling: fullscreen may be refused, center mode implies
/// float mode.
pub open spec fn toggled_mode(c: Client, mode: u32, s: Option<Screen>) -> u32 {
    let m1 = if full_refused(c, mode, s) {
        mode & !MODE_FULL
    } else {
        mode
    };
    if center_on(c, mode, s) {
        m1 | MODE_FLOAT
    } else {
        m1
    }
}

/// Client flags before the modes are flipped.
pub open spec fn flags_before_flip(c: Client, mode: u32, s: Option<Screen>) -> u32 {
    let f1 = arranged_flags(c.flags, mode);
    if has_all(mode, MODE_CENTER) {
        if has_all(f1, MODE_CENTER) {
            (f1 & !MODE_FLOAT) | ARRANGE
        } else if s is Some {
            f1 | ARRANGE
        } else {
            f1
        }
    } else {
        f1
    }
}

/// Flip the modes of `flags` that are set in `mode`; flags the client does
/// not know of are dropped.
pub open spec fn flip_modes(flags: u32, mode: u32) -> u32 {
    ((flags & (!ALL_MODES & KNOWN_FLAGS)) | (flags & ALL_MODES)) ^ (mode & ALL_MODES)
}

/// Client flags after toggling.
pub open spec fn toggled_flags(c: Client, mode: u32, s: Option<Screen>) -> u32 {
    flip_modes(flags_before_flip(c, mode, s), toggled_mode(c, mode, s))
}

/// Window changes of toggling, in order.
pub open spec fn toggle_changes(c: Client, mode: u32, border_width: i16) -> Seq<WindowChange> {
    let f1 = arranged_flags(c.flags, mode);
    let full = if has_all(mode, MODE_FULL) {
        if has_all(f1, MODE_FULL) {
            seq_if(!has_all(f1, MODE_BORDERLESS), WindowChange::BorderWidth(border_width as u32))
        } else {
            seq![WindowChange::BorderPixel(0)]
        }
    } else {
        Seq::empty()
    };
    let borderless = seq_if(
        has_all(mode, MODE_BORDERLESS),
        WindowChange::BorderWidth(
            if !has_all(f1, MODE_BORDERLESS) {
                border_width as u32
            } else {
                0
            },
        ),
    );
    let desktop = seq_if(has_all(mode, TYPE_DESKTOP | TYPE_DOCK), WindowChange::BorderWidth(0));
    full + borderless + desktop
}

/// `_NET_WM_STATE` entries of a client with these flags.
pub open spec fn net_states_of(flags: u32) -> Seq<NetWmState> {
    seq_if(has_all(flags, MODE_FULL), NetWmState::Fullscreen) + seq_if(
        has_all(flags, MODE_FLOAT),
        NetWmState::Above,
    ) + seq_if(has_all(flags, MODE_STICK), NetWmState::Sticky) + seq_if(
        has_all(flags, MODE_URGENT),
        NetWmState::DemandsAttention,
    )
}

/// Published state flags of a client with these flags.
pub open spec fn ewmh_flags_of(flags: u32) -> u32 {
    (if has_all(flags, MODE_FULL) {
        EWMH_FULL
    } else {
        0
    }) | (if has_all(flags, MODE_FLOAT) {
        EWMH_FLOAT
    } else {
        0
    }) | (if has_all(flags, MODE_STICK) {
        EWMH_STICK
    } else {
        0
    }) | (if has_all(flags, MODE_URGENT) {
        EWMH_URGENT
    } else {
        0
    })
}

/// Toggling does not overflow or index out of bounds.
pub open spec fn toggle_ok(c: Client, mode: u32, screens: Seq<Screen>, views: Seq<TagView>, ctx: ToggleContext) -> bool {
    let sidx = toggled_screen(c, mode, screens, ctx);
    let s = screen_of(screens, sidx);
    let f1 = arranged_flags(c.flags, mode);
    &&& (stick_on(f1, mode) && ctx.set_gravity) ==> forall|i: int|
        0 <= i < views.len() && !has_all(#[trigger] views[i].tags, c.tags) && c.gravity_idx != -1
            ==> i < c.gravities@.len()
    &&& (stick_on(f1, mode) && !has_all(f1, MODE_STICK_SCREEN) && !ctx.skip_pointer_warp
        && screens.len() != 1 && ctx.pointer is Some) ==> screens_fit(screens)
    &&& center_on(c, mode, s) ==> {
        let sc = s->0;
        &&& fits_i16((sc.geom.width as i16) - (c.geom.width as i16))
        &&& fits_i16((sc.geom.width as i16) - (c.geom.width as i16) - 2)
        &&& fits_i16(sc.geom.x + center_offset(sc.geom.width, c.geom.width))
        &&& fits_i16((sc.geom.height as i16) - (c.geom.height as i16))
        &&& fits_i16((sc.geom.height as i16) - (c.geom.height as i16) - 2)
        &&& fits_i16(sc.geom.y + center_offset(sc.geom.height, c.geom.height))
    }
    &&& (has_all(mode, TYPE_DESKTOP | TYPE_DOCK) && s is Some) ==> {
        let sc = s->0;
        let h1 = if has_all(sc.flags, TOP_PANEL) {
            sc.base.height - ctx.panel_height
        } else {
            sc.base.height as int
        };
        &&& has_all(sc.flags, TOP_PANEL) ==> fits_i16(sc.base.y + (ctx.panel_height as i16))
            && sc.base.height >= ctx.panel_height
        &&& has_all(sc.flags, BOTTOM_PANEL) ==> h1 >= ctx.panel_height
    }
}

/// Whether `v` fits into 16 bits (see `fits_i16`).
pub(crate) fn fits(v: i32) -> (r: bool)
    ensures
        r == fits_i16(v as int),
{
    -32768 <= v && v <= 32767
}

/// Half of `v`, rounded toward zero (see `half`).
pub(crate) fn half_i32(v: i32) -> (r: i32)
    requires
        v > i32::MIN,
    ensures
        r == half(v as int),
{
    if v >= 0 {
        v / 2
    } else {
        -((-v) / 2)
    }
}

fn half_i16(v: i16) -> (r: i16)
    ensures
        r == half(v as int),
{
    v / 2
}

fn seq_push_if<A>(v: &mut Vec<A>, cond: bool, a: A)
    ensures
        final(v)@ == old(v)@ + seq_if(cond, a),
{
    if cond {
        v.push(a);
    }
    assert(final(v)@ =~= old(v)@ + seq_if(cond, a));
}

impl Client {
    /// Whether toggling the modes `mode` is defined (see `toggle_ok`): the
    /// gravities cover the views that stick mode sets them for, the screens
    /// that the pointer is looked up on fit into 16 bits, and centering or
    /// placing a desktop stays within 16 bits.
    pub fn toggle_fits(&self, mode: u32, screens: &Vec<Screen>, views: &Vec<TagView>, ctx: ToggleContext) -> (r:
        bool)
        ensures
            r == toggle_ok(*self, mode, screens@, views@, ctx),
    {
        let f1 = if intersects(mode, ARRANGE_MODES) {
            self.flags | ARRANGE
        } else {
            self.flags
        };
        assert(f1 == arranged_flags(self.flags, mode));
        let stick = contains(mode, MODE_STICK) && !contains(f1, MODE_STICK);
        if stick && ctx.set_gravity && self.gravity_idx != -1 {
            let mut i: usize = 0;
            while i < views.len()
                invariant
                    i <= views.len(),
                    stick_on(arranged_flags(self.flags, mode), mode),
                    ctx.set_gravity,
                    self.gravity_idx != -1,
                    forall|j: int|
                        0 <= j < i && !has_all(#[trigger] views@[j].tags, self.tags) ==> j < self.gravities@.len(),
                decreases views.len() - i,
            {
                if !contains(views[i].tags, self.tags) && i >= self.gravities.len() {
                    assert(!has_all(views@[i as int].tags, self.tags) && !(i < self.gravities@.len()));
                    return false;
                }
                i = i + 1;
            }
        }
        let all_fit = screens_fit_check(screens);
        let moves = stick && !contains(f1, MODE_STICK_SCREEN);
        if moves && !ctx.skip_pointer_warp && screens.len() != 1 && ctx.pointer.is_some() && !all_fit {
            return false;
        }
        let mut sidx = self.screen_idx;
        if moves {
            if ctx.skip_pointer_warp {
                if let Some((visible, s)) = ctx.focus {
                    if visible {
                        sidx = s;
                    }
                }
            } else if let Some(idx) = find_screen_by_pointer(screens, ctx.pointer) {
                sidx = #[verifier::truncate] (idx as isize);
            }
        }
        assert(sidx == toggled_screen(*self, mode, screens@, ctx));
        if sidx < 0 || sidx as usize >= screens.len() {
            return true;
        }
        let sc = &screens[sidx as usize];
        if contains(mode, MODE_CENTER) && !contains(f1, MODE_CENTER) {
            let dw: i32 = #[verifier::truncate] (sc.geom.width as i16) as i32 - #[verifier::truncate] (
            self.geom.width as i16) as i32;
            let dh: i32 = #[verifier::truncate] (sc.geom.height as i16) as i32 - #[verifier::truncate] (
            self.geom.height as i16) as i32;
            if !fits(dw) || !fits(dw - 2) || !fits(sc.geom.x as i32 + half_i32(dw - 2)) || !fits(dh) || !fits(
                dh - 2,
            ) || !fits(sc.geom.y as i32 + half_i32(dh - 2)) {
                return false;
            }
        }
        if contains(mode, TYPE_DESKTOP | TYPE_DOCK) {
            let ph = ctx.panel_height;
            let mut h1: i32 = sc.base.height as i32;
            if contains(sc.flags, TOP_PANEL) {
                if !fits(sc.base.y as i32 + #[verifier::truncate] (ph as i16) as i32) || sc.base.height < ph {
                    return false;
                }
                h1 = sc.base.height as i32 - ph as i32;
            }
            if contains(sc.flags, BOTTOM_PANEL) && h1 < ph as i32 {
                return false;
            }
        }
        true
    }

    /// Toggle the modes set in `mode_flags`: set the arrange marker, move a
    /// client that becomes sticky to the screen of the focus client or the
    /// pointer, refuse fullscreen for fixed-size clients that do not fit,
    /// center centered clients, give desktops the screen without panels, and
    /// finally flip the mode flags. Returns the window changes to send and the
    /// states to publish; `mode_flags` ends up as the modes that were flipped.
    pub fn toggle(
        &mut self,
        mode_flags: &mut u32,
        screens: &Vec<Screen>,
        views: &Vec<TagView>,
        ctx: ToggleContext,
    ) -> (r: ToggleResult)
        requires
            toggle_ok(*old(self), *old(mode_flags), screens@, views@, ctx),
        ensures
            ({
                let c = *old(self);
                let m = *old(mode_flags);
                let sidx = toggled_screen(c, m, screens@, ctx);
                let s = screen_of(screens@, sidx);
                &&& final(self).screen_idx == sidx
                &&& final(self).gravities@ == toggled_gravities(c, m, views@, ctx.set_gravity)
                &&& final(self).geom == toggled_geom(c, m, s, ctx.panel_height)
                &&& final(self).flags == toggled_flags(c, m, s)
                &&& *final(mode_flags) == toggled_mode(c, m, s)
                &&& r.changes@ == toggle_changes(c, m, ctx.border_width)
                &&& r.net_states@ == net_states_of(final(self).flags)
                &&& r.ewmh_flags == ewmh_flags_of(final(self).flags)
            }),
            *final(self) == (Client {
                screen_idx: final(self).screen_idx,
                gravities: final(self).gravities,
                geom: final(self).geom,
                flags: final(self).flags,
                ..*old(self)
            }),
    {
        let ghost c = *self;
        let ghost m = *mode_flags;
        let mut changes: Vec<WindowChange> = Vec::new();
        // Modes as requested; fullscreen may be dropped from `mode_flags` below
        let mode = *mode_flags;
        // Set arrange for certain modes
        if intersects(*mode_flags, ARRANGE_MODES) {
            self.flags = self.flags | ARRANGE;
        }
        let ghost f1 = self.flags;
        // Handle sticky mode
        if contains(*mode_flags, MODE_STICK) && !contains(self.flags, MODE_STICK) {
            if ctx.set_gravity && self.gravity_idx != -1 {
                let mut gs: Vec<usize> = Vec::new();
                std::mem::swap(&mut gs, &mut self.gravities);
                let g = #[verifier::truncate] (self.gravity_idx as usize);
                let tags = self.tags;
                let mut i: usize = 0;
                while i < views.len()
                    invariant
                        i <= views@.len(),
                        tags == c.tags,
                        g == c.gravity_idx as usize,
                        gs@.len() == c.gravities@.len(),
                        forall|j: int|
                            0 <= j < views@.len() && !has_all(#[trigger] views@[j].tags, c.tags)
                                ==> j < c.gravities@.len(),
                        forall|j: int|
                            0 <= j < gs@.len() ==> #[trigger] gs@[j] == (if j < i && !has_all(
                                views@[j].tags,
                                c.tags,
                            ) {
                                c.gravity_idx as usize
                            } else {
                                c.gravities@[j]
                            }),
                    decreases views.len() - i,
                {
                    if !contains(views[i].tags, tags) {
                        gs.set(i, g);
                    }
                    i = i + 1;
                }
                self.gravities = gs;
            }
            proof {
                assert(self.gravities@ =~= toggled_gravities(c, m, views@, ctx.set_gravity));
            }
            if !contains(self.flags, MODE_STICK_SCREEN) {
                if ctx.skip_pointer_warp {
                    if let Some((visible, s)) = ctx.focus {
                        if visible {
                            self.screen_idx = s;
                        }
                    }
                } else if let Some(idx) = find_screen_by_pointer(screens, ctx.pointer) {
                    self.screen_idx = #[verifier::truncate] (idx as isize);
                }
            }
        }
        assert(self.flags == arranged_flags(c.flags, m));
        assert(self.screen_idx == toggled_screen(c, m, screens@, ctx));
        let sidx = self.screen_idx;
        let screen: Option<&Screen> = if sidx >= 0 && (sidx as usize) < screens.len() {
            Some(&screens[sidx as usize])
        } else {
            None
        };
        // Handle fullscreen mode
        if contains(*mode_flags, MODE_FULL) {
            if contains(self.flags, MODE_FULL) {
                seq_push_if(&mut changes, !contains(self.flags, MODE_BORDERLESS), WindowChange::BorderWidth(#[verifier::truncate] (ctx.border_width as u32)));
            } else {
                if contains(self.flags, MODE_FIXED) {
                    if let Some(s) = screen {
                        if s.base.width != self.min_width || s.base.height != self.min_height {
                            *mode_flags = *mode_flags & !MODE_FULL;
                        }
                    }
                }
                changes.push(WindowChange::BorderPixel(0));
            }
        }
        // Handle borderless
        let borderless_width = if !contains(self.flags, MODE_BORDERLESS) {
            #[verifier::truncate] (ctx.border_width as u32)
        } else {
            0
        };
        seq_push_if(&mut changes, contains(mode, MODE_BORDERLESS), WindowChange::BorderWidth(borderless_width));
        // Handle center mode
        if contains(mode, MODE_CENTER) {
            if contains(self.flags, MODE_CENTER) {
                self.flags = (self.flags & !MODE_FLOAT) | ARRANGE;
            } else if let Some(s) = screen {
                assert(center_on(c, m, screen_of(screens@, sidx)));
                let dx = half_i16(s.geom.width as i16 - self.geom.width as i16 - 2);
                let dy = half_i16(s.geom.height as i16 - self.geom.height as i16 - 2);
                self.geom.x = s.geom.x + dx;
                self.geom.y = s.geom.y + dy;
                *mode_flags = *mode_flags | MODE_FLOAT;
                self.flags = self.flags | ARRANGE;
            }
        }
        // Handle desktop and dock type (one way)
        let desktop = contains(mode, TYPE_DESKTOP | TYPE_DOCK);
        seq_push_if(&mut changes, desktop, WindowChange::BorderWidth(0));
        if desktop {
            if let Some(s) = screen {
                let mut g = s.base;
                if contains(s.flags, TOP_PANEL) {
                    g.y = g.y + #[verifier::truncate] (ctx.panel_height as i16);
                    g.height = g.height - ctx.panel_height;
                }
                if contains(s.flags, BOTTOM_PANEL) {
                    g.height = g.height - ctx.panel_height;
                }
                self.geom = g;
            }
        }
        // Finally toggle mode flags only
        self.flags = ((self.flags & (!ALL_MODES & KNOWN_FLAGS)) | (self.flags & ALL_MODES)) ^ (*mode_flags
            & ALL_MODES);
        proof {
            assert(changes@ =~= toggle_changes(c, m, ctx.border_width));
        }
        // EWMH: State and flags
        let mut net_states: Vec<NetWmState> = Vec::new();
        let f = self.flags;
        seq_push_if(&mut net_states, contains(f, MODE_FULL), NetWmState::Fullscreen);
        seq_push_if(&mut net_states, contains(f, MODE_FLOAT), NetWmState::Above);
        seq_push_if(&mut net_states, contains(f, MODE_STICK), NetWmState::Sticky);
        seq_push_if(&mut net_states, contains(f, MODE_URGENT), NetWmState::DemandsAttention);
        let ewmh_flags = (if contains(f, MODE_FULL) {
            EWMH_FULL
        } else {
            0
        }) | (if contains(f, MODE_FLOAT) {
            EWMH_FLOAT
        } else {
            0
        }) | (if contains(f, MODE_STICK) {
            EWMH_STICK
        } else {
            0
        }) | (if contains(f, MODE_URGENT) {
            EWMH_URGENT
        } else {
            0
        });
        proof {
            assert(net_states@ =~= net_states_of(f));
        }
        ToggleResult { changes, net_states, ewmh_flags }
    }
}

} // verus!
