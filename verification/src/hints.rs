//! What the properties and hints of a window say about its client: its
//! protocols, type, states, transient parent, window manager hints and size
//! hints.

use vstd::prelude::*;
use crate::bits::{has_all, has_any, intersects, contains};
use crate::client::{
    Client, CLOSE, FOCUS, INPUT, MIN_HEIGHT, MIN_WIDTH, MODE_CENTER, MODE_FIXED, MODE_FLOAT, MODE_FULL,
    MODE_RESIZE, MODE_STICK, MODE_URGENT, TYPE_DESKTOP, TYPE_DIALOG, TYPE_DOCK, TYPE_SPLASH,
    TYPE_TOOLBAR, ALL_MODES,
};
use crate::rect::Rect;
use crate::subtle::{SUBTLE_RESIZE, SUBTLE_URGENT, client_of_win, find_client};

verus! {

/// The client is the same but for its flags.
pub open spec fn same_but_flags(a: Client, b: Client) -> bool {
    a == Client { flags: a.flags, ..b }
}

/// Flags from the protocols a window takes part in: taking the focus and
/// deleting windows. Each value of the property is compared on its own.
pub open spec fn protocol_flags(values: Seq<u8>, take_focus: u32, delete_window: u32) -> u32
    decreases values.len(),
{
    if values.len() == 0 {
        0
    } else {
        let v = values.last() as u32;
        protocol_flags(values.drop_last(), take_focus, delete_window) | (if take_focus == v {
            FOCUS
        } else if delete_window == v {
            CLOSE
        } else {
            0
        })
    }
}

impl Client {
    /// Mark the protocols that the values of the window's protocols property
    /// name: taking the focus and deleting windows.
    pub fn set_wm_protocols(&mut self, protocols: &Vec<u8>, take_focus: u32, delete_window: u32)
        ensures
            final(self).flags == old(self).flags | protocol_flags(protocols@, take_focus, delete_window),
            same_but_flags(*final(self), *old(self)),
    {
        let mut add: u32 = 0;
        let mut i: usize = 0;
        while i < protocols.len()
            invariant
                i <= protocols.len(),
                add == protocol_flags(protocols@.subrange(0, i as int), take_focus, delete_window),
            decreases protocols.len() - i,
        {
            assert(protocols@.subrange(0, i + 1).drop_last() =~= protocols@.subrange(0, i as int));
            let v = protocols[i] as u32;
            if take_focus == v {
                add = add | FOCUS;
            } else if delete_window == v {
                add = add | CLOSE;
            } else {
                assert(add | 0 == add) by (bit_vector);
            }
            i = i + 1;
        }
        assert(protocols@.subrange(0, protocols.len() as int) =~= protocols@);
        self.flags = self.flags | add;
    }
}

/// The atoms of the window types.
#[derive(Clone, Copy, Debug, PartialEq, Eq, Structural)]
pub struct TypeAtoms {
    pub desktop: u32,
    pub dock: u32,
    pub toolbar: u32,
    pub splash: u32,
    pub dialog: u32,
}

/// The type flag and the modes of one window type value.
pub open spec fn type_step(v: u32, atoms: TypeAtoms) -> (u32, u32) {
    if atoms.desktop == v {
        (TYPE_DESKTOP, MODE_FIXED | MODE_STICK)
    } else if atoms.dock == v {
        (TYPE_DOCK, MODE_FIXED | MODE_STICK)
    } else if atoms.toolbar == v {
        (TYPE_TOOLBAR, 0)
    } else if atoms.splash == v {
        (TYPE_SPLASH, MODE_FLOAT | MODE_CENTER)
    } else if atoms.dialog == v {
        (TYPE_DIALOG, MODE_FLOAT | MODE_CENTER)
    } else {
        (0, 0)
    }
}

/// Type flags and modes of the values of a window's type property: desktops
/// and docks are fixed and stick, splash screens and dialogs float centered.
pub open spec fn type_flags(values: Seq<u8>, atoms: TypeAtoms) -> (u32, u32)
    decreases values.len(),
{
    if values.len() == 0 {
        (0, 0)
    } else {
        let rest = type_flags(values.drop_last(), atoms);
        let s = type_step(values.last() as u32, atoms);
        (rest.0 | s.0, rest.1 | s.1)
    }
}

impl Client {
    /// Set the type flags of the window's type property and add the modes
    /// they ask for to `mode_flags`.
    pub fn set_wm_type(&mut self, types: &Vec<u8>, atoms: TypeAtoms, mode_flags: &mut u32)
        ensures
            final(self).flags == old(self).flags | type_flags(types@, atoms).0,
            *final(mode_flags) == *old(mode_flags) | type_flags(types@, atoms).1,
            same_but_flags(*final(self), *old(self)),
    {
        let mut add: u32 = 0;
        let mut modes: u32 = 0;
        let mut i: usize = 0;
        while i < types.len()
            invariant
                i <= types.len(),
                (add, modes) == type_flags(types@.subrange(0, i as int), atoms),
            decreases types.len() - i,
        {
            assert(types@.subrange(0, i + 1).drop_last() =~= types@.subrange(0, i as int));
            let v = types[i] as u32;
            let (t, m) = if atoms.desktop == v {
                (TYPE_DESKTOP, MODE_FIXED | MODE_STICK)
            } else if atoms.dock == v {
                (TYPE_DOCK, MODE_FIXED | MODE_STICK)
            } else if atoms.toolbar == v {
                (TYPE_TOOLBAR, 0)
            } else if atoms.splash == v {
                (TYPE_SPLASH, MODE_FLOAT | MODE_CENTER)
            } else if atoms.dialog == v {
                (TYPE_DIALOG, MODE_FLOAT | MODE_CENTER)
            } else {
                (0, 0)
            };
            add = add | t;
            modes = modes | m;
            i = i + 1;
        }
        assert(types@.subrange(0, types.len() as int) =~= types@);
        self.flags = self.flags | add;
        *mode_flags = *mode_flags | modes;
    }
}

/// The atoms of the window states.
#[derive(Clone, Copy, Debug, PartialEq, Eq, Structural)]
pub struct StateAtoms {
    pub fullscreen: u32,
    pub above: u32,
    pub sticky: u32,
    pub demands_attention: u32,
}

/// The modes of the values of a window's state property: fullscreen,
/// floating above, sticky and urgent.
pub open spec fn state_modes(values: Seq<u8>, atoms: StateAtoms) -> u32
    decreases values.len(),
{
    if values.len() == 0 {
        0
    } else {
        let v = values.last() as u32;
        state_modes(values.drop_last(), atoms) | (if atoms.fullscreen == v {
            MODE_FULL
        } else if atoms.above == v {
            MODE_FLOAT
        } else if atoms.sticky == v {
            MODE_STICK
        } else if atoms.demands_attention == v {
            MODE_URGENT
        } else {
            0
        })
    }
}

/// Add the modes that the window's state property asks for.
pub fn set_net_wm_state(states: &Vec<u8>, atoms: StateAtoms, mode_flags: &mut u32)
    ensures
        *final(mode_flags) == *old(mode_flags) | state_modes(states@, atoms),
{
    let mut add: u32 = 0;
    let mut i: usize = 0;
    while i < states.len()
        invariant
            i <= states.len(),
            add == state_modes(states@.subrange(0, i as int), atoms),
        decreases states.len() - i,
    {
        assert(states@.subrange(0, i + 1).drop_last() =~= states@.subrange(0, i as int));
        let v = states[i] as u32;
        let m = if atoms.fullscreen == v {
            MODE_FULL
        } else if atoms.above == v {
            MODE_FLOAT
        } else if atoms.sticky == v {
            MODE_STICK
        } else if atoms.demands_attention == v {
            MODE_URGENT
        } else {
            0
        };
        add = add | m;
        i = i + 1;
    }
    assert(states@.subrange(0, states.len() as int) =~= states@);
    *mode_flags = *mode_flags | add;
}

impl Client {
    /// Follow the transient-for property of the window: a transient floats
    /// (and is urgent with urgent dialogs set), takes the modes of its parent
    /// (the client of the window that the property's first value names), joins
    /// its tags and moves to its screen.
    pub fn set_transient(&mut self, trans: &Vec<u8>, clients: &Vec<Client>, settings_flags: u32, mode_flags: &mut u32)
        ensures
            trans.len() == 0 ==> *final(self) == *old(self) && *final(mode_flags) == *old(mode_flags),
            trans.len() > 0 ==> {
                let base = *old(mode_flags) | (if has_any(settings_flags, SUBTLE_URGENT) {
                    MODE_FLOAT | MODE_URGENT
                } else {
                    MODE_FLOAT
                });
                match client_of_win(clients@, trans@[0] as u32, 0) {
                    Some(p) => {
                        &&& *final(mode_flags) == base | (clients@[p].flags & ALL_MODES)
                        &&& *final(self) == Client {
                            tags: old(self).tags | clients@[p].tags,
                            screen_idx: clients@[p].screen_idx,
                            ..*old(self)
                        }
                    },
                    None => *final(mode_flags) == base && *final(self) == *old(self),
                }
            },
    {
        if trans.len() > 0 {
            let m = if intersects(settings_flags, SUBTLE_URGENT) {
                MODE_FLOAT | MODE_URGENT
            } else {
                MODE_FLOAT
            };
            *mode_flags = *mode_flags | m;
            if let Some(p) = find_client(clients, trans[0] as u32) {
                *mode_flags = *mode_flags | (clients[p].flags & ALL_MODES);
                self.tags = self.tags | clients[p].tags;
                self.screen_idx = clients[p].screen_idx;
            }
        }
    }
}

/// The window manager hints of a window that the client reads.
#[derive(Clone, Copy, Debug, PartialEq, Eq, Structural)]
pub struct WmHintsInfo {
    pub urgent: bool,
    pub window_group: Option<u32>,
    pub input: Option<bool>,
}

impl Client {
    /// Apply the window manager hints of the window: an urgency hint while
    /// another window has the focus drops the urgent mode; a group leader
    /// among `clients` passes on its flags, tags and screen; an input hint of
    /// false drops the input flag.
    pub fn set_wm_hints(&mut self, hints: Option<WmHintsInfo>, clients: &Vec<Client>, history: &Vec<u32>)
        ensures
            hints is None ==> *final(self) == *old(self),
            hints is Some ==> {
                let h = hints.unwrap();
                let f0 = if h.urgent && history.len() > 0 && history@[0] != old(self).win {
                    old(self).flags & !MODE_URGENT
                } else {
                    old(self).flags
                };
                let leader = match h.window_group {
                    Some(g) => client_of_win(clients@, g, 0),
                    None => None,
                };
                let c1 = match leader {
                    Some(k) => Client {
                        flags: clients@[k].flags,
                        tags: clients@[k].tags,
                        screen_idx: clients@[k].screen_idx,
                        ..*old(self)
                    },
                    None => Client { flags: f0, ..*old(self) },
                };
                *final(self) == (if h.input == Some(false) {
                    Client { flags: c1.flags & !INPUT, ..c1 }
                } else {
                    c1
                })
            },
    {
        if let Some(h) = hints {
            if h.urgent && history.len() > 0 && history[0] != self.win {
                self.flags = self.flags & !MODE_URGENT;
            }
            if let Some(g) = h.window_group {
                if let Some(k) = find_client(clients, g) {
                    self.flags = clients[k].flags;
                    self.tags = clients[k].tags;
                    self.screen_idx = clients[k].screen_idx;
                }
            }
            if h.input == Some(false) {
                self.flags = self.flags & !INPUT;
            }
        }
    }
}

/// The size hints of a window (ICCCM 4.1.2.3) that the client reads.
#[derive(Clone, Copy, Debug)]
pub struct SizeHints {
    /// Position the user or program asked for.
    pub position: Option<(i32, i32)>,
    /// Size the user or program asked for.
    pub size: Option<(i32, i32)>,
    pub min_size: Option<(i32, i32)>,
    pub max_size: Option<(i32, i32)>,
    pub size_increment: Option<(i32, i32)>,
    /// Minimum and maximum aspect ratio as numerator and denominator.
    pub aspect: Option<((i32, i32), (i32, i32))>,
    pub base_size: Option<(i32, i32)>,
}

/// Why the size hints could not be set.
#[derive(Clone, Copy, Debug, PartialEq, Eq, Structural)]
pub enum HintsError {
    /// There is no screen to limit the sizes to.
    NoScreens,
}

/// The larger of two lengths.
pub open spec fn max_u16(a: u16, b: u16) -> u16 {
    if a >= b {
        a
    } else {
        b
    }
}

/// The smaller of two sizes.
pub open spec fn min_u16(a: u16, b: u16) -> u16 {
    if a > b {
        b
    } else {
        a
    }
}

/// The client after its size hints are set within the first screen's area
/// `screen`: defaults first (minimum size one, no maximum, no aspect,
/// increments of one, no base size), then the minimum size (at least one,
/// and at most the screen's size), the maximum
/// size (cut to the screen; a too tall one to the screen's height less the
/// panel height), the aspect ratios, increments and base size, and where
/// sizes are honored (by the settings or a floating, resizable dock) the
/// position and size asked for.
pub open spec fn size_hinted(c: Client, h: Option<SizeHints>, screen: Rect, panel_height: u16, settings_flags: u32) -> Client {
    let d = Client {
        min_width: MIN_WIDTH,
        min_height: MIN_HEIGHT,
        max_width: -1i16,
        max_height: -1i16,
        aspect: None,
        width_inc: 1u16,
        height_inc: 1u16,
        base_width: 0u16,
        base_height: 0u16,
        ..c
    };
    match h {
        None => d,
        Some(h) => {
            let (min_w, min_h) = match h.min_size {
                Some((w, ht)) => (
                    min_u16(max_u16(MIN_WIDTH, w as u16), screen.width),
                    min_u16(max_u16(MIN_HEIGHT, ht as u16), screen.height),
                ),
                None => (d.min_width, d.min_height),
            };
            let (max_w, max_h) = match h.max_size {
                Some((w, ht)) => (
                    if w > screen.width as i32 {
                        screen.width as i16
                    } else {
                        w as i16
                    },
                    if ht > screen.height as i32 {
                        ((screen.height as i16) - (panel_height as i16)) as i16
                    } else {
                        ht as i16
                    },
                ),
                None => (d.max_width, d.max_height),
            };
            let (inc_w, inc_h) = match h.size_increment {
                Some((w, ht)) => (w as u16, ht as u16),
                None => (d.width_inc, d.height_inc),
            };
            let (base_w, base_h) = match h.base_size {
                Some((w, ht)) => (w as u16, ht as u16),
                None => (d.base_width, d.base_height),
            };
            let honored = has_all(settings_flags, SUBTLE_RESIZE) || has_all(
                c.flags,
                MODE_FLOAT | MODE_RESIZE | TYPE_DOCK,
            );
            let (x, y) = match h.position {
                Some((px, py)) => if honored {
                    (px as i16, py as i16)
                } else {
                    (c.geom.x, c.geom.y)
                },
                None => (c.geom.x, c.geom.y),
            };
            let (w, ht) = match h.size {
                Some((sw, sh)) => if honored {
                    (sw as u16, sh as u16)
                } else {
                    (c.geom.width, c.geom.height)
                },
                None => (c.geom.width, c.geom.height),
            };
            Client {
                min_width: min_w,
                min_height: min_h,
                max_width: max_w,
                max_height: max_h,
                aspect: match h.aspect {
                    Some(a) => Some(a),
                    None => None,
                },
                width_inc: inc_w,
                height_inc: inc_h,
                base_width: base_w,
                base_height: base_h,
                geom: Rect { x, y, width: w, height: ht },
                ..d
            }
        },
    }
}

/// The modes that size hints ask for: fixed-size windows that are no
/// desktop float and are fixed.
pub open spec fn size_hint_modes(c: Client, h: Option<SizeHints>) -> u32 {
    match h {
        Some(h) => match (h.min_size, h.max_size) {
            (Some((a, b)), Some((x, y))) => if a == x && b == y && !has_all(c.flags, TYPE_DESKTOP) {
                MODE_FLOAT | MODE_FIXED
            } else {
                0
            },
            _ => 0,
        },
        None => 0,
    }
}

/// The size hints ask for a resize within the screen: sizes are honored
/// and there are hints.
pub open spec fn size_hints_resize(c: Client, h: Option<SizeHints>, settings_flags: u32) -> bool {
    h is Some && (has_all(settings_flags, SUBTLE_RESIZE) || has_all(c.flags, MODE_FLOAT | MODE_RESIZE | TYPE_DOCK))
}

/// Computing the maximum height fits the numbers.
pub open spec fn size_hints_ok(h: Option<SizeHints>, screen: Rect, panel_height: u16) -> bool {
    match h {
        Some(h) => match h.max_size {
            Some((_, ht)) => ht > screen.height as i32 ==> i16::MIN <= (screen.height as i16) - (
            panel_height as i16) <= i16::MAX,
            None => true,
        },
        None => true,
    }
}

impl Client {
    /// Set the size hints of the client (see `size_hinted`) within the area
    /// of the first screen, and add the modes they ask for (see
    /// `size_hint_modes`). Returns whether the client is to be resized within
    /// that area now; fails without a screen.
    pub fn set_size_hints(
        &mut self,
        hints: Option<SizeHints>,
        first_screen: Option<Rect>,
        panel_height: u16,
        settings_flags: u32,
        mode_flags: &mut u32,
    ) -> (r: Result<bool, HintsError>)
        requires
            first_screen matches Some(s) ==> size_hints_ok(hints, s, panel_height),
        ensures
            first_screen is None ==> r == Err::<bool, HintsError>(HintsError::NoScreens) && *final(self)
                == *old(self) && *final(mode_flags) == *old(mode_flags),
            first_screen matches Some(s) ==> {
                &&& r == Ok::<bool, HintsError>(size_hints_resize(*old(self), hints, settings_flags))
                &&& *final(self) == size_hinted(*old(self), hints, s, panel_height, settings_flags)
                &&& *final(mode_flags) == *old(mode_flags) | size_hint_modes(*old(self), hints)
            },
    {
        let screen = match first_screen {
            Some(s) => s,
            None => {
                return Err(HintsError::NoScreens);
            },
        };
        self.min_width = MIN_WIDTH;
        self.min_height = MIN_HEIGHT;
        self.max_width = -1;
        self.max_height = -1;
        self.aspect = None;
        self.width_inc = 1;
        self.height_inc = 1;
        self.base_width = 0;
        self.base_height = 0;
        let h = match hints {
            Some(h) => h,
            None => {
                assert(*mode_flags | 0 == *mode_flags) by (bit_vector);
                return Ok(false);
            },
        };
        if let Some((w, ht)) = h.min_size {
            let v = #[verifier::truncate] (w as u16);
            let min_w = if MIN_WIDTH >= v {
                MIN_WIDTH
            } else {
                v
            };
            self.min_width = if min_w > screen.width {
                screen.width
            } else {
                min_w
            };
            let v = #[verifier::truncate] (ht as u16);
            let min_h = if MIN_HEIGHT >= v {
                MIN_HEIGHT
            } else {
                v
            };
            self.min_height = if min_h > screen.height {
                screen.height
            } else {
                min_h
            };
        }
        if let Some((w, ht)) = h.max_size {
            self.max_width = if w > screen.width as i32 {
                #[verifier::truncate] (screen.width as i16)
            } else {
                #[verifier::truncate] (w as i16)
            };
            self.max_height = if ht > screen.height as i32 {
                #[verifier::truncate] (screen.height as i16) - #[verifier::truncate] (panel_height as i16)
            } else {
                #[verifier::truncate] (ht as i16)
            };
        }
        let mut add: u32 = 0;
        if let Some((a, b)) = h.min_size {
            if let Some((x, y)) = h.max_size {
                if a == x && b == y && !contains(self.flags, TYPE_DESKTOP) {
                    add = MODE_FLOAT | MODE_FIXED;
                }
            }
        }
        *mode_flags = *mode_flags | add;
        if let Some(a) = h.aspect {
            self.aspect = Some(a);
        }
        if let Some((w, ht)) = h.size_increment {
            self.width_inc = #[verifier::truncate] (w as u16);
            self.height_inc = #[verifier::truncate] (ht as u16);
        }
        if let Some((w, ht)) = h.base_size {
            self.base_width = #[verifier::truncate] (w as u16);
            self.base_height = #[verifier::truncate] (ht as u16);
        }
        let honored = contains(settings_flags, SUBTLE_RESIZE) || contains(
            self.flags,
            MODE_FLOAT | MODE_RESIZE | TYPE_DOCK,
        );
        if honored {
            if let Some((x, y)) = h.position {
                self.geom.x = #[verifier::truncate] (x as i16);
                self.geom.y = #[verifier::truncate] (y as i16);
            }
            if let Some((w, ht)) = h.size {
                self.geom.width = #[verifier::truncate] (w as u16);
                self.geom.height = #[verifier::truncate] (ht as u16);
            }
        }
        Ok(honored)
    }
}

} // verus!

verus! {

/// The text without its leading NUL characters.
pub open spec fn strip_front(s: Seq<char>) -> Seq<char>
    decreases s.len(),
{
    if s.len() > 0 && s[0] == '\0' {
        strip_front(s.drop_first())
    } else {
        s
    }
}

/// The text without its trailing NUL characters.
pub open spec fn strip_back(s: Seq<char>) -> Seq<char>
    decreases s.len(),
{
    if s.len() > 0 && s.last() == '\0' {
        strip_back(s.drop_last())
    } else {
        s
    }
}

/// The text without leading and trailing NUL characters.
pub open spec fn trim_nul(s: Seq<char>) -> Seq<char> {
    strip_back(strip_front(s))
}

/// End of the part that starts at `i`: the next NUL or the end.
pub open spec fn nul_end(s: Seq<char>, i: int) -> int
    decreases s.len() - i,
{
    if i >= s.len() {
        s.len() as int
    } else if s[i] == '\0' {
        i
    } else {
        nul_end(s, i + 1)
    }
}

proof fn lemma_nul_end(s: Seq<char>, i: int)
    requires
        0 <= i <= s.len(),
    ensures
        i <= nul_end(s, i) <= s.len(),
    decreases s.len() - i,
{
    if i < s.len() && s[i] != '\0' {
        lemma_nul_end(s, i + 1);
    }
}

/// Instance and class of a window's class property: its first two parts
/// between NUL characters, once leading and trailing NULs are trimmed;
/// `None` when there is only one part.
pub open spec fn class_parts(s: Seq<char>) -> Option<(Seq<char>, Seq<char>)> {
    let t = trim_nul(s);
    let e0 = nul_end(t, 0);
    if e0 >= t.len() {
        None
    } else {
        Some((t.subrange(0, e0), t.subrange(e0 + 1, nul_end(t, e0 + 1))))
    }
}

/// The text without leading and trailing NUL characters.
fn trim_nul_exec(s: &str) -> (r: &str)
    ensures
        r@ == trim_nul(s@),
{
    let n = s.unicode_len();
    let mut a: usize = 0;
    assert(s@.subrange(0, n as int) =~= s@);
    while a < n && s.get_char(a) == '\0'
        invariant
            a <= n,
            n == s@.len(),
            strip_front(s@) == strip_front(s@.subrange(a as int, n as int)),
        decreases n - a,
    {
        assert(s@.subrange(a as int, n as int).drop_first() =~= s@.subrange(a + 1, n as int));
        a = a + 1;
    }
    assert(strip_front(s@.subrange(a as int, n as int)) == s@.subrange(a as int, n as int));
    let mut b: usize = n;
    while b > a && s.get_char(b - 1) == '\0'
        invariant
            a <= b <= n,
            n == s@.len(),
            strip_front(s@) == s@.subrange(a as int, n as int),
            strip_back(s@.subrange(a as int, n as int)) == strip_back(s@.subrange(a as int, b as int)),
        decreases b - a,
    {
        assert(s@.subrange(a as int, b as int).drop_last() =~= s@.subrange(a as int, b - 1));
        b = b - 1;
    }
    assert(strip_back(s@.subrange(a as int, b as int)) == s@.subrange(a as int, b as int));
    s.substring_char(a, b)
}

/// End of the part of `s` that starts at `i`.
fn nul_end_exec(s: &str, i: usize) -> (r: usize)
    requires
        i <= s@.len(),
    ensures
        r == nul_end(s@, i as int),
{
    let n = s.unicode_len();
    let mut j = i;
    while j < n
        invariant
            i <= j <= n,
            n == s@.len(),
            nul_end(s@, i as int) == nul_end(s@, j as int),
        decreases n - j,
    {
        if s.get_char(j) == '\0' {
            return j;
        }
        j = j + 1;
    }
    j
}

/// Split a window's class property into instance and class (see
/// `class_parts`).
pub fn parse_class(class: &str) -> (r: Option<(String, String)>)
    ensures
        match r {
            Some((i, c)) => class_parts(class@) == Some((i@, c@)),
            None => class_parts(class@) is None,
        },
{
    let t = trim_nul_exec(class);
    let n = t.unicode_len();
    let e0 = nul_end_exec(t, 0);
    if e0 >= n {
        return None;
    }
    proof {
        lemma_nul_end(t@, 0);
        lemma_nul_end(t@, e0 + 1);
    }
    let e1 = nul_end_exec(t, e0 + 1);
    Some((String::from_str(t.substring_char(0, e0)), String::from_str(t.substring_char(e0 + 1, e1))))
}

impl Client {
    /// Take the window's name, role and class property: the instance and
    /// class are the first two parts of the class property (see
    /// `class_parts`).
    pub fn set_wm_name(&mut self, name: String, role: String, class: &str)
        requires
            class_parts(class@) is Some,
        ensures
            *final(self) == (Client {
                name,
                role,
                instance: final(self).instance,
                klass: final(self).klass,
                ..*old(self)
            }),
            final(self).instance@ == class_parts(class@).unwrap().0,
            final(self).klass@ == class_parts(class@).unwrap().1,
    {
        let (instance, klass) = parse_class(class).unwrap();
        self.name = name;
        self.role = role;
        self.instance = instance;
        self.klass = klass;
    }
}

} // verus!
