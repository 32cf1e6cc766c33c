//! Key and mouse grabs: parsing their names and key combinations, finding
//! the grab of a key press, and the grab requests for a window.

use vstd::prelude::*;
use std::collections::HashMap;
use crate::bits::{contains, intersects, has_any};
use crate::client::{MODE_FLOAT, MODE_FULL, MODE_STICK, MODE_ZAPHOD};
use crate::config::{ConfigTable, MixedConfigVal};
use crate::gravity::Gravity;
use crate::text::{str_eq, starts_with, suffix_from, has_prefix, parse_unsigned, parsed_unsigned};

verus! {

broadcast use vstd::std_specs::hash::group_hash_axioms;

pub const IS_KEY: u32 = 1u32 << 0u32;
pub const IS_MOUSE: u32 = 1u32 << 1u32;
pub const COMMAND: u32 = 1u32 << 2u32;
pub const VIEW_JUMP: u32 = 1u32 << 3u32;
pub const VIEW_SWITCH: u32 = 1u32 << 4u32;
pub const VIEW_SELECT: u32 = 1u32 << 5u32;
pub const SCREEN_JUMP: u32 = 1u32 << 6u32;
pub const SUBTLE_RELOAD: u32 = 1u32 << 7u32;
pub const SUBTLE_RESTART: u32 = 1u32 << 8u32;
pub const SUBTLE_QUIT: u32 = 1u32 << 9u32;
pub const WINDOW_MOVE: u32 = 1u32 << 10u32;
pub const WINDOW_RESIZE: u32 = 1u32 << 11u32;
pub const WINDOW_MODE: u32 = 1u32 << 12u32;
pub const WINDOW_RESTACK: u32 = 1u32 << 13u32;
pub const WINDOW_SELECT: u32 = 1u32 << 14u32;
pub const WINDOW_GRAVITY: u32 = 1u32 << 15u32;
pub const WINDOW_KILL: u32 = 1u32 << 16u32;

/// Modifier masks of the X protocol.
pub const MOD_SHIFT: u16 = 1u16 << 0u16;
pub const MOD_LOCK: u16 = 1u16 << 1u16;
pub const MOD_CONTROL: u16 = 1u16 << 2u16;
pub const MOD_1: u16 = 1u16 << 3u16;
pub const MOD_2: u16 = 1u16 << 4u16;
pub const MOD_3: u16 = 1u16 << 5u16;
pub const MOD_4: u16 = 1u16 << 6u16;
pub const MOD_5: u16 = 1u16 << 7u16;
pub const MOD_ANY: u16 = 1u16 << 15u16;

/// Direction of a selection or move.
#[derive(Clone, Copy, Debug, PartialEq, Eq, Structural)]
pub enum DirectionOrder {
    Mouse,
    Up,
    Right,
    Down,
    Left,
}

impl DirectionOrder {
    /// The numeric code of the direction.
    pub open spec fn spec_code(self) -> u32 {
        match self {
            DirectionOrder::Mouse => 0,
            DirectionOrder::Up => 1,
            DirectionOrder::Right => 2,
            DirectionOrder::Down => 3,
            DirectionOrder::Left => 4,
        }
    }

    /// The numeric code of the direction.
    pub fn code(self) -> (r: u32)
        ensures
            r == self.spec_code(),
    {
        match self {
            DirectionOrder::Mouse => 0,
            DirectionOrder::Up => 1,
            DirectionOrder::Right => 2,
            DirectionOrder::Down => 3,
            DirectionOrder::Left => 4,
        }
    }
}

/// What a grab does.
#[derive(Debug)]
pub enum GrabAction {
    Nothing,
    Index(u32),
    List(Vec<usize>),
    Command(String),
}

/// The mathematical value of a grab action.
pub ghost enum ActionValue {
    Nothing,
    Index(u32),
    List(Seq<usize>),
    Command(Seq<char>),
}

impl GrabAction {
    /// The value of this action.
    pub open spec fn value(&self) -> ActionValue {
        match self {
            GrabAction::Nothing => ActionValue::Nothing,
            GrabAction::Index(i) => ActionValue::Index(*i),
            GrabAction::List(l) => ActionValue::List(l@),
            GrabAction::Command(c) => ActionValue::Command(c@),
        }
    }
}

/// Why a grab could not be parsed.
#[derive(Clone, Copy, Debug, PartialEq, Eq, Structural)]
pub enum GrabError {
    /// The index after a view or screen grab name is not a number.
    InvalidIndex,
    /// The button after `B` is not a number.
    InvalidButton,
    /// No keysym has this name.
    KeyNotFound,
    /// No key produces this keysym.
    KeysymNotFound,
    /// There is no gravity for the grabs to use.
    NoGravities,
}

/// A key or mouse grab: its flags, key code or button, modifiers and action.
#[derive(Debug)]
pub struct Grab {
    pub flags: u32,
    pub keycode: u8,
    pub modifiers: u16,
    pub action: GrabAction,
}

/// A grab with an index parsed from the text after a prefix of `n` chars.
pub open spec fn indexed(name: Seq<char>, n: int, flag: u32) -> Result<(u32, ActionValue), GrabError> {
    match parsed_unsigned(name.subrange(n, name.len() as int), u32::MAX as int) {
        Some(v) => Ok((flag, ActionValue::Index(v as u32))),
        None => Err(GrabError::InvalidIndex),
    }
}

/// Flags and action of a grab name.
pub open spec fn grab_of_name(name: Seq<char>) -> Result<(u32, ActionValue), GrabError> {
    if name == "subtle_reload"@ {
        Ok((SUBTLE_RELOAD, ActionValue::Nothing))
    } else if name == "subtle_restart"@ {
        Ok((SUBTLE_RESTART, ActionValue::Nothing))
    } else if name == "subtle_quit"@ {
        Ok((SUBTLE_QUIT, ActionValue::Nothing))
    } else if name == "window_toggle"@ {
        Ok((WINDOW_MODE, ActionValue::Nothing))
    } else if name == "window_stack"@ {
        Ok((WINDOW_RESTACK, ActionValue::Nothing))
    } else if name == "window_select"@ {
        Ok((WINDOW_SELECT, ActionValue::Nothing))
    } else if name == "window_gravity"@ {
        Ok((WINDOW_GRAVITY, ActionValue::Nothing))
    } else if name == "window_kill"@ {
        Ok((WINDOW_KILL, ActionValue::Nothing))
    } else if name == "window_float"@ {
        Ok((WINDOW_MODE, ActionValue::Index(MODE_FLOAT)))
    } else if name == "window_full"@ {
        Ok((WINDOW_MODE, ActionValue::Index(MODE_FULL)))
    } else if name == "window_stick"@ {
        Ok((WINDOW_MODE, ActionValue::Index(MODE_STICK)))
    } else if name == "window_zaphod"@ {
        Ok((WINDOW_MODE, ActionValue::Index(MODE_ZAPHOD)))
    } else if name == "window_raise"@ {
        Ok((WINDOW_RESTACK, ActionValue::Index(2)))
    } else if name == "window_lower"@ {
        Ok((WINDOW_RESTACK, ActionValue::Index(1)))
    } else if name == "window_left"@ {
        Ok((WINDOW_SELECT, ActionValue::Index(4)))
    } else if name == "window_down"@ {
        Ok((WINDOW_SELECT, ActionValue::Index(3)))
    } else if name == "window_right"@ {
        Ok((WINDOW_SELECT, ActionValue::Index(2)))
    } else if name == "window_up"@ {
        Ok((WINDOW_SELECT, ActionValue::Index(1)))
    } else if name == "window_move"@ {
        Ok((WINDOW_MOVE, ActionValue::Nothing))
    } else if name == "window_resize"@ {
        Ok((WINDOW_RESIZE, ActionValue::Nothing))
    } else if has_prefix(name, "view_jump"@) {
        indexed(name, 9, VIEW_JUMP)
    } else if has_prefix(name, "view_switch"@) {
        indexed(name, 11, VIEW_SWITCH)
    } else if has_prefix(name, "screen_jump"@) {
        indexed(name, 11, SCREEN_JUMP)
    } else {
        Ok((COMMAND, ActionValue::Command(name)))
    }
}

/// Parse the index after a grab name prefix of `n` characters.
fn parse_index(name: &str, n: usize, flag: u32) -> (r: Result<(u32, GrabAction), GrabError>)
    requires
        n <= name@.len(),
    ensures
        match r {
            Ok((f, a)) => indexed(name@, n as int, flag) == Ok::<(u32, ActionValue), GrabError>((f, a.value())),
            Err(e) => indexed(name@, n as int, flag) == Err::<(u32, ActionValue), GrabError>(e),
        },
{
    match parse_unsigned(suffix_from(name, n), 0xffff_ffff) {
        Some(v) => Ok((flag, GrabAction::Index(v as u32))),
        None => Err(GrabError::InvalidIndex),
    }
}

/// Parse the name of a grab into its flags and action: fixed names for
/// the subtle and window actions, `view_jump`, `view_switch` and
/// `screen_jump` followed by an index, and any other name as a command.
pub fn parse_name(name: &str) -> (r: Result<(u32, GrabAction), GrabError>)
    ensures
        match r {
            Ok((f, a)) => grab_of_name(name@) == Ok::<(u32, ActionValue), GrabError>((f, a.value())),
            Err(e) => grab_of_name(name@) == Err::<(u32, ActionValue), GrabError>(e),
        },
{
    if str_eq(name, "subtle_reload") {
        Ok((SUBTLE_RELOAD, GrabAction::Nothing))
    } else if str_eq(name, "subtle_restart") {
        Ok((SUBTLE_RESTART, GrabAction::Nothing))
    } else if str_eq(name, "subtle_quit") {
        Ok((SUBTLE_QUIT, GrabAction::Nothing))
    } else if str_eq(name, "window_toggle") {
        Ok((WINDOW_MODE, GrabAction::Nothing))
    } else if str_eq(name, "window_stack") {
        Ok((WINDOW_RESTACK, GrabAction::Nothing))
    } else if str_eq(name, "window_select") {
        Ok((WINDOW_SELECT, GrabAction::Nothing))
    } else if str_eq(name, "window_gravity") {
        Ok((WINDOW_GRAVITY, GrabAction::Nothing))
    } else if str_eq(name, "window_kill") {
        Ok((WINDOW_KILL, GrabAction::Nothing))
    } else if str_eq(name, "window_float") {
        Ok((WINDOW_MODE, GrabAction::Index(MODE_FLOAT)))
    } else if str_eq(name, "window_full") {
        Ok((WINDOW_MODE, GrabAction::Index(MODE_FULL)))
    } else if str_eq(name, "window_stick") {
        Ok((WINDOW_MODE, GrabAction::Index(MODE_STICK)))
    } else if str_eq(name, "window_zaphod") {
        Ok((WINDOW_MODE, GrabAction::Index(MODE_ZAPHOD)))
    } else if str_eq(name, "window_raise") {
        Ok((WINDOW_RESTACK, GrabAction::Index(2)))
    } else if str_eq(name, "window_lower") {
        Ok((WINDOW_RESTACK, GrabAction::Index(1)))
    } else if str_eq(name, "window_left") {
        Ok((WINDOW_SELECT, GrabAction::Index(4)))
    } else if str_eq(name, "window_down") {
        Ok((WINDOW_SELECT, GrabAction::Index(3)))
    } else if str_eq(name, "window_right") {
        Ok((WINDOW_SELECT, GrabAction::Index(2)))
    } else if str_eq(name, "window_up") {
        Ok((WINDOW_SELECT, GrabAction::Index(1)))
    } else if str_eq(name, "window_move") {
        Ok((WINDOW_MOVE, GrabAction::Nothing))
    } else if str_eq(name, "window_resize") {
        Ok((WINDOW_RESIZE, GrabAction::Nothing))
    } else if starts_with(name, "view_jump") {
        proof {
            reveal_strlit("view_jump");
        }
        parse_index(name, 9, VIEW_JUMP)
    } else if starts_with(name, "view_switch") {
        proof {
            reveal_strlit("view_switch");
        }
        parse_index(name, 11, VIEW_SWITCH)
    } else if starts_with(name, "screen_jump") {
        proof {
            reveal_strlit("screen_jump");
        }
        parse_index(name, 11, SCREEN_JUMP)
    } else {
        Ok((COMMAND, GrabAction::Command(String::from_str(name))))
    }
}


/// The keysym that the name stands for, as the table of X11 keysym names
/// gives it.
pub uninterp spec fn keysym_named(name: Seq<char>) -> Option<u32>;

/// Look a keysym up by its name in `x11_keysymdef`'s table.
///
/// Trusted: `x11_keysymdef::lookup_by_name` reads a fixed table that the
/// crate builds from its `keysym.json`; the result depends on the name alone
/// and is named `keysym_named`.
#[verifier::external_body]
fn lookup_keysym(name: &str) -> (r: Option<u32>)
    ensures
        r == keysym_named(name@),
{
    x11_keysymdef::lookup_by_name(name).map(|record| record.keysym)
}

/// End of the key name that starts at `i`: the index of the next `-`, or the
/// length of `s`.
pub open spec fn segment_end(s: Seq<char>, i: int) -> int
    decreases s.len() - i,
{
    if i >= s.len() {
        s.len() as int
    } else if s[i] == '-' {
        i
    } else {
        segment_end(s, i + 1)
    }
}

/// The end of a key name lies between its start and the end of the text,
/// and before the end it is a `-`.
pub proof fn lemma_segment_end(s: Seq<char>, i: int)
    requires
        0 <= i <= s.len(),
    ensures
        i <= segment_end(s, i) <= s.len(),
        segment_end(s, i) < s.len() ==> s[segment_end(s, i)] == '-',
    decreases s.len() - i,
{
    if i < s.len() && s[i] != '-' {
        lemma_segment_end(s, i + 1);
    }
}

/// The modifier that a key name stands for, or 0.
pub open spec fn modifier_of(key: Seq<char>) -> u16 {
    if key == "S"@ {
        MOD_SHIFT
    } else if key == "C"@ {
        MOD_CONTROL
    } else if key == "A"@ {
        MOD_1
    } else if key == "M"@ {
        MOD_3
    } else if key == "W"@ {
        MOD_4
    } else if key == "G"@ {
        MOD_5
    } else {
        0
    }
}

/// A mouse button name: `B` and one more ASCII character.
pub open spec fn is_button_name(key: Seq<char>) -> bool {
    key.len() == 2 && key[0] == 'B' && (key[1] as u32) < 128
}

/// Key code, modifiers and mouse flag after reading one key name.
pub open spec fn key_step(key: Seq<char>, state: (u8, u16, bool), keycodes: Map<u32, u8>) -> Result<
    (u8, u16, bool),
    GrabError,
> {
    if modifier_of(key) != 0 {
        Ok((state.0, state.1 | modifier_of(key), state.2))
    } else if is_button_name(key) {
        match parsed_unsigned(key.subrange(1, 2), 255) {
            Some(b) => Ok((b as u8, state.1, true)),
            None => Err(GrabError::InvalidButton),
        }
    } else {
        match keysym_named(key) {
            None => Err(GrabError::KeyNotFound),
            Some(keysym) => if keycodes.contains_key(keysym) {
                Ok((keycodes[keysym], state.1, state.2))
            } else {
                Err(GrabError::KeysymNotFound)
            },
        }
    }
}

/// Read the key names of `s` from index `i` on, separated by `-`.
pub open spec fn keys_from(s: Seq<char>, i: int, state: (u8, u16, bool), keycodes: Map<u32, u8>) -> Result<
    (u8, u16, bool),
    GrabError,
>
    decreases s.len() + 1 - i,
{
    if i < 0 || i > s.len() {
        Ok(state)
    } else {
        let e = segment_end(s, i);
        proof {
            lemma_segment_end(s, i);
        }
        match key_step(s.subrange(i, e), state, keycodes) {
            Err(err) => Err(err),
            Ok(next) => if e >= s.len() {
                Ok(next)
            } else {
                keys_from(s, e + 1, next, keycodes)
            },
        }
    }
}

/// Key code, modifiers and mouse flag of a key combination such as `W-S-Return`.
pub open spec fn keys_of(s: Seq<char>, keycodes: Map<u32, u8>) -> Result<(u8, u16, bool), GrabError> {
    keys_from(s, 0, (0, 0, false), keycodes)
}

/// The key code that a keysym has in `keycodes`, once the keysym was looked up.
pub fn keycode_of_keysym(keysym: Option<u32>, keysyms_to_keycode: &HashMap<u32, u8>) -> (r: Result<u8, GrabError>)
    ensures
        match keysym {
            None => r == Err::<u8, GrabError>(GrabError::KeyNotFound),
            Some(k) => if keysyms_to_keycode@.contains_key(k) {
                r == Ok::<u8, GrabError>(keysyms_to_keycode@[k])
            } else {
                r == Err::<u8, GrabError>(GrabError::KeysymNotFound)
            },
        },
{
    match keysym {
        None => Err(GrabError::KeyNotFound),
        Some(k) => match keysyms_to_keycode.get(&k) {
            Some(code) => Ok(*code),
            None => Err(GrabError::KeysymNotFound),
        },
    }
}

/// Apply one key name to the key code, modifiers and mouse flag read so far.
fn apply_key(key: &str, state: (u8, u16, bool), keysyms_to_keycode: &HashMap<u32, u8>) -> (r: Result<
    (u8, u16, bool),
    GrabError,
>)
    ensures
        r == key_step(key@, state, keysyms_to_keycode@),
{
    let modifier: u16 = if str_eq(key, "S") {
        MOD_SHIFT
    } else if str_eq(key, "C") {
        MOD_CONTROL
    } else if str_eq(key, "A") {
        MOD_1
    } else if str_eq(key, "M") {
        MOD_3
    } else if str_eq(key, "W") {
        MOD_4
    } else if str_eq(key, "G") {
        MOD_5
    } else {
        0
    };
    if modifier != 0 {
        return Ok((state.0, state.1 | modifier, state.2));
    }
    if key.unicode_len() == 2 && key.get_char(0) == 'B' && (key.get_char(1) as u32) < 128 {
        let digits = key.substring_char(1, 2);
        return match parse_unsigned(digits, 255) {
            Some(b) => Ok((b as u8, state.1, true)),
            None => Err(GrabError::InvalidButton),
        };
    }
    let keysym = lookup_keysym(key);
    match keycode_of_keysym(keysym, keysyms_to_keycode) {
        Ok(code) => Ok((code, state.1, state.2)),
        Err(e) => Err(e),
    }
}

/// Index of the next `-` in `s` at or after `i`, or the length of `s`.
fn find_dash(s: &str, i: usize) -> (r: usize)
    requires
        i <= s@.len(),
    ensures
        r == segment_end(s@, i as int),
{
    let n = s.unicode_len();
    let mut j = i;
    while j < n
        invariant
            i <= j <= n,
            n == s@.len(),
            segment_end(s@, i as int) == segment_end(s@, j as int),
        decreases n - j,
    {
        if s.get_char(j) == '-' {
            return j;
        }
        j = j + 1;
    }
    j
}

/// Parse a key combination such as `W-S-Return` or `A-B1`: modifier names
/// `S`, `C`, `A`, `M`, `W` and `G`, mouse buttons `B` and a digit, and any
/// other name as an X11 keysym that `keysyms_to_keycode` maps to a key code.
/// Returns the key code (or button), the modifier mask and whether a mouse
/// button was named.
pub fn parse_keys(keys: &str, keysyms_to_keycode: &HashMap<u32, u8>) -> (r: Result<(u8, u16, bool), GrabError>)
    ensures
        r == keys_of(keys@, keysyms_to_keycode@),
{
    let n = keys.unicode_len();
    let mut i: usize = 0;
    let mut state: (u8, u16, bool) = (0, 0, false);
    loop
        invariant
            i <= n,
            n == keys@.len(),
            keys_of(keys@, keysyms_to_keycode@) == keys_from(keys@, i as int, state, keysyms_to_keycode@),
        decreases n + 1 - i,
    {
        let e = find_dash(keys, i);
        proof {
            lemma_segment_end(keys@, i as int);
        }
        let key = keys.substring_char(i, e);
        match apply_key(key, state, keysyms_to_keycode) {
            Err(err) => {
                return Err(err);
            },
            Ok(next) => {
                state = next;
            },
        }
        if e >= n {
            return Ok(state);
        }
        i = e + 1;
    }
}


/// The mathematical value of a grab.
pub ghost struct GrabValue {
    pub flags: u32,
    pub keycode: u8,
    pub modifiers: u16,
    pub action: ActionValue,
}

impl Grab {
    /// The value of this grab.
    pub open spec fn value(&self) -> GrabValue {
        GrabValue {
            flags: self.flags,
            keycode: self.keycode,
            modifiers: self.modifiers,
            action: self.action.value(),
        }
    }
}

/// The grab that a name and a key combination describe.
pub open spec fn grab_of(name: Seq<char>, keys: Seq<char>, keycodes: Map<u32, u8>) -> Result<GrabValue, GrabError> {
    match grab_of_name(name) {
        Err(e) => Err(e),
        Ok((flags, action)) => match keys_of(keys, keycodes) {
            Err(e) => Err(e),
            Ok((keycode, modifiers, is_mouse)) => Ok(
                GrabValue {
                    flags: flags | (if is_mouse {
                        IS_MOUSE
                    } else {
                        IS_KEY
                    }),
                    keycode,
                    modifiers,
                    action,
                },
            ),
        },
    }
}

impl Grab {
    /// Create a grab from its name (see `parse_name`) and its key
    /// combination (see `parse_keys`); it is a mouse grab if a button was
    /// named and a key grab otherwise.
    pub fn new(name: &str, keys: &str, keysyms_to_keycode: &HashMap<u32, u8>) -> (r: Result<Grab, GrabError>)
        ensures
            match r {
                Ok(g) => grab_of(name@, keys@, keysyms_to_keycode@) == Ok::<GrabValue, GrabError>(g.value()),
                Err(e) => grab_of(name@, keys@, keysyms_to_keycode@) == Err::<GrabValue, GrabError>(e),
            },
    {
        let (flags, action) = match parse_name(name) {
            Ok(v) => v,
            Err(e) => {
                return Err(e);
            },
        };
        let (keycode, modifiers, is_mouse) = match parse_keys(keys, keysyms_to_keycode) {
            Ok(v) => v,
            Err(e) => {
                return Err(e);
            },
        };
        let kind = if is_mouse {
            IS_MOUSE
        } else {
            IS_KEY
        };
        Ok(Grab { flags: flags | kind, keycode, modifiers, action })
    }
}

/// The keysym of each key code: chunk `k` of `keysyms_per_keycode` keysyms
/// from index `j` on belongs to key code `code`; the first keysym of each
/// chunk is mapped to its key code, a later chunk replacing an earlier one,
/// and key code 0 is left out.
pub open spec fn keycode_map_from(keysyms: Seq<u32>, per: int, code: int, j: int, m: Map<u32, u8>) -> Map<
    u32,
    u8,
>
    decreases keysyms.len() - j,
{
    if per <= 0 || j < 0 || j >= keysyms.len() {
        m
    } else {
        let next = if code != 0 {
            m.insert(keysyms[j], code as u8)
        } else {
            m
        };
        if j + per >= keysyms.len() {
            next
        } else {
            keycode_map_from(keysyms, per, code + 1, j + per, next)
        }
    }
}

/// Build the table from keysyms to key codes out of the keyboard mapping:
/// `keysyms` holds `keysyms_per_keycode` keysyms for each key code from
/// `min_keycode` on, and the first of them is mapped to the key code.
pub fn keysyms_to_keycodes(min_keycode: u8, keysyms_per_keycode: u8, keysyms: &Vec<u32>) -> (r: HashMap<u32, u8>)
    requires
        keysyms_per_keycode > 0,
        keysyms.len() <= (256 - min_keycode) * keysyms_per_keycode,
    ensures
        r@ == keycode_map_from(keysyms@, keysyms_per_keycode as int, min_keycode as int, 0, Map::empty()),
{
    let per = keysyms_per_keycode as usize;
    let mut m: HashMap<u32, u8> = HashMap::new();
    if keysyms.len() == 0 {
        return m;
    }
    let mut j: usize = 0;
    let mut code: u32 = min_keycode as u32;
    assert((code - min_keycode) * per == 0) by (nonlinear_arith)
        requires
            code == min_keycode,
    ;
    loop
        invariant_except_break
            j < keysyms.len(),
            j == (code - min_keycode) * per,
            keycode_map_from(keysyms@, per as int, min_keycode as int, 0, Map::empty())
                == keycode_map_from(keysyms@, per as int, code as int, j as int, m@),
        invariant
            per == keysyms_per_keycode,
            per > 0,
            keysyms.len() <= (256 - min_keycode) * per,
            min_keycode <= code,
        ensures
            keycode_map_from(keysyms@, per as int, min_keycode as int, 0, Map::empty()) == m@,
        decreases keysyms.len() - j,
    {
        assert(code < 256) by (nonlinear_arith)
            requires
                j == (code - min_keycode) * per,
                j < (256 - min_keycode) * per,
                per > 0,
                min_keycode <= code,
        ;
        if code != 0 {
            m.insert(keysyms[j], code as u8);
        }
        assert((code + 1 - min_keycode) * per == (code - min_keycode) * per + per) by (nonlinear_arith);
        if keysyms.len() - j <= per {
            break;
        }
        code = code + 1;
        j = j + per;
    }
    m
}


/// Index of the first gravity named `name`, searching from index `i` on.
pub open spec fn gravity_index_from(gravities: Seq<Gravity>, name: Seq<char>, i: int) -> Option<int>
    decreases gravities.len() - i,
{
    if i < 0 || i >= gravities.len() {
        None
    } else if gravities[i].name@ == name {
        Some(i)
    } else {
        gravity_index_from(gravities, name, i + 1)
    }
}

/// The indices of the gravities with the given names, in the order of the
/// names; names without a gravity are left out.
pub open spec fn gravity_ids(names: Seq<String>, gravities: Seq<Gravity>) -> Seq<usize>
    decreases names.len(),
{
    if names.len() == 0 {
        seq![]
    } else {
        let rest = gravity_ids(names.drop_last(), gravities);
        match gravity_index_from(gravities, names.last()@, 0) {
            Some(k) => rest.push(k as usize),
            None => rest,
        }
    }
}

/// The gravity grab of a key combination and a list of gravity names, if
/// the combination parses.
pub open spec fn gravity_grab(keys: Seq<char>, names: Seq<String>, gravities: Seq<Gravity>, keycodes: Map<u32, u8>) -> Seq<
    GrabValue,
> {
    match grab_of("window_gravity"@, keys, keycodes) {
        Ok(g) => seq![
            GrabValue {
                flags: g.flags,
                keycode: g.keycode,
                modifiers: g.modifiers,
                action: ActionValue::List(gravity_ids(names, gravities)),
            },
        ],
        Err(_) => seq![],
    }
}

/// The gravity grabs of a table of key combinations to gravity names.
pub open spec fn items_grabs(items: Seq<(String, Vec<String>)>, gravities: Seq<Gravity>, keycodes: Map<u32, u8>) -> Seq<
    GrabValue,
>
    decreases items.len(),
{
    if items.len() == 0 {
        seq![]
    } else {
        items_grabs(items.drop_last(), gravities, keycodes) + gravity_grab(
            items.last().0@,
            items.last().1@,
            gravities,
            keycodes,
        )
    }
}

/// The grabs of one configuration entry: a key combination for a named
/// grab, or a table of key combinations to gravity lists.
pub open spec fn entry_grabs(name: Seq<char>, value: MixedConfigVal, gravities: Seq<Gravity>, keycodes: Map<u32, u8>) -> Seq<
    GrabValue,
> {
    match value {
        MixedConfigVal::S(keys) => match grab_of(name, keys@, keycodes) {
            Ok(g) => seq![g],
            Err(_) => seq![],
        },
        MixedConfigVal::MVS(items) => items_grabs(items@, gravities, keycodes),
        _ => seq![],
    }
}

/// The grabs of all configuration entries, in their order; entries that do
/// not parse are left out.
pub open spec fn config_grabs(entries: Seq<(String, MixedConfigVal)>, gravities: Seq<Gravity>, keycodes: Map<u32, u8>) -> Seq<
    GrabValue,
>
    decreases entries.len(),
{
    if entries.len() == 0 {
        seq![]
    } else {
        config_grabs(entries.drop_last(), gravities, keycodes) + entry_grabs(
            entries.last().0@,
            entries.last().1,
            gravities,
            keycodes,
        )
    }
}

/// The values of a list of grabs.
pub open spec fn grab_values(grabs: Seq<Grab>) -> Seq<GrabValue> {
    grabs.map_values(|g: Grab| g.value())
}

/// Index of the first gravity with the given name.
pub fn find_gravity(gravities: &Vec<Gravity>, name: &str) -> (r: Option<usize>)
    ensures
        match r {
            Some(k) => gravity_index_from(gravities@, name@, 0) == Some(k as int),
            None => gravity_index_from(gravities@, name@, 0) is None,
        },
{
    let mut i: usize = 0;
    while i < gravities.len()
        invariant
            i <= gravities.len(),
            gravity_index_from(gravities@, name@, 0) == gravity_index_from(gravities@, name@, i as int),
        decreases gravities.len() - i,
    {
        if str_eq(gravities[i].name.as_str(), name) {
            return Some(i);
        }
        i = i + 1;
    }
    None
}

/// The indices of the gravities with the given names, in the order of the
/// names; names without a gravity are left out.
pub fn find_gravity_ids(names: &Vec<String>, gravities: &Vec<Gravity>) -> (r: Vec<usize>)
    ensures
        r@ == gravity_ids(names@, gravities@),
{
    let mut ids: Vec<usize> = Vec::new();
    let mut i: usize = 0;
    while i < names.len()
        invariant
            i <= names.len(),
            ids@ == gravity_ids(names@.subrange(0, i as int), gravities@),
        decreases names.len() - i,
    {
        assert(names@.subrange(0, i + 1).drop_last() =~= names@.subrange(0, i as int));
        if let Some(k) = find_gravity(gravities, names[i].as_str()) {
            ids.push(k);
        }
        i = i + 1;
    }
    assert(names@.subrange(0, names.len() as int) =~= names@);
    ids
}

/// Append the gravity grabs of a table of key combinations to gravity names.
fn push_gravity_grabs(
    out: &mut Vec<Grab>,
    items: &Vec<(String, Vec<String>)>,
    gravities: &Vec<Gravity>,
    keysyms_to_keycode: &HashMap<u32, u8>,
)
    ensures
        grab_values(final(out)@) == grab_values(old(out)@) + items_grabs(items@, gravities@, keysyms_to_keycode@),
{
    let ghost start = grab_values(out@);
    let mut i: usize = 0;
    while i < items.len()
        invariant
            i <= items.len(),
            grab_values(out@) == start + items_grabs(items@.subrange(0, i as int), gravities@, keysyms_to_keycode@),
        decreases items.len() - i,
    {
        assert(items@.subrange(0, i + 1).drop_last() =~= items@.subrange(0, i as int));
        let ghost before = grab_values(out@);
        let r = Grab::new("window_gravity", items[i].0.as_str(), keysyms_to_keycode);
        if let Ok(g) = r {
            let ids = find_gravity_ids(&items[i].1, gravities);
            let grab = Grab { flags: g.flags, keycode: g.keycode, modifiers: g.modifiers, action: GrabAction::List(ids) };
            out.push(grab);
            assert(grab_values(out@) =~= before.push(grab.value()));
        }
        assert(grab_values(out@) =~= start + items_grabs(items@.subrange(0, i + 1), gravities@, keysyms_to_keycode@));
        i = i + 1;
    }
    assert(items@.subrange(0, items.len() as int) =~= items@);
}

/// All grabs of the configuration, in the order of its entries: each entry
/// maps a grab name to its key combination, or `window_gravity` to a table
/// of key combinations and the gravities they cycle through; entries that do
/// not parse are skipped.
pub fn grabs_from_config(grabs: &ConfigTable, gravities: &Vec<Gravity>, keysyms_to_keycode: &HashMap<u32, u8>) -> (r: Vec<Grab>)
    ensures
        grab_values(r@) == config_grabs(grabs.entries@, gravities@, keysyms_to_keycode@),
{
    let mut out: Vec<Grab> = Vec::new();
    let mut i: usize = 0;
    assert(grab_values(out@) =~= seq![]);
    while i < grabs.entries.len()
        invariant
            i <= grabs.entries.len(),
            grab_values(out@) == config_grabs(grabs.entries@.subrange(0, i as int), gravities@, keysyms_to_keycode@),
        decreases grabs.entries.len() - i,
    {
        assert(grabs.entries@.subrange(0, i + 1).drop_last() =~= grabs.entries@.subrange(0, i as int));
        let ghost before = grab_values(out@);
        match &grabs.entries[i].1 {
            MixedConfigVal::S(keys) => {
                if let Ok(g) = Grab::new(grabs.entries[i].0.as_str(), keys.as_str(), keysyms_to_keycode) {
                    out.push(g);
                    assert(grab_values(out@) =~= before.push(g.value()));
                }
            },
            MixedConfigVal::MVS(items) => {
                push_gravity_grabs(&mut out, items, gravities, keysyms_to_keycode);
            },
            _ => {},
        }
        assert(grab_values(out@) =~= config_grabs(
            grabs.entries@.subrange(0, i + 1),
            gravities@,
            keysyms_to_keycode@,
        ));
        i = i + 1;
    }
    assert(grabs.entries@.subrange(0, grabs.entries.len() as int) =~= grabs.entries@);
    out
}

/// Set up the grabs of the configuration (see `grabs_from_config`); this
/// fails when no gravity is defined.
pub fn init(grabs: &ConfigTable, gravities: &Vec<Gravity>, keysyms_to_keycode: &HashMap<u32, u8>) -> (r: Result<
    Vec<Grab>,
    GrabError,
>)
    ensures
        match r {
            Ok(v) => gravities.len() > 0 && grab_values(v@) == config_grabs(
                grabs.entries@,
                gravities@,
                keysyms_to_keycode@,
            ),
            Err(e) => gravities.len() == 0 && e == GrabError::NoGravities,
        },
{
    let v = grabs_from_config(grabs, gravities, keysyms_to_keycode);
    if gravities.len() == 0 {
        return Err(GrabError::NoGravities);
    }
    Ok(v)
}


/// The lock modifiers that each grab is bound with as well, so that it works
/// with scroll lock and num lock on: none, Lock, Mod2, and both.
pub open spec fn lock_state(k: int) -> u16 {
    if k == 0 {
        0
    } else if k == 1 {
        MOD_LOCK
    } else if k == 2 {
        MOD_2
    } else {
        MOD_2 | MOD_LOCK
    }
}

/// The binds of one grab under `mask`: whether it is a key (else a mouse
/// button), its key code or button, and its modifiers with each lock state.
pub open spec fn binds_of_grab(g: Grab, mask: u32) -> Seq<(bool, u8, u16)> {
    if g.flags & mask != 0 && (g.flags & IS_KEY != 0 || g.flags & IS_MOUSE != 0) {
        Seq::new(4, |k: int| (g.flags & IS_KEY != 0, g.keycode, g.modifiers | lock_state(k)))
    } else {
        seq![]
    }
}

/// The binds of all grabs under `mask`, in the order of the grabs.
pub open spec fn binds_of(grabs: Seq<Grab>, mask: u32) -> Seq<(bool, u8, u16)>
    decreases grabs.len(),
{
    if grabs.len() == 0 {
        seq![]
    } else {
        binds_of(grabs.drop_last(), mask) + binds_of_grab(grabs.last(), mask)
    }
}

/// The key and button grabs to bind on a window for the grabs whose flags
/// meet `mask`: each as (is a key, key code or button, modifiers), once for
/// each lock state.
pub fn binds(grabs: &Vec<Grab>, mask: u32) -> (r: Vec<(bool, u8, u16)>)
    ensures
        r@ == binds_of(grabs@, mask),
{
    let mut out: Vec<(bool, u8, u16)> = Vec::new();
    let mut i: usize = 0;
    while i < grabs.len()
        invariant
            i <= grabs.len(),
            out@ == binds_of(grabs@.subrange(0, i as int), mask),
        decreases grabs.len() - i,
    {
        assert(grabs@.subrange(0, i + 1).drop_last() =~= grabs@.subrange(0, i as int));
        let g = &grabs[i];
        let ghost before = out@;
        if intersects(g.flags, mask) && (intersects(g.flags, IS_KEY) || intersects(g.flags, IS_MOUSE)) {
            let is_key = intersects(g.flags, IS_KEY);
            out.push((is_key, g.keycode, g.modifiers | 0));
            out.push((is_key, g.keycode, g.modifiers | MOD_LOCK));
            out.push((is_key, g.keycode, g.modifiers | MOD_2));
            out.push((is_key, g.keycode, g.modifiers | (MOD_2 | MOD_LOCK)));
            assert(out@ =~= before + binds_of_grab(grabs@[i as int], mask));
        } else {
            assert(out@ =~= before + binds_of_grab(grabs@[i as int], mask));
        }
        i = i + 1;
    }
    assert(grabs@.subrange(0, grabs.len() as int) =~= grabs@);
    out
}

} // verus!
