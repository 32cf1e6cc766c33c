use std::collections::HashMap;
use subtle_rs::config::{ConfigTable, MixedConfigVal};
use subtle_rs::event::{after_mode_toggle, key_action, AfterToggle, next_gravity, relevant_modifiers, FocusedClient, KeyAction, KeyError};
use subtle_rs::grab::{
    binds, grabs_from_config, init, keysyms_to_keycodes, parse_keys, parse_name, Grab, GrabAction, GrabError,
    COMMAND, IS_KEY, IS_MOUSE, MOD_1, MOD_4, MOD_CONTROL, MOD_SHIFT, SUBTLE_QUIT, VIEW_JUMP, VIEW_SWITCH,
    WINDOW_GRAVITY, WINDOW_KILL, WINDOW_MODE, WINDOW_RESTACK,
};
use subtle_rs::gravity::Gravity;
use subtle_rs::screen::Screen;
use subtle_rs::subtle::SUBTLE_SKIP_POINTER_WARP;
use subtle_rs::client::MODE_STICK;

const KEYSYM_A: u32 = 0x61;
const KEYSYM_Q: u32 = 0x71;

fn mapping() -> HashMap<u32, u8> {
    let mut m = HashMap::new();
    m.insert(KEYSYM_A, 38u8);
    m.insert(KEYSYM_Q, 24u8);
    m
}

#[test]
fn should_parse_key_combinations() {
    let m = mapping();
    for keys in ["W-a", "C-S-a", "W-C-S-a"] {
        let (keycode, state, is_mouse) = parse_keys(keys, &m).unwrap();
        assert_eq!(keycode, 38);
        assert_ne!(state, 1u16 << 15);
        assert!(!is_mouse);
    }
    assert_eq!(parse_keys("W-C-a", &m), Ok((38, MOD_4 | MOD_CONTROL, false)));
}

#[test]
fn should_parse_mouse() {
    let m = mapping();
    for d in 1..10u8 {
        let keys = format!("W-S-B{}", d);
        let (keycode, state, is_mouse) = parse_keys(&keys, &m).unwrap();
        assert!(0 < keycode);
        assert_eq!(keycode, d);
        assert_eq!(state, MOD_4 | MOD_SHIFT);
        assert!(is_mouse);
    }
}

#[test]
fn parse_keys_errors() {
    let m = mapping();
    assert_eq!(parse_keys("W-Bx", &m), Err(GrabError::InvalidButton));
    assert_eq!(parse_keys("W-nosuchkeyname", &m), Err(GrabError::KeyNotFound));
    assert_eq!(parse_keys("W-b", &m), Err(GrabError::KeysymNotFound));
    assert_eq!(parse_keys("A-", &m), Err(GrabError::KeyNotFound));
}

#[test]
fn parse_keys_looks_up_keysym_names() {
    let mut m = HashMap::new();
    m.insert(0xff0du32, 36u8);
    assert_eq!(parse_keys("A-Return", &m), Ok((36, MOD_1, false)));
}

#[test]
fn parse_name_cases() {
    assert!(matches!(parse_name("subtle_quit"), Ok((f, GrabAction::Nothing)) if f == SUBTLE_QUIT));
    assert!(matches!(parse_name("view_jump3"), Ok((f, GrabAction::Index(3))) if f == VIEW_JUMP));
    assert!(matches!(parse_name("view_switch12"), Ok((f, GrabAction::Index(12))) if f == VIEW_SWITCH));
    assert!(matches!(parse_name("window_raise"), Ok((f, GrabAction::Index(2))) if f == WINDOW_RESTACK));
    assert!(matches!(parse_name("window_float"), Ok((f, GrabAction::Index(128))) if f == WINDOW_MODE));
    assert!(matches!(parse_name("view_switchx"), Err(GrabError::InvalidIndex)));
    match parse_name("xterm -e top") {
        Ok((f, GrabAction::Command(c))) => {
            assert_eq!(f, COMMAND);
            assert_eq!(c, "xterm -e top");
        }
        _ => panic!("not a command"),
    }
}

#[test]
fn grab_new_marks_key_or_mouse() {
    let m = mapping();
    let g = Grab::new("window_kill", "W-q", &m).unwrap();
    assert_eq!(g.flags, WINDOW_KILL | IS_KEY);
    assert_eq!(g.keycode, 24);
    assert_eq!(g.modifiers, MOD_4);
    let g = Grab::new("window_move", "W-B1", &m).unwrap();
    assert_eq!(g.flags & IS_MOUSE, IS_MOUSE);
    assert_eq!(g.keycode, 1);
    assert!(matches!(Grab::new("view_jumpz", "W-q", &m), Err(GrabError::InvalidIndex)));
}

#[test]
fn keysym_table_maps_first_keysym_of_each_code() {
    let table = keysyms_to_keycodes(8, 2, &vec![10, 11, 12, 13, 10, 15]);
    assert_eq!(table.len(), 2);
    assert_eq!(table.get(&10), Some(&10u8));
    assert_eq!(table.get(&12), Some(&9u8));
    let zero = keysyms_to_keycodes(0, 1, &vec![5, 6]);
    assert_eq!(zero.get(&5), None);
    assert_eq!(zero.get(&6), Some(&1u8));
}

fn gravities() -> Vec<Gravity> {
    vec![Gravity::new("left", 0, 0, 50, 100), Gravity::new("right", 50, 0, 50, 100)]
}

#[test]
fn grabs_from_config_in_order() {
    let m = mapping();
    let table = ConfigTable {
        entries: vec![
            ("subtle_quit".to_string(), MixedConfigVal::S("W-q".to_string())),
            (
                "window_gravity".to_string(),
                MixedConfigVal::MVS(vec![("W-a".to_string(), vec!["right".to_string(), "nope".to_string()])]),
            ),
            ("broken".to_string(), MixedConfigVal::I(3)),
            ("view_jumpx".to_string(), MixedConfigVal::S("W-a".to_string())),
        ],
    };
    let grabs = grabs_from_config(&table, &gravities(), &m);
    assert_eq!(grabs.len(), 2);
    assert_eq!(grabs[0].flags, SUBTLE_QUIT | IS_KEY);
    assert_eq!(grabs[1].flags, WINDOW_GRAVITY | IS_KEY);
    match &grabs[1].action {
        GrabAction::List(ids) => assert_eq!(ids, &vec![1usize]),
        _ => panic!("no gravity list"),
    }
    assert!(matches!(init(&table, &vec![], &m), Err(GrabError::NoGravities)));
    assert_eq!(init(&table, &gravities(), &m).unwrap().len(), 2);
}

#[test]
fn binds_cover_lock_states() {
    let grabs = vec![
        Grab { flags: IS_KEY | SUBTLE_QUIT, keycode: 24, modifiers: MOD_4, action: GrabAction::Nothing },
        Grab { flags: IS_MOUSE | WINDOW_KILL, keycode: 1, modifiers: 0, action: GrabAction::Nothing },
    ];
    assert_eq!(
        binds(&grabs, IS_KEY),
        vec![(true, 24, 64), (true, 24, 66), (true, 24, 80), (true, 24, 82)]
    );
    assert_eq!(binds(&grabs, IS_MOUSE).len(), 4);
    assert_eq!(binds(&grabs, 0).len(), 0);
}

#[test]
fn key_press_decisions() {
    assert_eq!(relevant_modifiers(0xff), 1 | 4 | 8 | 64);
    assert_eq!(next_gravity(&vec![3, 5, 7], 5), Some(2));
    assert_eq!(next_gravity(&vec![3, 5, 7], 7), Some(3));
    assert_eq!(next_gravity(&vec![3, 5, 7], -1), Some(3));
    assert_eq!(next_gravity(&vec![], 0), None);

    let screens = vec![Screen::new(0, 0, 100, 100, 1, 2), Screen::new(100, 0, 100, 100, 3, 4)];
    let switch = Grab { flags: IS_KEY | VIEW_SWITCH, keycode: 10, modifiers: 0, action: GrabAction::Index(2) };
    assert_eq!(
        key_action(&switch, 3, 0, None, 0, &screens, 150, 10),
        Ok(KeyAction::FocusView { view: 1, screen: 1, swap: true })
    );
    assert_eq!(key_action(&switch, 1, 0, None, 0, &screens, 150, 10), Ok(KeyAction::Nothing));

    let focus = FocusedClient { flags: 1 << 7, tags: 1, screen_idx: 0, gravity_idx: 5 };
    let mode = Grab { flags: IS_KEY | WINDOW_MODE, keycode: 10, modifiers: 0, action: GrabAction::Index(1 << 30) };
    assert_eq!(key_action(&mode, 3, 0, Some(focus), 1, &screens, 0, 0), Err(KeyError::UnknownFlags));
    let gravity = Grab { flags: IS_KEY | WINDOW_GRAVITY, keycode: 10, modifiers: 0, action: GrabAction::List(vec![]) };
    assert_eq!(key_action(&gravity, 3, 0, Some(focus), 1, &screens, 0, 0), Err(KeyError::NoGravity));
    let gravity = Grab { flags: IS_KEY | WINDOW_GRAVITY, keycode: 10, modifiers: 0, action: GrabAction::List(vec![5, 6]) };
    assert_eq!(
        key_action(&gravity, 3, 0, Some(focus), 1, &screens, 0, 0),
        Ok(KeyAction::Gravity { modes: 1 << 7, reset_gravity: true, gravity: 5, warp: true })
    );
    let tiled = FocusedClient { flags: 0, tags: 1, screen_idx: 0, gravity_idx: 5 };
    assert_eq!(
        key_action(&gravity, 3, SUBTLE_SKIP_POINTER_WARP, Some(tiled), 1, &screens, 0, 0),
        Ok(KeyAction::Gravity { modes: 0, reset_gravity: false, gravity: 1, warp: false })
    );
    assert_eq!(after_mode_toggle(true, 0), AfterToggle::Refresh);
    assert_eq!(after_mode_toggle(false, MODE_STICK), AfterToggle::FocusNextAndRefresh);
    assert_eq!(after_mode_toggle(false, MODE_STICK | 1), AfterToggle::Nothing);
    let quit = Grab { flags: IS_KEY | SUBTLE_QUIT, keycode: 10, modifiers: 0, action: GrabAction::Nothing };
    assert_eq!(key_action(&quit, 3, 0, None, 0, &screens, 0, 0), Ok(KeyAction::Quit));
}
