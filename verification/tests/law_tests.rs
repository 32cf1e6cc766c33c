use subtle_rs::client::{Client, ALL_MODES, MODE_BORDERLESS, MODE_FLOAT, MODE_FULL, MODE_URGENT};
use subtle_rs::screen::Screen;
use subtle_rs::toggle::ToggleContext;
use std::collections::HashMap;
use subtle_rs::bits::{bit_at, contains};
use subtle_rs::grab::{parse_keys, MOD_3, MOD_5};
use subtle_rs::panel::{layout, Panel, PANEL_LEFT_POS, PANEL_SEPARATOR};

#[test]
fn should_add_and_match_tag_from_bits() {
    for id in 0..31usize {
        let other = id + 1;
        let tag1 = bit_at(id);
        let tag2 = bit_at(other);
        assert!(contains(tag1, tag1));
        assert!(!contains(tag1, tag2));
    }
}

#[test]
fn should_clear_tag_if_set() {
    let tag1 = bit_at(0);
    let tag2 = bit_at(3);
    let tag3 = bit_at(9);
    let tagging = tag1 | tag3;
    let remaining = tagging & !(tagging & (tag2 | tag3));
    assert!(contains(remaining, tag1));
    assert!(!contains(remaining, tag2));
    assert!(!contains(remaining, tag3));
}

#[test]
fn modifier_prefix_adds_modifier() {
    let mut m = HashMap::new();
    m.insert(0x61u32, 38u8);
    let (c, mods, mouse) = parse_keys("a", &m).unwrap();
    assert_eq!(parse_keys("M-a", &m), Ok((c, mods | MOD_3, mouse)));
    assert_eq!(parse_keys("G-M-a", &m), Ok((c, mods | MOD_3 | MOD_5, mouse)));
    assert_eq!(parse_keys("M-b", &m), parse_keys("b", &m));
}

#[test]
fn mouse_button_digits() {
    let m = HashMap::new();
    for d in 0..10u8 {
        assert_eq!(parse_keys(&format!("B{}", d), &m), Ok((d, 0, true)));
    }
}

#[test]
fn placed_items_do_not_overlap() {
    let mut panels: Vec<Panel> = [17u16, 5, 30]
        .iter()
        .map(|w| Panel { flags: PANEL_SEPARATOR | PANEL_LEFT_POS, x: 0, width: *w, screen_id: 0, plugin_id: 0,
            text: None, text_widths: vec![0] })
        .collect();
    layout(&mut panels, 100);
    assert!(panels[1].x >= panels[0].x + panels[0].width as i16);
    assert!(panels[2].x >= panels[1].x + panels[1].width as i16);
    assert_eq!(panels[2].x, 22);
}

#[test]
fn toggling_twice_restores_modes() {
    let screens = vec![Screen::new(0, 0, 800, 600, 1, 2)];
    let views = vec![];
    let ctx = ToggleContext {
        set_gravity: false,
        skip_pointer_warp: true,
        focus: None,
        pointer: None,
        border_width: 2,
        panel_height: 16,
    };
    let mut c = Client::new(9, 10, 10, 100, 100, -1, 1);
    c.flags = c.flags | MODE_URGENT;
    let before = c.flags & ALL_MODES;
    let mut m1 = MODE_FULL | MODE_FLOAT | MODE_BORDERLESS;
    c.toggle(&mut m1, &screens, &views, ctx);
    assert_ne!(c.flags & ALL_MODES, before);
    let mut m2 = MODE_FULL | MODE_FLOAT | MODE_BORDERLESS;
    c.toggle(&mut m2, &screens, &views, ctx);
    assert_eq!(c.flags & ALL_MODES, before);
}
