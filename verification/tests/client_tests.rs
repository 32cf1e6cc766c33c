use std::cmp::Ordering;
use subtle_rs::client::{
    warp_target, Client, RestackOrder, ARRANGE, CLOSE, DEAD, FOCUS, INPUT, MODE_CENTER, MODE_FIXED, MODE_FLOAT, MODE_FULL, MODE_RESIZE,
    MODE_STICK, MODE_URGENT, MODE_ZAPHOD, TYPE_DESKTOP, TYPE_DIALOG, TYPE_DOCK,
};
use subtle_rs::config::{ConfigTable, MixedConfigVal};
use subtle_rs::gravity::{Gravity, GRAVITY_HORZ, GRAVITY_VERT};
use subtle_rs::hints::{
    parse_class, set_net_wm_state, HintsError, SizeHints, StateAtoms, TypeAtoms, WmHintsInfo,
};
use subtle_rs::lifecycle::{get_default_gravity, set_strut};
use subtle_rs::rect::Rect;
use subtle_rs::setup::tags_from_config;
use subtle_rs::spacing::Spacing;
use subtle_rs::subtle::{initial_focus_history, remember_focus, find_client, find_focus_win, find_next, remove_client_by_win, SUBTLE_GRAVITY_TILING, SUBTLE_RESIZE, SUBTLE_URGENT};
use subtle_rs::view::TagView;
use subtle_rs::screen::Screen;
use subtle_rs::toggle::ToggleContext;
use subtle_rs::arrange::ArrangeContext;
use subtle_rs::tile::tile_fits;

fn client(win: u32, tags: u32, flags: u32, screen: isize) -> Client {
    let mut c = Client::new(win, 0, 0, 100, 100, -1, 2);
    c.tags = tags;
    c.flags = flags;
    c.screen_idx = screen;
    c
}

#[test]
fn new_client_state() {
    let c = Client::new(7, 3, 4, 0, 50, 1, 3);
    assert_eq!(c.flags, INPUT);
    assert_eq!(c.win, 7);
    assert_eq!(c.screen_idx, 0);
    assert_eq!(c.gravity_idx, -1);
    assert_eq!(c.geom, Rect { x: 3, y: 4, width: 1, height: 50 });
    assert_eq!(c.gravities, vec![1, 1, 1]);
    let d = Client::new(8, 0, 0, 10, 10, -1, 1);
    assert_eq!(d.gravities, vec![usize::MAX]);
}

#[test]
fn mode_string_order() {
    let c = client(1, 0, MODE_FULL | MODE_FLOAT | MODE_FIXED, 0);
    assert_eq!(c.mode_string(), "+^!");
    let c = client(1, 0, MODE_STICK | MODE_RESIZE | MODE_ZAPHOD, 0);
    assert_eq!(c.mode_string(), "*-=");
    assert_eq!(client(1, 0, 0, 0).mode_string(), "");
}

#[test]
fn stacking_order() {
    let desktop = client(1, 0, TYPE_DESKTOP, 0);
    let normal = client(2, 0, 0, 0);
    let float = client(3, 0, MODE_FLOAT, 0);
    let full = client(4, 0, MODE_FULL, 0);
    assert_eq!(desktop.cmp(&normal), Ordering::Less);
    assert_eq!(desktop.cmp(&full), Ordering::Less);
    assert_eq!(full.cmp(&desktop), Ordering::Greater);
    assert_eq!(normal.cmp(&desktop), Ordering::Greater);
    assert_eq!(normal.cmp(&float), Ordering::Less);
    assert_eq!(float.cmp(&normal), Ordering::Greater);
    assert_eq!(float.cmp(&full), Ordering::Less);
    assert_eq!(full.cmp(&float), Ordering::Greater);
    assert_eq!(normal.cmp(&normal), Ordering::Equal);
    let mut up = client(5, 0, 0, 0);
    up.order = RestackOrder::Up;
    assert_eq!(up.cmp(&normal), Ordering::Greater);
    assert_eq!(normal.cmp(&up), Ordering::Less);
    assert!(normal.eq(&client(2, 1, MODE_FLOAT, 1)));
}

#[test]
fn protocol_type_and_state_flags() {
    let mut c = client(1, 0, INPUT, 0);
    c.set_wm_protocols(&vec![1, 2, 3], 2, 3);
    assert_eq!(c.flags, INPUT | FOCUS | CLOSE);
    let atoms = TypeAtoms { desktop: 10, dock: 11, toolbar: 12, splash: 13, dialog: 14 };
    let mut modes = 0u32;
    c.set_wm_type(&vec![14, 99], atoms, &mut modes);
    assert_eq!(c.flags & TYPE_DIALOG, TYPE_DIALOG);
    assert_eq!(modes, MODE_FLOAT | MODE_CENTER);
    let mut modes = 0u32;
    set_net_wm_state(&vec![21, 23], StateAtoms { fullscreen: 20, above: 21, sticky: 22, demands_attention: 23 }, &mut modes);
    assert_eq!(modes, MODE_FLOAT | MODE_URGENT);
}

#[test]
fn transient_and_hints() {
    let parent = client(9, 4, MODE_STICK, 1);
    let clients = vec![parent];
    let mut c = client(1, 1, INPUT, 0);
    let mut modes = 0u32;
    c.set_transient(&vec![9], &clients, SUBTLE_URGENT, &mut modes);
    assert_eq!(modes, MODE_FLOAT | MODE_URGENT | MODE_STICK);
    assert_eq!(c.tags, 5);
    assert_eq!(c.screen_idx, 1);
    let mut d = client(2, 1, INPUT | MODE_URGENT, 0);
    d.set_wm_hints(Some(WmHintsInfo { urgent: true, window_group: None, input: Some(false) }), &clients, &vec![5]);
    assert_eq!(d.flags, 0);
    let mut e = client(3, 1, INPUT, 0);
    e.set_wm_hints(Some(WmHintsInfo { urgent: false, window_group: Some(9), input: None }), &clients, &vec![]);
    assert_eq!((e.flags, e.tags, e.screen_idx), (MODE_STICK, 4, 1));
}

#[test]
fn size_hints() {
    let mut c = client(1, 0, MODE_FLOAT | MODE_RESIZE | TYPE_DOCK, 0);
    let mut modes = 0u32;
    let hints = SizeHints {
        position: Some((10, 20)),
        size: Some((300, 200)),
        min_size: Some((50, 40)),
        max_size: Some((50, 40)),
        size_increment: Some((4, 6)),
        aspect: None,
        base_size: Some((2, 3)),
    };
    assert_eq!(c.set_size_hints(Some(hints), None, 16, 0, &mut modes), Err(HintsError::NoScreens));
    let screen = Rect { x: 0, y: 0, width: 800, height: 600 };
    assert_eq!(c.set_size_hints(Some(hints), Some(screen), 16, 0, &mut modes), Ok(true));
    assert_eq!((c.min_width, c.min_height, c.max_width, c.max_height), (50, 40, 50, 40));
    assert_eq!((c.width_inc, c.height_inc, c.base_width, c.base_height), (4, 6, 2, 3));
    assert_eq!(c.geom, Rect { x: 10, y: 20, width: 300, height: 200 });
    assert_eq!(modes, MODE_FLOAT | MODE_FIXED);
    let mut tall = client(2, 0, 0, 0);
    let mut m2 = 0u32;
    let big = SizeHints { max_size: Some((9000, 9000)), position: Some((1, 1)), ..hints };
    assert_eq!(tall.set_size_hints(Some(big), Some(screen), 16, 0, &mut m2), Ok(false));
    assert_eq!((tall.max_width, tall.max_height), (800, 584));
    assert_eq!(tall.geom.x, 0);
    assert_eq!(m2, 0);
    let mut wide = client(4, 0, 0, 0);
    let mut m4 = 0u32;
    let huge_min = SizeHints { min_size: Some((5000, 0)), max_size: None, position: None, ..hints };
    assert!(wide.set_size_hints(Some(huge_min), Some(screen), 16, 0, &mut m4).is_ok());
    assert_eq!((wide.min_width, wide.min_height), (800, 1));
    let mut plain = client(3, 0, 0, 0);
    let mut m3 = 0u32;
    assert_eq!(plain.set_size_hints(None, Some(screen), 16, SUBTLE_RESIZE, &mut m3), Ok(false));
    assert_eq!((plain.min_width, plain.max_width, plain.width_inc), (1, -1, 1));
}

#[test]
fn class_property_parts() {
    assert_eq!(parse_class("xterm\0XTerm\0"), Some(("xterm".to_string(), "XTerm".to_string())));
    assert_eq!(parse_class("\0\0a\0b\0c"), Some(("a".to_string(), "b".to_string())));
    assert_eq!(parse_class("abc"), None);
    let mut c = client(1, 0, 0, 0);
    c.set_wm_name("top".to_string(), "".to_string(), "urxvt\0URxvt\0");
    assert_eq!((c.name.as_str(), c.instance.as_str(), c.klass.as_str()), ("top", "urxvt", "URxvt"));
}

#[test]
fn leader_and_strut() {
    let mut c = client(1, 0, 0, 0);
    c.set_leader(&vec![]);
    assert_eq!(c.leader, 0);
    c.set_leader(&vec![42, 1]);
    assert_eq!(c.leader, 42);
    let p = Spacing { top: 1, right: 10, bottom: 0, left: 0 };
    assert_eq!(set_strut(p, &vec![5, 3, 0, 20]), Some(Spacing { top: 1, right: 10, bottom: 20, left: 5 }));
    assert_eq!(set_strut(p, &vec![5, 3]), None);
}

#[test]
fn retag_by_patterns() {
    let tables = vec![
        ConfigTable { entries: vec![("name".to_string(), MixedConfigVal::S("terms".to_string())),
            ("match".to_string(), MixedConfigVal::S("TERM".to_string()))] },
        ConfigTable { entries: vec![("name".to_string(), MixedConfigVal::S("web".to_string())),
            ("match".to_string(), MixedConfigVal::S("firefox|chromium".to_string()))] },
    ];
    let tags = tags_from_config(&tables, &vec![]).unwrap();
    let mut c = client(1, 0, 0, 0);
    c.name = "xterm".to_string();
    c.retag(&tags, &vec![], 0);
    assert_eq!(c.tags, 1);
    let mut s = client(2, 4, MODE_STICK, 0);
    s.klass = "Other".to_string();
    let mut v = TagView::new("v".to_string());
    v.tags = 2;
    s.retag(&tags, &vec![v], 0);
    assert_eq!(s.tags, 5);
    let mut shown = client(3, 4, MODE_STICK, 0);
    let mut w = TagView::new("w".to_string());
    w.tags = 6;
    shown.retag(&tags, &vec![w], 0);
    assert_eq!(shown.tags, 4);
    let mut dead = client(3, 0, DEAD, 0);
    dead.name = "xterm".to_string();
    dead.retag(&tags, &vec![], 0);
    assert_eq!(dead.tags, 0);
}

#[test]
fn client_lookups() {
    let mut clients = vec![client(1, 1, 0, 0), client(2, 1, DEAD, 0), client(3, 1, 0, 1), client(2, 2, 0, 0)];
    assert_eq!(find_client(&clients, 2), Some(1));
    assert_eq!(find_client(&clients, 9), None);
    assert_eq!(find_focus_win(&vec![3, 1]), 3);
    assert_eq!(find_focus_win(&vec![]), 0);
    assert_eq!(find_next(&clients, &vec![1, 3], 1, false, 1), Some(2));
    assert_eq!(find_next(&clients, &vec![1, 3], 0, false, 1), Some(0));
    assert_eq!(find_next(&clients, &vec![1], 0, false, 1), Some(0));
    assert_eq!(find_next(&clients, &vec![1], 5, true, 1), Some(2));
    assert_eq!(find_next(&clients, &vec![1], 5, false, 1), None);
    remove_client_by_win(&mut clients, 2);
    assert_eq!(clients.iter().map(|c| c.win).collect::<Vec<_>>(), vec![1, 3]);
    assert_eq!(get_default_gravity(-1, &clients, &vec![3]), -1);
    clients[1].gravity_idx = 4;
    assert_eq!(get_default_gravity(-1, &clients, &vec![3]), 4);
    assert_eq!(get_default_gravity(2, &clients, &vec![3]), 2);
}

#[test]
fn focus_and_kill() {
    let clients = vec![client(1, 1, 0, 0), client(2, 1, TYPE_DESKTOP, 0)];
    let c = client(3, 1, INPUT, 0);
    let plan = c.focus_plan(1, &clients, &vec![2], 0, true).unwrap();
    assert_eq!(plan.unfocus, Some((1, false)));
    assert!(plan.input_focus);
    assert!(!plan.take_focus_message);
    assert!(plan.border);
    assert!(plan.warp);
    assert!(c.focus_plan(2, &clients, &vec![2], 0, true).is_none());
    let f = client(4, 1, FOCUS | TYPE_DOCK, 0);
    let plan = f.focus_plan(1, &clients, &vec![4], subtle_rs::subtle::SUBTLE_SKIP_POINTER_WARP, true).unwrap();
    assert_eq!(plan.unfocus, None);
    assert!(plan.take_focus_message);
    assert!(!plan.border);
    assert!(!plan.warp);

    let mut g = client(5, 3, MODE_URGENT, 0);
    g.gravity_idx = 0;
    let gravities = vec![Gravity::new("g", 0, 0, 100, 100)];
    let k = g.kill_effects(7, 1, &gravities, SUBTLE_GRAVITY_TILING);
    assert_eq!(k.urgent_tags, 4);
    assert!(k.tile);
    let mut hv = Gravity::new("hv", 0, 0, 100, 100);
    hv.flags = GRAVITY_HORZ | GRAVITY_VERT;
    let k = g.kill_effects(7, 1, &vec![hv], 0);
    assert!(k.tile);
    let k = g.kill_effects(7, 8, &gravities, SUBTLE_GRAVITY_TILING);
    assert!(!k.tile);
    assert!(client(6, 0, CLOSE, 0).closes_by_request());
}

#[test]
fn retag_twice_is_retag_once() {
    let tables = vec![
        ConfigTable { entries: vec![("name".to_string(), MixedConfigVal::S("terms".to_string())),
            ("match".to_string(), MixedConfigVal::S("TERM".to_string()))] },
        ConfigTable { entries: vec![("name".to_string(), MixedConfigVal::S("web".to_string())),
            ("match".to_string(), MixedConfigVal::S("firefox|chromium".to_string()))] },
    ];
    let tags = tags_from_config(&tables, &vec![]).unwrap();
    let mut v = TagView::new("v".to_string());
    v.tags = 2;
    let views = vec![v];
    let mut c = client(1, 8, MODE_STICK, 0);
    c.name = "xterm".to_string();
    c.retag(&tags, &views, 0);
    let once = c.tags;
    c.retag(&tags, &views, 0);
    assert_eq!(c.tags, once);
    assert_eq!(once, 8 | 1);
}

#[test]
fn aspect_step_only_with_aspect_hints() {
    let bounds = Rect { x: 0, y: 0, width: 800, height: 600 };
    let margin = Spacing { top: 0, right: 0, bottom: 0, left: 0 };
    let mut plain = client(1, 0, MODE_RESIZE, 0);
    plain.width_inc = 1;
    plain.height_inc = 1;
    plain.max_width = -1;
    plain.max_height = -1;
    let mut g = Rect { x: 0, y: 0, width: 300, height: 200 };
    plain.apply_size_hints(2, margin, bounds, false, false, &mut g, &|_| 7u16);
    assert_eq!(g, Rect { x: 0, y: 0, width: 300, height: 200 });
    let mut hinted = client(2, 0, MODE_RESIZE, 0);
    hinted.width_inc = 1;
    hinted.height_inc = 1;
    hinted.max_width = -1;
    hinted.max_height = -1;
    hinted.aspect = Some(((1, 1), (1, 1)));
    let mut h = Rect { x: 0, y: 0, width: 300, height: 200 };
    hinted.apply_size_hints(2, margin, bounds, false, false, &mut h, &|_| 7u16);
    assert_eq!(h, Rect { x: 0, y: 0, width: 7, height: 200 });
}

#[test]
fn retag_checked_refuses_overflow() {
    let mut tables = Vec::new();
    for i in 0..33 {
        let pattern = if i == 32 { "xterm" } else { "nomatch" };
        tables.push(ConfigTable { entries: vec![("name".to_string(), MixedConfigVal::S(format!("t{}", i))),
            ("match".to_string(), MixedConfigVal::S(pattern.to_string()))] });
    }
    let tags = tags_from_config(&tables, &vec![]).unwrap();
    let mut c = client(1, 0, 0, 0);
    c.name = "xterm".to_string();
    assert!(!c.retag_checked(&tags, &vec![], 0));
    assert_eq!(c.tags, 0);
    let mut other = client(2, 0, 0, 0);
    other.name = "vim".to_string();
    assert!(other.retag_checked(&tags, &vec![], 0));
    assert_eq!(other.tags, 0);
    let mut dead = client(3, 0, DEAD, 0);
    dead.name = "xterm".to_string();
    assert!(dead.retag_checked(&tags, &vec![], 0));
    let views: Vec<TagView> = (0..256).map(|i| TagView::new(format!("v{}", i))).collect();
    let mut sticky = client(4, 0, MODE_STICK, 0);
    sticky.name = "vim".to_string();
    assert!(!sticky.retag_checked(&tags, &views, 0));
    assert_eq!(sticky.tags, 0);
    let fewer: Vec<TagView> = (0..255).map(|i| TagView::new(format!("v{}", i))).collect();
    assert!(sticky.retag_checked(&tags, &fewer, 0));
}

#[test]
fn toggle_and_resize_fit_checks() {
    let views: Vec<TagView> = vec![];
    let ctx = ToggleContext {
        set_gravity: false,
        skip_pointer_warp: true,
        focus: None,
        pointer: None,
        border_width: 2,
        panel_height: 16,
    };
    let near_edge = vec![Screen::new(32000, 0, 2000, 600, 1, 2)];
    let c = client(1, 0, 0, 0);
    assert!(!c.toggle_fits(MODE_CENTER, &near_edge, &views, ctx));
    assert!(c.toggle_fits(MODE_FLOAT, &near_edge, &views, ctx));
    let normal = vec![Screen::new(0, 0, 800, 600, 1, 2)];
    assert!(c.toggle_fits(MODE_CENTER, &normal, &views, ctx));

    let margin = Spacing { top: 0, right: 0, bottom: 0, left: 0 };
    let bounds = Rect { x: 0, y: 0, width: 800, height: 600 };
    let mut r = client(2, 0, MODE_RESIZE, 0);
    r.max_width = -1;
    r.max_height = -1;
    r.width_inc = 0;
    r.height_inc = 1;
    assert!(!r.resize_fits(bounds, true, 2, margin, &|_| 7u16));
    assert!(r.resize_fits(bounds, false, 2, margin, &|_| 7u16));
    r.width_inc = 1;
    assert!(r.resize_fits(bounds, true, 2, margin, &|_| 7u16));
}

#[test]
fn arrange_fit_checks() {
    let mut shown = Screen::new(0, 0, 800, 600, 1, 2);
    assert!(!client(9, 1, ARRANGE, 0).arrange_fits(&vec![Gravity::new("g", 0, 0, 50, 100)], &vec![Screen::new(0, 0, 800, 600, 1, 2)], 0, 0,
        ArrangeContext {
            width: 800,
            height: 600,
            gravity_tiling: false,
            border: 2,
            margin: Spacing { top: 0, right: 0, bottom: 0, left: 0 },
            padding: Spacing { top: 0, right: 0, bottom: 0, left: 0 },
            panel_height: 16,
        }, &|_| 7u16));
    shown.view_idx = 0;
    let screens = vec![shown];
    let gravities = vec![Gravity::new("left", 0, 0, 50, 100)];
    let ctx = ArrangeContext {
        width: 800,
        height: 600,
        gravity_tiling: false,
        border: 2,
        margin: Spacing { top: 0, right: 0, bottom: 0, left: 0 },
        padding: Spacing { top: 0, right: 0, bottom: 0, left: 0 },
        panel_height: 16,
    };
    let mut c = client(1, 1, ARRANGE, 0);
    c.width_inc = 1;
    c.height_inc = 1;
    c.max_width = -1;
    c.max_height = -1;
    assert!(c.arrange_fits(&gravities, &screens, 0, 0, ctx, &|_| 7u16));
    let mut z = client(2, 1, ARRANGE | MODE_ZAPHOD, 0);
    z.width_inc = 1;
    z.height_inc = 1;
    let wide = ArrangeContext { padding: Spacing { top: 0, right: -10, bottom: 0, left: 32767 }, ..ctx };
    assert!(!z.arrange_fits(&gravities, &screens, 0, 0, wide, &|_| 7u16));
    let dead = client(3, 1, DEAD | MODE_ZAPHOD, 0);
    assert!(dead.arrange_fits(&gravities, &screens, 0, 0, wide, &|_| 7u16));
}

#[test]
fn tile_fit_checks() {
    let mut tiled = client(1, 1, 0, 0);
    tiled.gravity_idx = 0;
    tiled.width_inc = 1;
    tiled.height_inc = 1;
    let clients = vec![tiled];
    let margin = Spacing { top: 0, right: 0, bottom: 0, left: 0 };
    let mut g = Gravity::new("left", 0, 0, 50, 100);
    g.flags = GRAVITY_HORZ;
    let gravities = vec![g];
    let normal = vec![Screen::new(0, 0, 800, 600, 1, 2)];
    assert!(tile_fits(&clients, &gravities, &normal, 0, 0, 1, 2, margin, &|_| 7u16));
    let near_edge = vec![Screen::new(32000, 0, 2000, 600, 1, 2)];
    assert!(!tile_fits(&clients, &gravities, &near_edge, 0, 0, 1, 2, margin, &|_| 7u16));
    assert!(tile_fits(&clients, &gravities, &near_edge, 0, 0, 2, 2, margin, &|_| 7u16));
}

#[test]
fn warp_to_center() {
    assert_eq!(warp_target(Rect { x: 10, y: 20, width: 101, height: 50 }), Some((60, 45)));
    assert_eq!(warp_target(Rect { x: 32760, y: 0, width: 100, height: 50 }), None);
}

#[test]
fn focus_history_slots() {
    let mut h = initial_focus_history();
    assert_eq!(h, vec![0, 0, 0, 0, 0]);
    remember_focus(&mut h, 42);
    assert_eq!(h, vec![42, 0, 0, 0, 0]);
    let mut empty: Vec<u32> = vec![];
    remember_focus(&mut empty, 42);
    assert!(empty.is_empty());
}
