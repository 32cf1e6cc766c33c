use subtle_rs::client::Client;
use subtle_rs::config::{ConfigTable, MixedConfigVal};
use subtle_rs::font::Font;
use subtle_rs::logger::{log_filter, LogFilter, LogLevel};
use subtle_rs::screen::{configure, Screen};
use subtle_rs::setup::{gravities_from_config, sanity_check, tags_from_config, views_from_config, SetupError};
use subtle_rs::spacing::{Spacing, SpacingError};
use subtle_rs::style::{Style, STYLE_FONT};
use subtle_rs::styles::{color_requests, parse, style_kind, StyleError, Styles};
use subtle_rs::subtle::{settings_from, Settings, SUBTLE_DEBUG, SUBTLE_GRAVITY_TILING, SUBTLE_REPLACE};
use subtle_rs::view::{find_view, FocusNext, TagView};

fn table(entries: Vec<(&str, MixedConfigVal)>) -> ConfigTable {
    ConfigTable { entries: entries.into_iter().map(|(k, v)| (k.to_string(), v)).collect() }
}

fn s(v: &str) -> MixedConfigVal {
    MixedConfigVal::S(v.to_string())
}

#[test]
fn settings_from_switches() {
    let t = table(vec![
        ("increase_step", MixedConfigVal::I(5)),
        ("border_snap", MixedConfigVal::I(70000)),
        ("gravity_tiling", MixedConfigVal::B(true)),
        ("click_to_focus", MixedConfigVal::B(false)),
    ]);
    let st = settings_from(true, true, &t);
    assert_eq!(st.flags, SUBTLE_REPLACE | SUBTLE_DEBUG | SUBTLE_GRAVITY_TILING);
    assert_eq!(st.step_size, 5);
    assert_eq!(st.snap_size, (70000u32 % 65536) as u16);
    assert_eq!(st.panel_height, 1);
    let d = Settings::default();
    assert_eq!(settings_from(false, false, &ConfigTable::new()), d);
}

#[test]
fn log_levels() {
    assert_eq!(LogLevel::from(&"DEBUG".to_string()), LogLevel::Debug);
    assert_eq!(LogLevel::from(&"XError".to_string()), LogLevel::XError);
    assert_eq!(LogLevel::from(&"none".to_string()), LogLevel::Quiet);
    assert_eq!(LogLevel::from(&"nonsense".to_string()), LogLevel::Info);
    assert_eq!(LogLevel::from_lowercase("errors"), LogLevel::Error);
    assert_eq!(LogLevel::Events.filter(), LogFilter::Trace);
    assert_eq!(LogLevel::Warnings.filter(), LogFilter::Warn);
    assert_eq!(log_filter(&"none".to_string(), false), LogFilter::Off);
    assert_eq!(log_filter(&"none".to_string(), true), LogFilter::Debug);
}

#[test]
fn style_tables() {
    let t = table(vec![
        ("foreground", s("#ff0000")),
        ("border_color", s("#00ff00")),
        ("border_top_color", s("#0000ff")),
        ("border_width", MixedConfigVal::I(2)),
        ("border_left_width", MixedConfigVal::I(5)),
        ("padding", MixedConfigVal::VI(vec![1, 2])),
        ("font", s("fixed")),
    ]);
    let colors = color_requests(&t);
    assert_eq!(
        colors,
        vec![
            ("#ff0000".to_string(), Some((255, 0, 0))),
            ("#00ff00".to_string(), Some((0, 255, 0))),
            ("#0000ff".to_string(), Some((0, 0, 255))),
        ]
    );
    let pixels = vec![
        ("#ff0000".to_string(), Some(10)),
        ("#00ff00".to_string(), Some(20)),
        ("#0000ff".to_string(), Some(30)),
    ];
    let (style, font) = parse(&t, -1, &pixels, 3).unwrap();
    assert_eq!(style.fg, 10);
    assert_eq!(style.bg, -1);
    assert_eq!((style.top, style.right, style.bottom, style.left), (30, 20, 20, 20));
    assert_eq!(style.border, Spacing { top: 2, right: 2, bottom: 2, left: 5 });
    assert_eq!(style.padding, Spacing { top: 1, right: 2, bottom: 2, left: 1 });
    assert_eq!(style.margin, Spacing { top: -1, right: -1, bottom: -1, left: -1 });
    assert_eq!(style.font_id, 3);
    assert_eq!(style.flags & STYLE_FONT, STYLE_FONT);
    assert_eq!(font, Some("fixed".to_string()));
    assert_eq!(parse(&t, -1, &vec![], 0).map(|r| r.0), Err(StyleError::Color));
    let bad = table(vec![("margin", MixedConfigVal::VI(vec![1]))]);
    assert_eq!(parse(&bad, 0, &vec![], 0).map(|r| r.0), Err(StyleError::Spacing(SpacingError::TooManyValues)));
    assert_eq!(color_requests(&table(vec![("active", s("nothex"))])), vec![("nothex".to_string(), None)]);
}

#[test]
fn style_kinds_and_update() {
    assert_eq!(style_kind("clients"), Some((9, 0)));
    assert_eq!(style_kind("views"), Some((1, -1)));
    assert_eq!(style_kind("unknown"), None);
    let mut styles = Styles::default();
    let mut all = Style::default();
    all.reset(0);
    all.fg = 7;
    styles.set(0, all);
    let mut title = Style::default();
    title.font_id = 0;
    title.padding = Spacing { top: 3, right: -1, bottom: 2, left: -1 };
    styles.set(5, title);
    let fonts = vec![Font { fontable: 1, y: 10, height: 14 }];
    let height = styles.update(&fonts, 1);
    assert_eq!(styles.views.fg, 7);
    assert_eq!(styles.views_active.fg, 7);
    assert_eq!(styles.title.padding, Spacing { top: 3, right: 0, bottom: 2, left: 0 });
    assert_eq!(height, 19);
}

#[test]
fn gravities_tags_views() {
    let gs = vec![
        table(vec![("name", s("left")), ("x", MixedConfigVal::I(0)), ("y", MixedConfigVal::I(0)),
            ("width", MixedConfigVal::I(50)), ("height", MixedConfigVal::I(100))]),
        table(vec![("name", s("broken")), ("x", MixedConfigVal::I(0))]),
        table(vec![("name", s("right")), ("x", MixedConfigVal::I(50)), ("y", MixedConfigVal::I(0)),
            ("width", MixedConfigVal::I(50)), ("height", MixedConfigVal::I(100))]),
    ];
    let settings = table(vec![("default_gravity", s("right"))]);
    let (gravities, default) = gravities_from_config(&gs, &settings).unwrap();
    assert_eq!(gravities.len(), 2);
    assert_eq!(gravities[1].name, "right");
    assert_eq!(default, Some(1));
    assert_eq!(gravities_from_config(&gs, &table(vec![("default_gravity", s("none"))])).unwrap().1, Some(0));
    assert_eq!(gravities_from_config(&gs, &ConfigTable::new()).unwrap().1, None);
    assert!(matches!(gravities_from_config(&vec![], &settings), Err(SetupError::NoGravities)));

    let ts = vec![
        table(vec![("name", s("terms")), ("gravity", s("right")), ("geometry", MixedConfigVal::VI(vec![1, 2, 3, 4])),
            ("position", MixedConfigVal::VI(vec![5, 6]))]),
        table(vec![("name", s("pos")), ("position", MixedConfigVal::VI(vec![5, 6]))]),
    ];
    let tags = tags_from_config(&ts, &gravities).unwrap();
    assert_eq!(tags[0].flags, 1 | 2);
    assert_eq!(tags[0].gravity_id, 1);
    assert_eq!((tags[0].geom.x, tags[0].geom.width), (1, 3));
    assert_eq!(tags[1].flags, 4);
    assert_eq!((tags[1].geom.x, tags[1].geom.y, tags[1].geom.width), (5, 6, 0));
    let defaults = tags_from_config(&vec![], &gravities).unwrap();
    assert_eq!(defaults[0].name, "default");
    assert!(matches!(tags_from_config(&vec![table(vec![("match", s("("))])], &gravities), Err(SetupError::InvalidPattern)));

    let vs = vec![table(vec![("name", s("www")), ("match", s("terms|pos"))]), table(vec![("name", s("dev"))])];
    let mut views = views_from_config(&vs).unwrap();
    assert_eq!(views.len(), 2);
    assert!(views[0].retag_checked(&tags));
    assert_eq!(views[0].tags, 2);
    assert!(views[1].retag_checked(&tags));
    assert_eq!(views[1].tags, 0);
    assert_eq!(find_view(&views, "dev"), Some(1));
    assert_eq!(views_from_config(&vec![]).unwrap()[0].name, "default");
}

fn view(name: &str, tags: u32) -> TagView {
    let mut v = TagView::new(name.to_string());
    v.tags = tags;
    v
}

#[test]
fn view_focus_swaps_screens() {
    let views = vec![view("a", 1), view("b", 2), view("c", 4)];
    let mut screens = vec![Screen::new(0, 0, 10, 10, 1, 2), Screen::new(10, 0, 10, 10, 3, 4)];
    screens[0].view_idx = 0;
    screens[1].view_idx = 1;
    views[2].focus(&views, &mut screens, 0b0110, 0, true);
    assert_eq!((screens[0].view_idx, screens[1].view_idx), (2, 1));
    views[1].focus(&views, &mut screens, 0b0110, 0, true);
    assert_eq!((screens[0].view_idx, screens[1].view_idx), (1, 2));
    views[2].focus(&views, &mut screens, 0b1010, 0, false);
    assert_eq!((screens[0].view_idx, screens[1].view_idx), (1, 2));
    views[0].focus(&views, &mut screens, 0, 7, true);
    assert_eq!((screens[0].view_idx, screens[1].view_idx), (1, 2));
}

#[test]
fn view_focus_next() {
    let mut c1 = Client::new(11, 0, 0, 10, 10, 0, 1);
    c1.tags = 1;
    let mut c2 = Client::new(12, 0, 0, 10, 10, 0, 1);
    c2.tags = 2;
    let clients = vec![c1, c2];
    let mut v = view("a", 1);
    v.focus_win = 12;
    assert_eq!(v.focus_next(&clients, &vec![], 1, 0), FocusNext::Forget);
    v.focus_win = 11;
    assert_eq!(v.focus_next(&clients, &vec![], 1, 0), FocusNext::Focus(0));
    v.focus_win = 99;
    assert_eq!(v.focus_next(&clients, &vec![], 1, 0), FocusNext::Focus(0));
    assert_eq!(v.focus_next(&clients, &vec![], 4, 0), FocusNext::Keep);
}

#[test]
fn configure_gathers_visible_tags() {
    let views = vec![view("a", 1), view("b", 6)];
    let mut screens = vec![Screen::new(0, 0, 10, 10, 1, 2), Screen::new(10, 0, 10, 10, 3, 4)];
    screens[0].view_idx = 0;
    screens[1].view_idx = 1;
    let mut c = Client::new(1, 0, 0, 10, 10, 0, 2);
    c.tags = 4;
    let mut clients = vec![c];
    let r = configure(&mut clients, &screens, &views);
    assert_eq!(r.visible_tags, 7);
    assert_eq!(r.visible_views, 0b110);
    assert_eq!(r.client_tags, 4);
    let mut dead = Client::new(2, 0, 0, 10, 10, 0, 2);
    dead.flags = subtle_rs::client::DEAD;
    let mut only_dead = vec![dead];
    assert_eq!(configure(&mut only_dead, &screens, &views).visible_tags, 0);
    let mut none: Vec<Client> = vec![];
    assert_eq!(configure(&mut none, &screens, &views).visible_tags, 7);
}

#[test]
fn sanity_check_sets_defaults() {
    let mut screens = vec![Screen::new(0, 0, 800, 600, 1, 2), Screen::new(800, 0, 800, 600, 3, 4), Screen::new(0, 600, 800, 600, 5, 6)];
    let mut title = Style::default();
    title.min_width = -1;
    title.flags = 0;
    let needs_font = sanity_check(&mut screens, 2, &mut title, 3);
    assert_eq!(screens.iter().map(|s| s.view_idx).collect::<Vec<_>>(), vec![0, 1, -1]);
    assert_eq!(title.min_width, 50);
    assert!(needs_font);
    assert_eq!(title.font_id, 3);
    assert_eq!(title.flags & STYLE_FONT, STYLE_FONT);
    // With a font and a minimum width nothing changes.
    title.min_width = 20;
    assert!(!sanity_check(&mut screens, 2, &mut title, 4));
    assert_eq!((title.min_width, title.font_id), (20, 3));
}
