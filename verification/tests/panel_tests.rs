use subtle_rs::font::Font;
use subtle_rs::panel::{
    layout, layout_fits_check, panel_flags, Panel, PanelAction, PanelError, PanelStyles, TagState, PANEL_BOTTOM_START_MARKER,
    PANEL_CENTER_POS, PANEL_HIDDEN, PANEL_LEFT_POS, PANEL_MOUSE_DOWN, PANEL_PLUGIN, PANEL_RIGHT_POS,
    PANEL_SEPARATOR, PANEL_TITLE, PANEL_TRAY, PANEL_VIEWS,
};
use subtle_rs::spacing::Spacing;
use subtle_rs::style::Style;
use subtle_rs::view::TagView;

fn zero_style() -> Style {
    let mut s = Style::default();
    s.reset(0);
    s
}

fn styles() -> PanelStyles {
    let d = Style::default();
    PanelStyles {
        views: zero_style(),
        active: d,
        occupied: d,
        visible: d,
        urgent: d,
        separator: zero_style(),
        tray: zero_style(),
        title: zero_style(),
        clients: zero_style(),
    }
}

fn panel(flags: u32, width: u16) -> Panel {
    Panel { flags, x: 0, width, screen_id: 0, plugin_id: 0, text: None, text_widths: vec![] }
}

#[test]
fn panel_flags_of_names() {
    assert_eq!(panel_flags("<title"), PANEL_TITLE | PANEL_LEFT_POS);
    assert_eq!(panel_flags("views"), PANEL_VIEWS);
    assert_eq!(panel_flags(">$clock"), PANEL_PLUGIN | PANEL_RIGHT_POS);
    assert_eq!(panel_flags("=tray"), PANEL_TRAY | PANEL_CENTER_POS);
    assert_eq!(panel_flags("|"), PANEL_SEPARATOR);
    assert_eq!(panel_flags("<"), PANEL_SEPARATOR);
}

#[test]
fn panel_new_kinds() {
    let p = Panel::new("<|").unwrap();
    assert_eq!(p.flags, PANEL_SEPARATOR | PANEL_LEFT_POS);
    assert_eq!(p.text, Some("|".to_string()));
    assert_eq!(p.text_widths, vec![0]);
    let p = Panel::new("title").unwrap();
    assert_eq!(p.text_widths, vec![0, 0]);
    assert_eq!(p.text, None);
    let p = Panel::new("views").unwrap();
    assert_eq!(p.flags, PANEL_VIEWS | PANEL_MOUSE_DOWN);
    let p = Panel::new("$battery").unwrap();
    assert_eq!(p.text_widths, vec![0]);
    let unhandled: Result<Panel, PanelError> = Panel::new("tray");
    assert!(unhandled.is_ok());
}

#[test]
fn update_text_items() {
    let fonts = vec![Font { fontable: 1, y: 10, height: 12 }];
    let mut style = zero_style();
    style.padding = Spacing { top: 0, right: 3, bottom: 0, left: 2 };
    style.font_id = 0;
    let mut p = Panel::new("$clock").unwrap();
    p.update_plugin("12:00".to_string(), Some(40), &style, &fonts);
    assert_eq!(p.text_widths, vec![40]);
    assert_eq!(p.width, 45);
    assert_eq!(p.text, Some("12:00".to_string()));
    let mut s = Panel::new("|").unwrap();
    let mut nofont = style;
    nofont.font_id = -1;
    s.update_separator(Some(9), &nofont, &fonts);
    assert_eq!(s.text_widths, vec![0]);
    assert_eq!(s.width, 5);
}

#[test]
fn update_title_caps_name() {
    let fonts = vec![Font { fontable: 1, y: 10, height: 12 }];
    let mut title = zero_style();
    title.font_id = 0;
    title.min_width = 30;
    let mut clients = zero_style();
    clients.right = 50;
    let mut p = Panel::new("title").unwrap();
    p.update_title(Some((Some(10), Some(80))), &title, &clients, &fonts);
    assert_eq!(p.text_widths, vec![10, 80]);
    assert_eq!(p.width, 60);
    p.update_title(Some((Some(5), Some(10))), &title, &clients, &fonts);
    assert_eq!(p.width, 30);
    p.update_title(None, &title, &clients, &fonts);
    assert_eq!(p.width, 0);
}

#[test]
fn update_tray_places_live_trays() {
    let mut p = Panel::new("tray").unwrap();
    let mut tray = zero_style();
    tray.padding = Spacing { top: 0, right: 1, bottom: 0, left: 1 };
    let offsets = p.update_tray(&vec![Some(16), None, Some(20)], &tray);
    assert_eq!(offsets, vec![2, 18]);
    assert_eq!(p.width, 38);
    assert_eq!(p.flags & PANEL_HIDDEN, 0);
    let offsets = p.update_tray(&vec![], &tray);
    assert!(offsets.is_empty());
    assert_eq!(p.flags & PANEL_HIDDEN, PANEL_HIDDEN);
}

#[test]
fn update_views_and_click() {
    let fonts = vec![Font { fontable: 1, y: 10, height: 12 }];
    let mut st = styles();
    st.views.font_id = 0;
    st.views.padding = Spacing { top: 0, right: 2, bottom: 0, left: 2 };
    let views = vec![TagView::new("www".to_string()), TagView::new("dev".to_string())];
    let state = TagState { client_tags: 0, urgent_tags: 0, visible_views: 0 };
    let mut p = Panel::new("views").unwrap();
    p.update_views(&views, &st, &state, Some(0), &fonts, &vec![Some(20), Some(30)]);
    assert_eq!(p.text_widths, vec![20, 30]);
    // The active view takes the zero spacing of the default active style.
    assert_eq!(p.width, 20 + (4 + 30 + 2));
    p.x = 10;
    assert_eq!(p.handle_action(PanelAction::MouseDown(12, 0, 1), &views, &st, &state, Some(0)), Some(0));
    assert_eq!(p.handle_action(PanelAction::MouseDown(40, 0, 1), &views, &st, &state, Some(0)), Some(1));
    assert_eq!(p.handle_action(PanelAction::MouseDown(5, 0, 1), &views, &st, &state, Some(0)), None);
    assert_eq!(p.handle_action(PanelAction::MouseOut, &views, &st, &state, Some(0)), None);
}

#[test]
fn layout_places_by_position() {
    let mut panels = vec![
        panel(PANEL_VIEWS | PANEL_LEFT_POS, 30),
        panel(PANEL_TITLE, 50),
        panel(PANEL_SEPARATOR | PANEL_CENTER_POS, 10),
        panel(PANEL_TRAY | PANEL_RIGHT_POS, 20),
        panel(PANEL_SEPARATOR | PANEL_HIDDEN, 99),
        panel(PANEL_SEPARATOR | PANEL_BOTTOM_START_MARKER | PANEL_RIGHT_POS, 40),
    ];
    assert!(layout_fits_check(&panels, 200));
    let tray = layout(&mut panels, 200);
    assert_eq!(panels[0].x, 0);
    assert_eq!(panels[1].x, 30);
    assert_eq!(panels[2].x, 95);
    assert_eq!(panels[3].x, 180);
    assert_eq!(panels[4].x, 0);
    assert_eq!(panels[5].x, 160);
    assert_eq!(tray, Some((0, 180, 20)));
}

#[test]
fn layout_checks_refuse_overflow() {
    let too_wide = vec![panel(PANEL_SEPARATOR | PANEL_RIGHT_POS, 300)];
    assert!(!layout_fits_check(&too_wide, 200));
    let far = vec![panel(PANEL_VIEWS | PANEL_LEFT_POS, 30000), panel(PANEL_TITLE, 5000)];
    assert!(!layout_fits_check(&far, 200));
    let many = vec![panel(PANEL_VIEWS | PANEL_LEFT_POS, 40000), panel(PANEL_TITLE | PANEL_LEFT_POS, 40000)];
    assert!(!layout_fits_check(&many, 200));
    assert!(layout_fits_check(&vec![], 200));
}
