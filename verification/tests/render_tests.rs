use subtle_rs::icon::Icon;
use subtle_rs::panel::{Panel, PanelStyles, TagState, PANEL_ICON, PANEL_PLUGIN, PANEL_TITLE, PANEL_TRAY, PANEL_VIEWS};
use subtle_rs::rect::Rect;
use subtle_rs::render::{render_views, Fill, Render};
use subtle_rs::spacing::Spacing;
use subtle_rs::style::Style;
use subtle_rs::view::{TagView, VIEW_MODE_ICON};
use subtle_rs::xbm::{load_xbm, parse_xbm, xbm_image, XbmError};

fn zero_style() -> Style {
    let mut s = Style::default();
    s.reset(0);
    s
}

fn styles() -> PanelStyles {
    let d = Style::default();
    let mut views = zero_style();
    views.padding = Spacing { top: 0, right: 2, bottom: 0, left: 2 };
    PanelStyles {
        views,
        active: d,
        occupied: d,
        visible: d,
        urgent: d,
        separator: zero_style(),
        tray: zero_style(),
        title: zero_style(),
        clients: zero_style(),
    }
}

fn no_tags() -> TagState {
    TagState { client_tags: 0, urgent_tags: 0, visible_views: 0 }
}

#[test]
fn render_views_places_names() {
    let st = styles();
    let views = vec![TagView::new("www".to_string()), TagView::new("dev".to_string())];
    let draws = render_views(&views, &vec![20, 30], &st, &no_tags(), Some(0));
    assert_eq!(draws.len(), 2);
    // The active view takes the zero spacing of the default active style.
    assert_eq!((draws[0].view, draws[0].x, draws[0].width, draws[0].icon, draws[0].text_x), (0, 0, 20, false, Some(0)));
    assert_eq!((draws[1].view, draws[1].x, draws[1].width, draws[1].icon, draws[1].text_x), (1, 20, 36, false, Some(20)));
    assert!(draws[0].x + draws[0].width <= draws[1].x);
}

#[test]
fn render_views_with_icon_moves_right() {
    let st = styles();
    let mut view = TagView::new("www".to_string());
    view.flags |= VIEW_MODE_ICON;
    view.icon = Some(Icon { pixmap: 1, width: 8, height: 8 });
    let draws = render_views(&vec![view], &vec![10], &st, &no_tags(), None);
    assert_eq!(draws.len(), 1);
    assert_eq!(draws[0].x, 2);
    assert_eq!(draws[0].width, 4 + 10 + 2 + 8 + 2);
    assert!(draws[0].icon);
    assert_eq!(draws[0].text_x, Some(12));
}

fn item(flags: u32, text: Option<String>) -> Panel {
    Panel { flags, x: 0, width: 40, screen_id: 0, plugin_id: 0, text, text_widths: vec![] }
}

#[test]
fn render_items_by_kind() {
    let st = styles();
    let views: Vec<TagView> = vec![];
    let state = no_tags();
    let plugin = item(PANEL_PLUGIN, Some("12:00".to_string()));
    assert!(matches!(plugin.render(&views, &st, &state, None, false, None), Render::Block { text: true, .. }));
    let tray = item(PANEL_TRAY, None);
    assert!(matches!(tray.render(&views, &st, &state, None, false, None), Render::Block { text: false, .. }));
    let title = item(PANEL_TITLE, None);
    assert!(matches!(title.render(&views, &st, &state, None, true, Some(15)), Render::Title { name_x: 15 }));
    assert!(matches!(title.render(&views, &st, &state, None, true, None), Render::Title { name_x: 0 }));
    assert!(matches!(title.render(&views, &st, &state, None, false, Some(15)), Render::Nothing));
    let views_item = item(PANEL_VIEWS, None);
    assert!(matches!(views_item.render(&views, &st, &state, None, false, None), Render::Views(v) if v.is_empty()));
    assert_ne!(PANEL_ICON, PANEL_VIEWS);
}

const SAMPLE: &str = "#define test_width 9\n#define test_height 2\nstatic unsigned char test_bits[] = {\n   0x10, 0x00, 0x38, 0x01 };\n";

#[test]
fn xbm_reads_size_and_bits() {
    let x = parse_xbm(SAMPLE).unwrap();
    assert_eq!((x.width, x.height), (9, 2));
    assert_eq!(x.bits, vec![0x10, 0x00, 0x38, 0x01]);
}

#[test]
fn xbm_bad_size_is_an_error() {
    assert!(matches!(parse_xbm("#define x_width abc\n"), Err(XbmError::BadSize)));
    assert!(matches!(parse_xbm("#define x_height -3"), Err(XbmError::BadSize)));
}

#[test]
fn xbm_tokens_that_read_as_bytes() {
    let x = parse_xbm("a_width +2\n0xzz, 0x0x1f, +ff, 0x100 };").unwrap();
    assert_eq!((x.width, x.height), (2, 0));
    assert_eq!(x.bits, vec![0x1f, 0xff]);
}

#[test]
fn xbm_carriage_returns() {
    let x = parse_xbm("x_width 3\r\nx_height 1\r\n0x05 };\r\n").unwrap();
    assert_eq!((x.width, x.height, x.bits), (3, 1, vec![5]));
    // A carriage return without a line feed stays in the line.
    let y = parse_xbm("x_width 3\r\nx_height 1\r\n0x05 };\r").unwrap();
    assert!(y.bits.is_empty());
}

#[test]
fn xbm_image_with_four_bytes_per_pixel() {
    let img = xbm_image(&vec![0x10, 0x00, 0x38, 0x01], 9, 2, 32);
    assert_eq!(img.len(), 72);
    assert_eq!(&img[16..20], &[255, 255, 255, 0]);
    assert_eq!(&img[48..52], &[255, 255, 255, 0]);
    assert_eq!(&img[68..72], &[255, 255, 255, 0]);
    assert_eq!(img.iter().filter(|b| **b == 255).count(), 15);
}

#[test]
fn xbm_image_with_two_bytes_per_pixel() {
    let img = xbm_image(&vec![0x10, 0x00, 0x38, 0x01], 9, 2, 16);
    assert_eq!(img.len(), 40);
    assert_eq!(&img[8..10], &[255, 255]);
    assert_eq!(img.iter().filter(|b| **b == 255).count(), 10);
}

#[test]
fn xbm_image_below_a_byte_per_pixel() {
    // The last pixel of each row decides its first byte.
    let img = xbm_image(&vec![0x10, 0x00, 0x38, 0x01], 9, 2, 1);
    assert_eq!(img, vec![0, 0, 0, 0, 255, 0, 0, 0]);
}

#[test]
fn xbm_load_gives_image_and_size() {
    let (img, w, h) = load_xbm(SAMPLE, 32).unwrap();
    assert_eq!((w, h), (9, 2));
    assert_eq!(img, xbm_image(&vec![0x10, 0x00, 0x38, 0x01], 9, 2, 32));
    assert!(matches!(load_xbm("x_width 1x\n", 32), Err(XbmError::BadSize)));
}

fn boxed_style() -> Style {
    let mut s = zero_style();
    s.bg = 1;
    s.top = 2;
    s.right = 3;
    s.bottom = 4;
    s.left = 5;
    s.border = Spacing { top: 1, right: 2, bottom: 3, left: 4 };
    s.margin = Spacing { top: 1, right: 1, bottom: 2, left: 2 };
    s
}

#[test]
fn rect_fills_background_and_borders() {
    let mut p = item(PANEL_VIEWS, None);
    p.x = 10;
    let fills = p.rect_fills(5, 40, &boxed_style(), 20);
    assert_eq!(
        fills,
        vec![
            Fill { color: 1, rect: Rect { x: 17, y: 1, width: 37, height: 17 } },
            Fill { color: 2, rect: Rect { x: 17, y: 1, width: 37, height: 1 } },
            Fill { color: 3, rect: Rect { x: 10 + 40 - 2 - 1 + 5, y: 1, width: 2, height: 17 } },
            Fill { color: 4, rect: Rect { x: 17, y: 20 - 3 - 2, width: 37, height: 3 } },
            Fill { color: 5, rect: Rect { x: 17, y: 1, width: 4, height: 17 } },
        ]
    );
    p.width = 0;
    assert!(p.rect_fills(5, 40, &boxed_style(), 20).is_empty());
}

#[test]
fn text_and_icon_origins() {
    let mut p = item(PANEL_VIEWS, None);
    p.x = 10;
    let mut s = zero_style();
    s.padding = Spacing { top: 2, right: 0, bottom: 0, left: 3 };
    assert_eq!(p.text_origin(5, &s, 12), (18, 14));
    assert_eq!(p.icon_origin(5, &s, &Icon { pixmap: 1, width: 8, height: 8 }, 20), (18, 6));
}
