use subtle_rs::config::MixedConfigVal;
use subtle_rs::drag::{drag_finish, drag_start, step_geom, DragMode, EDGE_BOTTOM, EDGE_LEFT, EDGE_RIGHT, EDGE_TOP};
use subtle_rs::grab::DirectionOrder;
use subtle_rs::gravity::Gravity;
use subtle_rs::rect::Rect;
use subtle_rs::screen::{widest_screen, Screen, BOTTOM_PANEL, TOP_PANEL};
use subtle_rs::spacing::{Spacing, SpacingError};
use subtle_rs::style::{CalcSpacing, Style};

#[test]
fn should_create_rect() {
    let rect = Rect::from_tuple((3, -4, 10, 20));
    assert_eq!(rect.x, 3);
    assert_eq!(rect.y, -4);
    assert_eq!(rect.width, 10);
    assert_eq!(rect.height, 20);
}

#[test]
fn should_contain_point() {
    let rect = Rect::from_tuple((10, 20, 30, 40));
    assert!(rect.contains_point(10 + 5, 20 + 5));
    assert!(rect.contains_point(10, 20));
    assert!(rect.contains_point(40, 60));
    assert!(!rect.contains_point(41, 20));
    assert!(!rect.contains_point(10, 61));
    assert!(!rect.contains_point(9, 25));

    for (w, h) in [(0u16, 0u16), (1, 7), (4, 4), (5, 5), (65535, 3)] {
        let small = Rect::from_tuple((-7, 100, w, h));
        assert!(small.contains_point(-7 + 5, 100 + 5));
    }
    let empty = Rect::from_tuple((0, 0, 0, 0));
    assert!(!empty.contains_point(6, 0));
    assert!(!empty.contains_point(0, 6));
}

#[test]
fn should_stay_in_bounds() {
    for (x, y, w, h) in [(0u16, 0u16, 1u16, 1u16), (150, 999, 998, 200), (50, 50, 50, 50)] {
        let gravity = Gravity::new("test", x, y, w, h);
        assert!(0 <= gravity.geom.x && 100 >= gravity.geom.x);
        assert!(0 <= gravity.geom.y && 100 >= gravity.geom.y);
        assert!(1 <= gravity.geom.width && 100 >= gravity.geom.width);
        assert!(1 <= gravity.geom.height && 100 >= gravity.geom.height);
    }
    let g = Gravity::new("left", 150, 20, 0, 300);
    assert_eq!((g.geom.x, g.geom.y, g.geom.width, g.geom.height), (100, 20, 1, 100));
}

#[test]
fn should_calcluate_geom() {
    let gravity = Gravity::new("test", 0, 0, 50, 50);
    let mut geom = Rect { x: 0, y: 0, width: 0, height: 0 };
    let bounds = Rect { x: 7, y: 9, width: 801, height: 333 };
    gravity.apply_size(&bounds, &mut geom);
    assert_eq!(geom.x, 7);
    assert_eq!(geom.y, 9);
    assert_eq!(geom.width, 801 * 50 / 100);
    assert_eq!(geom.height, 333 * 50 / 100);
    let right = Gravity::new("right", 50, 0, 50, 100);
    let narrow = Rect { x: 7, y: 9, width: 400, height: 333 };
    right.apply_size(&narrow, &mut geom);
    assert_eq!(geom.x, 7 + 200);
    assert_eq!(geom.y, 9);
    assert_eq!(geom.width, 200);
    assert_eq!(geom.height, 333);
}

#[test]
fn should_create_from_integer() {
    let spacing = Spacing::try_from(&MixedConfigVal::I(7));
    assert_eq!(spacing, Ok(Spacing { top: 7, right: 7, bottom: 7, left: 7 }));
}

#[test]
fn should_create_from_vector_n2() {
    let spacing = Spacing::try_from(&MixedConfigVal::VI(vec![1, 2]));
    assert_eq!(spacing, Ok(Spacing { top: 1, right: 2, bottom: 2, left: 1 }));
}

#[test]
fn should_create_from_vector_n3() {
    let spacing = Spacing::try_from(&MixedConfigVal::VI(vec![1, 2, 3]));
    assert_eq!(spacing, Ok(Spacing { top: 1, right: 2, bottom: 2, left: 3 }));
}

#[test]
fn should_create_from_vector_n4() {
    let spacing = Spacing::try_from(&MixedConfigVal::VI(vec![1, 2, 3, 4]));
    assert_eq!(spacing, Ok(Spacing { top: 1, right: 2, bottom: 3, left: 4 }));
}

#[test]
fn spacing_errors() {
    assert_eq!(Spacing::try_from(&MixedConfigVal::VI(vec![1])), Err(SpacingError::TooManyValues));
    assert_eq!(Spacing::try_from(&MixedConfigVal::VI(vec![1, 2, 3, 4, 5])), Err(SpacingError::TooManyValues));
    assert_eq!(Spacing::try_from(&MixedConfigVal::S("x".to_string())), Err(SpacingError::InvalidType));
}

#[test]
fn spacing_inherit_and_reset() {
    let mut s = Spacing { top: -1, right: 3, bottom: -1, left: 4 };
    let other = Spacing { top: 9, right: 8, bottom: -1, left: 6 };
    s.inherit(&other, false);
    assert_eq!(s, Spacing { top: 9, right: 3, bottom: -1, left: 4 });
    s.inherit(&other, true);
    assert_eq!(s, Spacing { top: 9, right: 8, bottom: -1, left: 6 });
    s.reset(2);
    assert_eq!(s, Spacing { top: 2, right: 2, bottom: 2, left: 2 });
}

#[test]
fn should_calculate_spacings() {
    let n = 7i16;
    let spacing = Spacing { top: n, right: n, bottom: n * 2, left: n * 2 };
    let mut style = Style::default();
    style.border = spacing;
    style.padding = spacing;
    style.margin = spacing;
    assert_eq!(style.calc_spacing(CalcSpacing::Top), n * 3);
    assert_eq!(style.calc_spacing(CalcSpacing::Right), n * 3);
    assert_eq!(style.calc_spacing(CalcSpacing::Bottom), n * 2 * 3);
    assert_eq!(style.calc_spacing(CalcSpacing::Left), n * 2 * 3);
    assert_eq!(style.calc_spacing(CalcSpacing::Width), n * 9);
    assert_eq!(style.calc_spacing(CalcSpacing::Height), n * 9);
}

#[test]
fn style_reset_and_inherit() {
    let mut other = Style::default();
    other.reset(5);
    other.font_id = 2;
    let mut s = Style::default();
    s.fg = 1;
    s.reset(-1);
    assert_eq!(s.fg, -1);
    assert_eq!(s.border, Spacing { top: -1, right: -1, bottom: -1, left: -1 });
    s.inherit(&other);
    assert_eq!(s.fg, 5);
    assert_eq!(s.padding, Spacing { top: 5, right: 5, bottom: 5, left: 5 });
    assert_eq!(s.font_id, 2);
    assert_eq!(s.min_width, 0);
    let once = s;
    s.inherit(&other);
    assert_eq!(s, once);
}

#[test]
fn drag_geometry() {
    let (geom, edge) = drag_start(110, 220, 10, 90, 40, 100);
    assert_eq!(geom, Rect { x: 100, y: 130, width: 40, height: 100 });
    assert_eq!(edge, EDGE_LEFT | EDGE_BOTTOM);
    let (_, edge) = drag_start(110, 220, 30, 10, 40, 100);
    assert_eq!(edge, EDGE_RIGHT | EDGE_TOP);
    let g = Rect { x: 10, y: 20, width: 30, height: 40 };
    assert_eq!(step_geom(g, DragMode::Move, DirectionOrder::Up, 5, 6, 3), Rect { y: 17, ..g });
    assert_eq!(step_geom(g, DragMode::Resize, DirectionOrder::Up, 5, 6, 3), Rect { y: 14, height: 46, ..g });
    assert_eq!(step_geom(g, DragMode::Move, DirectionOrder::Right, 5, 6, 3), Rect { y: 23, ..g });
    assert_eq!(step_geom(g, DragMode::Resize, DirectionOrder::Left, 5, 6, 3), Rect { x: 5, width: 35, ..g });
    assert_eq!(drag_finish(g, 0, 2), Rect { x: 8, y: 18, ..g });
    assert_eq!(drag_finish(g, 1 << 15, 2), g);
}

#[test]
fn screen_client_area() {
    let mut s = Screen::new(0, 0, 1000, 800, 1, 2);
    s.flags = TOP_PANEL | BOTTOM_PANEL;
    s.resize(Spacing { top: 5, right: 10, bottom: 5, left: 20 }, 16);
    assert_eq!(s.geom, Rect { x: 20, y: 21, width: 970, height: 758 });
    assert_eq!(s.panel_windows(16), (Some((0, 0, 1000, 16)), Some((0, 784, 1000, 16))));
    let t = Screen::new(1000, 0, 1280, 800, 3, 4);
    assert_eq!(widest_screen(&vec![s, t]), 1280);
    assert_eq!(widest_screen(&vec![]), 0);
}

#[test]
fn screen_panels_from_names() {
    let mut s = Screen::new(0, 0, 1000, 800, 1, 2);
    s.add_panels(&vec!["views".to_string(), "<title".to_string()], false, 0);
    assert_eq!(s.flags, TOP_PANEL);
    s.add_panels(&vec![">tray".to_string(), "|".to_string()], true, 0);
    assert_eq!(s.flags, TOP_PANEL | BOTTOM_PANEL);
    assert_eq!(s.panels.len(), 4);
    assert_eq!(s.panels[2].flags & subtle_rs::panel::PANEL_BOTTOM_START_MARKER, subtle_rs::panel::PANEL_BOTTOM_START_MARKER);
    assert_eq!(s.panels[3].flags & subtle_rs::panel::PANEL_BOTTOM_START_MARKER, 0);
}
