use subtle_rs::panel::{Panel, PanelAction, PanelStyles, TagState, PANEL_TITLE, PANEL_VIEWS};
use subtle_rs::screen::Screen;
use subtle_rs::style::Style;
use subtle_rs::view::TagView;
use subtle_rs::client::{Client, ARRANGE, DEAD, FOCUS};
use subtle_rs::dispatch::{
    client_message_action, property_kind, selection_cleared, MessageAction, MessageAtoms, MessageError,
    PropertyAtoms, PropertyKind,
};
use subtle_rs::tray::{remove_tray_by_win, Tray, TRAY_UNMAP};
use subtle_rs::client::RestackOrder;

const TRAY_WIN: u32 = 500;

fn atoms() -> MessageAtoms {
    MessageAtoms { tray_opcode: 11, close_window: 12 }
}

fn clients() -> Vec<Client> {
    vec![Client::new(10, 0, 0, 100, 100, -1, 2), Client::new(20, 0, 0, 100, 100, -1, 2)]
}

fn trays() -> Vec<Tray> {
    vec![Tray::new(30), Tray::new(40)]
}

#[test]
fn tray_messages() {
    let (c, t) = (clients(), trays());
    assert_eq!(client_message_action(TRAY_WIN, 11, 0, 77, TRAY_WIN, atoms(), &c, &t), Ok(MessageAction::EmbedTray(77)));
    // A window that is a tray already is not embedded again.
    assert_eq!(client_message_action(TRAY_WIN, 11, 0, 40, TRAY_WIN, atoms(), &c, &t), Ok(MessageAction::Nothing));
    assert_eq!(client_message_action(TRAY_WIN, 11, 1, 30, TRAY_WIN, atoms(), &c, &t), Ok(MessageAction::ActivateTray(30)));
    assert_eq!(client_message_action(TRAY_WIN, 11, 4, 30, TRAY_WIN, atoms(), &c, &t), Ok(MessageAction::Nothing));
    // The opcode is the low byte.
    assert_eq!(client_message_action(TRAY_WIN, 11, 0x101, 30, TRAY_WIN, atoms(), &c, &t), Ok(MessageAction::ActivateTray(30)));
    assert_eq!(client_message_action(TRAY_WIN, 11, 15, 30, TRAY_WIN, atoms(), &c, &t), Err(MessageError::UnknownOpcode));
    assert_eq!(client_message_action(TRAY_WIN, 12, 0, 30, TRAY_WIN, atoms(), &c, &t), Ok(MessageAction::Nothing));
}

#[test]
fn close_requests() {
    let (c, t) = (clients(), trays());
    assert_eq!(client_message_action(20, 12, 0, 0, TRAY_WIN, atoms(), &c, &t), Ok(MessageAction::CloseClient(1)));
    assert_eq!(client_message_action(20, 13, 0, 0, TRAY_WIN, atoms(), &c, &t), Ok(MessageAction::Nothing));
    assert_eq!(client_message_action(40, 12, 0, 0, TRAY_WIN, atoms(), &c, &t), Ok(MessageAction::CloseTray(1)));
    assert_eq!(client_message_action(99, 12, 0, 0, TRAY_WIN, atoms(), &c, &t), Ok(MessageAction::Nothing));
}

#[test]
fn property_kinds_in_order() {
    let a = PropertyAtoms { wm_name: 1, wm_normal_hints: 2, wm_hints: 3, net_wm_strut: 4, motif_wm_hints: 5, xembed_info: 6 };
    assert_eq!(property_kind(1, &a), PropertyKind::Name);
    assert_eq!(property_kind(2, &a), PropertyKind::NormalHints);
    assert_eq!(property_kind(3, &a), PropertyKind::Hints);
    assert_eq!(property_kind(4, &a), PropertyKind::Strut);
    assert_eq!(property_kind(5, &a), PropertyKind::MotifHints);
    assert_eq!(property_kind(6, &a), PropertyKind::XembedInfo);
    assert_eq!(property_kind(7, &a), PropertyKind::Other);
    let same = PropertyAtoms { wm_name: 1, wm_normal_hints: 1, wm_hints: 1, net_wm_strut: 1, motif_wm_hints: 1, xembed_info: 1 };
    assert_eq!(property_kind(1, &same), PropertyKind::Name);
}

#[test]
fn remapped_client_is_alive_and_arranged() {
    let mut c = Client::new(10, 0, 0, 100, 100, -1, 2);
    c.flags = DEAD | FOCUS;
    c.remapped();
    assert_eq!(c.flags, FOCUS | ARRANGE);
}

#[test]
fn tray_unmap_ignored_once() {
    let mut t = Tray::new(30);
    t.flags |= TRAY_UNMAP;
    assert!(t.unmapped());
    assert_eq!(t.flags & TRAY_UNMAP, 0);
    assert!(!t.unmapped());
}

#[test]
fn selection_of_support_window() {
    assert_eq!(selection_cleared(7, 5, 7), Some(false));
    assert_eq!(selection_cleared(8, 5, 7), None);
}

#[test]
fn screen_action_asks_every_panel() {
    let mut zero = Style::default();
    zero.reset(0);
    let d = Style::default();
    let styles = PanelStyles {
        views: zero, active: d, occupied: d, visible: d, urgent: d,
        separator: zero, tray: zero, title: zero, clients: zero,
    };
    let state = TagState { client_tags: 0, urgent_tags: 0, visible_views: 0 };
    let views = vec![TagView::new("www".to_string()), TagView::new("dev".to_string())];
    let item = |flags: u32, x: i16| Panel { flags, x, width: 40, screen_id: 0, plugin_id: 0, text: None, text_widths: vec![20, 20] };
    let mut screen = Screen::new(0, 0, 800, 600, 1, 2);
    screen.panels = vec![item(PANEL_VIEWS, 0), item(PANEL_TITLE, 40), item(PANEL_VIEWS, 0)];
    // Both views items hold the pointer: each focuses its view.
    assert_eq!(screen.handle_action(PanelAction::MouseDown(25, 0, 1), &views, &styles, &state, None), vec![1, 1]);
    assert_eq!(screen.handle_action(PanelAction::MouseDown(45, 0, 1), &views, &styles, &state, None), Vec::<usize>::new());
    assert_eq!(screen.handle_action(PanelAction::MouseOut, &views, &styles, &state, None), Vec::<usize>::new());
}

#[test]
fn trays_by_window() {
    let mut t = vec![Tray::new(30), Tray::new(40), Tray::new(30)];
    assert!(t[0].eq(&t[2]));
    assert!(!t[0].eq(&t[1]));
    remove_tray_by_win(&mut t, 30);
    assert_eq!(t.len(), 1);
    assert_eq!(t[0].win, 40);
}

#[test]
fn restack_and_view_identity() {
    let mut c = Client::new(10, 0, 0, 100, 100, -1, 2);
    c.restack(RestackOrder::Up);
    assert_eq!(c.order, RestackOrder::Up);
    let a = TagView::new("www".to_string());
    let mut b = TagView::new("www".to_string());
    b.tags = 4;
    assert!(a.eq(&b));
    assert!(!a.eq(&TagView::new("dev".to_string())));
}
