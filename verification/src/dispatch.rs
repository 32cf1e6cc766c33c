//! Decisions on the messages, property changes, map requests, unmaps and
//! selection losses that the X server reports.

use vstd::prelude::*;
use crate::bits::has_all;
use crate::client::{Client, ARRANGE, DEAD};
use crate::subtle::{client_of_win, find_client};
use crate::tray::{find_tray, Tray, XEmbed, TRAY_UNMAP};
use crate::panel::{action_fits, action_hit, Panel, PanelAction, PanelStyles, TagState};
use crate::screen::Screen;
use crate::view::TagView;

verus! {

/// The atoms that client messages are told apart by.
#[derive(Clone, Copy, Debug, PartialEq, Eq, Structural)]
pub struct MessageAtoms {
    /// `_NET_SYSTEM_TRAY_OPCODE`.
    pub tray_opcode: u32,
    /// `_NET_CLOSE_WINDOW`.
    pub close_window: u32,
}

/// What a client message asks for.
#[derive(Clone, Copy, Debug, PartialEq, Eq, Structural)]
pub enum MessageAction {
    /// Nothing.
    Nothing,
    /// Embed the window into the tray.
    EmbedTray(u32),
    /// Send the window the focus of the embedding.
    ActivateTray(u32),
    /// Close the client with this index.
    CloseClient(usize),
    /// Close the tray with this index.
    CloseTray(usize),
}

/// Why a client message cannot be handled.
#[derive(Clone, Copy, Debug, PartialEq, Eq, Structural)]
pub enum MessageError {
    /// A message to the tray has an opcode that is no XEmbed message.
    UnknownOpcode,
}

/// The action a client message asks for. A message to the tray window with
/// the tray opcode embeds the window in `data2` unless it is a tray already,
/// or sends it the focus; its opcode is the low byte of `data1`. A close
/// request for a client or, failing that, a tray closes it.
pub fn client_message_action(
    window: u32,
    message_type: u32,
    data1: u32,
    data2: u32,
    tray_win: u32,
    atoms: MessageAtoms,
    clients: &Vec<Client>,
    trays: &Vec<Tray>,
) -> (r: Result<MessageAction, MessageError>)
    ensures
        window == tray_win && message_type == atoms.tray_opcode ==> r == (if (data1 as u8) > 14 {
            Err(MessageError::UnknownOpcode)
        } else if (data1 as u8) == 0 {
            Ok(
                if (exists|j: int| 0 <= j < trays.len() && trays@[j].win == data2) {
                    MessageAction::Nothing
                } else {
                    MessageAction::EmbedTray(data2)
                },
            )
        } else if (data1 as u8) == 1 {
            Ok(MessageAction::ActivateTray(data2))
        } else {
            Ok(MessageAction::Nothing)
        }),
        window == tray_win && message_type != atoms.tray_opcode ==> r == Ok::<MessageAction, MessageError>(
            MessageAction::Nothing,
        ),
        window != tray_win ==> r == Ok::<MessageAction, MessageError>(
            match client_of_win(clients@, window, 0) {
                Some(k) => if message_type == atoms.close_window {
                    MessageAction::CloseClient(k as usize)
                } else {
                    MessageAction::Nothing
                },
                None => if message_type == atoms.close_window && (exists|j: int|
                    0 <= j < trays.len() && trays@[j].win == window) {
                    MessageAction::CloseTray(
                        (choose|j: int|
                            0 <= j < trays.len() && trays@[j].win == window && forall|k: int|
                                0 <= k < j ==> trays@[k].win != window) as usize,
                    )
                } else {
                    MessageAction::Nothing
                },
            },
        ),
{
    if window == tray_win {
        if message_type == atoms.tray_opcode {
            #[verifier::truncate]
            let code = data1 as u8;
            match XEmbed::from_repr(code) {
                None => Err(MessageError::UnknownOpcode),
                Some(XEmbed::EmbeddedNotify) => {
                    if find_tray(trays, data2).is_none() {
                        Ok(MessageAction::EmbedTray(data2))
                    } else {
                        Ok(MessageAction::Nothing)
                    }
                },
                Some(XEmbed::WindowActivate) => Ok(MessageAction::ActivateTray(data2)),
                Some(_) => Ok(MessageAction::Nothing),
            }
        } else {
            Ok(MessageAction::Nothing)
        }
    } else if let Some(k) = find_client(clients, window) {
        if message_type == atoms.close_window {
            Ok(MessageAction::CloseClient(k))
        } else {
            Ok(MessageAction::Nothing)
        }
    } else if let Some(k) = find_tray(trays, window) {
        if message_type == atoms.close_window {
            proof {
                let j = choose|j: int|
                    0 <= j < trays.len() && trays@[j].win == window && forall|k: int|
                        0 <= k < j ==> trays@[k].win != window;
                if j != k {
                    if j < k {
                        assert(trays@[j].win != window);
                    } else {
                        assert(trays@[k as int].win != window);
                    }
                }
            }
            Ok(MessageAction::CloseTray(k))
        } else {
            Ok(MessageAction::Nothing)
        }
    } else {
        Ok(MessageAction::Nothing)
    }
}

/// The atoms that property changes are told apart by.
#[derive(Clone, Copy, Debug, PartialEq, Eq, Structural)]
pub struct PropertyAtoms {
    /// `WM_NAME`.
    pub wm_name: u32,
    /// `WM_NORMAL_HINTS`.
    pub wm_normal_hints: u32,
    /// `WM_HINTS`.
    pub wm_hints: u32,
    /// `_NET_WM_STRUT`.
    pub net_wm_strut: u32,
    /// `_MOTIF_WM_HINTS`.
    pub motif_wm_hints: u32,
    /// `_XEMBED_INFO`.
    pub xembed_info: u32,
}

/// Which property of a window changed.
#[derive(Clone, Copy, Debug, PartialEq, Eq, Structural)]
pub enum PropertyKind {
    Name,
    NormalHints,
    Hints,
    Strut,
    MotifHints,
    XembedInfo,
    Other,
}

/// The property that atom `atom` names, tested in the order name, normal
/// hints, hints, strut, motif hints and XEmbed info.
pub open spec fn property_of(atom: u32, atoms: PropertyAtoms) -> PropertyKind {
    if atom == atoms.wm_name {
        PropertyKind::Name
    } else if atom == atoms.wm_normal_hints {
        PropertyKind::NormalHints
    } else if atom == atoms.wm_hints {
        PropertyKind::Hints
    } else if atom == atoms.net_wm_strut {
        PropertyKind::Strut
    } else if atom == atoms.motif_wm_hints {
        PropertyKind::MotifHints
    } else if atom == atoms.xembed_info {
        PropertyKind::XembedInfo
    } else {
        PropertyKind::Other
    }
}

/// Which property a property change is about.
pub fn property_kind(atom: u32, atoms: &PropertyAtoms) -> (r: PropertyKind)
    ensures
        r == property_of(atom, *atoms),
{
    if atom == atoms.wm_name {
        PropertyKind::Name
    } else if atom == atoms.wm_normal_hints {
        PropertyKind::NormalHints
    } else if atom == atoms.wm_hints {
        PropertyKind::Hints
    } else if atom == atoms.net_wm_strut {
        PropertyKind::Strut
    } else if atom == atoms.motif_wm_hints {
        PropertyKind::MotifHints
    } else if atom == atoms.xembed_info {
        PropertyKind::XembedInfo
    } else {
        PropertyKind::Other
    }
}

impl Client {
    /// The window of a known client asks to be mapped again: it is alive and
    /// is arranged anew.
    pub fn remapped(&mut self)
        ensures
            *final(self) == (Client { flags: (old(self).flags & !DEAD) | ARRANGE, ..*old(self) }),
    {
        self.flags = (self.flags & !DEAD) | ARRANGE;
    }
}

impl Tray {
    /// The tray's window was unmapped: an unmap the window manager caused is
    /// ignored once (returns true); any other means the tray is gone.
    pub fn unmapped(&mut self) -> (r: bool)
        ensures
            r == has_all(old(self).flags, TRAY_UNMAP),
            r ==> final(self).flags == old(self).flags & !TRAY_UNMAP,
            !r ==> final(self).flags == old(self).flags,
            *final(self) == (Tray { flags: final(self).flags, ..*old(self) }),
    {
        if crate::bits::contains(self.flags, TRAY_UNMAP) {
            self.flags = self.flags & !TRAY_UNMAP;
            true
        } else {
            false
        }
    }
}

/// The value stored into the shutdown flag when the selection of `owner`
/// is taken away: the support window loses its selection and stores
/// `false`; other windows store nothing. The tray window's selection is not
/// handled (`requires`).
pub fn selection_cleared(owner: u32, tray_win: u32, support_win: u32) -> (r: Option<bool>)
    requires
        owner != tray_win,
    ensures
        r == (if owner == support_win {
            Some(false)
        } else {
            None
        }),
{
    if owner == support_win {
        Some(false)
    } else {
        None
    }
}

/// The views that a mouse action focuses on the panels from index `i` on,
/// in the order of the panels.
pub open spec fn hits_from(
    panels: Seq<Panel>,
    i: int,
    action: PanelAction,
    views: Seq<TagView>,
    styles: PanelStyles,
    state: TagState,
    screen_view: Option<isize>,
) -> Seq<usize>
    decreases panels.len() - i,
{
    if i < 0 || i >= panels.len() {
        Seq::empty()
    } else {
        let rest = hits_from(panels, i + 1, action, views, styles, state, screen_view);
        match action_hit(panels[i], action, views, styles, state, screen_view) {
            Some(k) => seq![k] + rest,
            None => rest,
        }
    }
}

impl Screen {
    /// The views to focus, in order, after a mouse action on this screen's
    /// panels: every panel item is asked in turn.
    pub fn handle_action(
        &self,
        action: PanelAction,
        views: &Vec<TagView>,
        styles: &PanelStyles,
        state: &TagState,
        screen_view: Option<isize>,
    ) -> (r: Vec<usize>)
        requires
            forall|i: int|
                0 <= i < self.panels.len() ==> action_fits(
                    #[trigger] self.panels@[i],
                    action,
                    views@,
                    *styles,
                    *state,
                    screen_view,
                ),
        ensures
            r@ == hits_from(self.panels@, 0, action, views@, *styles, *state, screen_view),
    {
        let mut out: Vec<usize> = Vec::new();
        let mut i: usize = self.panels.len();
        while i > 0
            invariant
                i <= self.panels.len(),
                forall|j: int|
                    0 <= j < self.panels.len() ==> action_fits(
                        #[trigger] self.panels@[j],
                        action,
                        views@,
                        *styles,
                        *state,
                        screen_view,
                    ),
                out@ == hits_from(self.panels@, i as int, action, views@, *styles, *state, screen_view),
            decreases i,
        {
            i = i - 1;
            let hit = self.panels[i].handle_action(action, views, styles, state, screen_view);
            if let Some(k) = hit {
                out.insert(0, k);
            }
        }
        out
    }
}

} // verus!
