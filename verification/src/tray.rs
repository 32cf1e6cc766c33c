//! Tray icons embedded in the panel: their width, protocols, state and
//! place.

use vstd::prelude::*;
use crate::bits::{has_any, intersects};
use crate::style::{CalcSpacing, Style};

verus! {

/// Dead tray icon.
pub const TRAY_DEAD: u32 = 1;
/// Tray icon takes part in the delete-window protocol.
pub const TRAY_CLOSE: u32 = 2;
/// Ignore the next unmap of the tray icon.
pub const TRAY_UNMAP: u32 = 4;

/// An icon embedded in the tray.
#[derive(Debug)]
pub struct Tray {
    pub flags: u32,
    pub win: u32,
    pub name: String,
    pub width: u16,
}

/// Messages of the XEmbed protocol.
#[derive(Clone, Copy, Debug, PartialEq, Eq, Structural)]
pub enum XEmbed {
    EmbeddedNotify,
    WindowActivate,
    WindowDeactivate,
    RequestFocus,
    FocusIn,
    FocusOut,
    FocusNext,
    FocusPrev,
    GrabKey,
    UngrabKey,
    ModalityOn,
    ModalityOff,
    RegisterAccelerator,
    UnregisterAccelerator,
    ActivateAccelerator,
}

/// The XEmbed message with the given number.
pub open spec fn xembed_of(code: u8) -> Option<XEmbed> {
    match code {
        0 => Some(XEmbed::EmbeddedNotify),
        1 => Some(XEmbed::WindowActivate),
        2 => Some(XEmbed::WindowDeactivate),
        3 => Some(XEmbed::RequestFocus),
        4 => Some(XEmbed::FocusIn),
        5 => Some(XEmbed::FocusOut),
        6 => Some(XEmbed::FocusNext),
        7 => Some(XEmbed::FocusPrev),
        8 => Some(XEmbed::GrabKey),
        9 => Some(XEmbed::UngrabKey),
        10 => Some(XEmbed::ModalityOn),
        11 => Some(XEmbed::ModalityOff),
        12 => Some(XEmbed::RegisterAccelerator),
        13 => Some(XEmbed::UnregisterAccelerator),
        14 => Some(XEmbed::ActivateAccelerator),
        _ => None,
    }
}

impl XEmbed {
    /// The message with the given number.
    pub fn from_repr(code: u8) -> (r: Option<XEmbed>)
        ensures
            r == xembed_of(code),
            code <= 14 <==> r is Some,
            code == 0 ==> r == Some(XEmbed::EmbeddedNotify),
            code == 1 ==> r == Some(XEmbed::WindowActivate),
            code == 2 ==> r == Some(XEmbed::WindowDeactivate),
            code == 4 ==> r == Some(XEmbed::FocusIn),
    {
        match code {
            0 => Some(XEmbed::EmbeddedNotify),
            1 => Some(XEmbed::WindowActivate),
            2 => Some(XEmbed::WindowDeactivate),
            3 => Some(XEmbed::RequestFocus),
            4 => Some(XEmbed::FocusIn),
            5 => Some(XEmbed::FocusOut),
            6 => Some(XEmbed::FocusNext),
            7 => Some(XEmbed::FocusPrev),
            8 => Some(XEmbed::GrabKey),
            9 => Some(XEmbed::UngrabKey),
            10 => Some(XEmbed::ModalityOn),
            11 => Some(XEmbed::ModalityOff),
            12 => Some(XEmbed::RegisterAccelerator),
            13 => Some(XEmbed::UnregisterAccelerator),
            14 => Some(XEmbed::ActivateAccelerator),
            _ => None,
        }
    }

    /// The number of the message.
    pub fn code(self) -> (r: u32)
        ensures
            xembed_of(r as u8) == Some(self),
            self == XEmbed::EmbeddedNotify ==> r == 0,
            self == XEmbed::WindowActivate ==> r == 1,
            self == XEmbed::WindowDeactivate ==> r == 2,
            self == XEmbed::FocusIn ==> r == 4,
            r <= 14,
    {
        match self {
            XEmbed::EmbeddedNotify => 0,
            XEmbed::WindowActivate => 1,
            XEmbed::WindowDeactivate => 2,
            XEmbed::RequestFocus => 3,
            XEmbed::FocusIn => 4,
            XEmbed::FocusOut => 5,
            XEmbed::FocusNext => 6,
            XEmbed::FocusPrev => 7,
            XEmbed::GrabKey => 8,
            XEmbed::UngrabKey => 9,
            XEmbed::ModalityOn => 10,
            XEmbed::ModalityOff => 11,
            XEmbed::RegisterAccelerator => 12,
            XEmbed::UnregisterAccelerator => 13,
            XEmbed::ActivateAccelerator => 14,
        }
    }
}

/// The larger of two widths.
pub open spec fn wider(a: u16, b: u16) -> u16 {
    if a >= b {
        a
    } else {
        b
    }
}

/// The width of a tray icon from its size hints (minimum, base and asked
/// width, each where given): each given one, at least twice the panel
/// height, replaces the one before; without any the width is zero.
pub open spec fn tray_width_of(min: Option<i32>, base: Option<i32>, size: Option<i32>, panel_height: u16) -> u16 {
    let twice = (panel_height * 2) as u16;
    let w0 = match min {
        Some(w) => wider(w as u16, twice),
        None => 0u16,
    };
    let w1 = match base {
        Some(w) => wider(w as u16, twice),
        None => w0,
    };
    match size {
        Some(w) => wider(w as u16, twice),
        None => w1,
    }
}

impl Tray {
    /// A tray icon of window `win`, with nothing else set.
    pub fn new(win: u32) -> (t: Tray)
        ensures
            t.win == win,
            t.flags == 0,
            t.width == 0,
            t.name@.len() == 0,
    {
        Tray { flags: 0, win, name: String::new(), width: 0 }
    }

    /// Set the width from the size hints of the icon's window (see
    /// `tray_width_of`); `hints` holds its minimum, base and asked width
    /// where it has size hints.
    pub fn set_size_hints(&mut self, hints: Option<(Option<i32>, Option<i32>, Option<i32>)>, panel_height: u16)
        requires
            panel_height * 2 <= u16::MAX,
        ensures
            final(self).width == (match hints {
                Some((min, base, size)) => tray_width_of(min, base, size, panel_height),
                None => 0u16,
            }),
            final(self).flags == old(self).flags,
            final(self).win == old(self).win,
            final(self).name == old(self).name,
    {
        self.width = 0;
        if let Some((min, base, size)) = hints {
            let twice = panel_height * 2;
            if let Some(w) = min {
                let w = #[verifier::truncate] (w as u16);
                self.width = if w >= twice {
                    w
                } else {
                    twice
                };
            }
            if let Some(w) = base {
                let w = #[verifier::truncate] (w as u16);
                self.width = if w >= twice {
                    w
                } else {
                    twice
                };
            }
            if let Some(w) = size {
                let w = #[verifier::truncate] (w as u16);
                self.width = if w >= twice {
                    w
                } else {
                    twice
                };
            }
        }
    }

    /// Mark the delete-window protocol where a value of the icon's
    /// protocols property names it.
    pub fn set_wm_protocols(&mut self, protocols: &Vec<u8>, delete_window: u32)
        ensures
            final(self).flags == (if exists|i: int| 0 <= i < protocols.len() && protocols@[i] as u32 == delete_window {
                old(self).flags | TRAY_CLOSE
            } else {
                old(self).flags
            }),
            *final(self) == (Tray { flags: final(self).flags, ..*old(self) }),
    {
        let mut i: usize = 0;
        let mut found = false;
        while i < protocols.len()
            invariant
                i <= protocols.len(),
                found == exists|j: int| 0 <= j < i && protocols@[j] as u32 == delete_window,
            decreases protocols.len() - i,
        {
            if protocols[i] as u32 == delete_window {
                found = true;
            }
            i = i + 1;
        }
        if found {
            self.flags = self.flags | TRAY_CLOSE;
        }
    }

    /// Follow the icon's XEmbed info: with info the icon is mapped and
    /// activated; without, it is unmapped (ignoring that unmap) and
    /// deactivated. Returns the message to send.
    pub fn set_state(&mut self, has_info: bool) -> (r: XEmbed)
        ensures
            has_info ==> r == XEmbed::WindowActivate && final(self).flags == old(self).flags,
            !has_info ==> r == XEmbed::WindowDeactivate && final(self).flags == old(self).flags | TRAY_UNMAP,
            *final(self) == (Tray { flags: final(self).flags, ..*old(self) }),
    {
        if has_info {
            XEmbed::WindowActivate
        } else {
            self.flags = self.flags | TRAY_UNMAP;
            XEmbed::WindowDeactivate
        }
    }

    /// Whether closing asks the icon to delete its window rather than
    /// killing it.
    pub fn closes_by_request(&self) -> (r: bool)
        ensures
            r == has_any(self.flags, TRAY_CLOSE),
    {
        intersects(self.flags, TRAY_CLOSE)
    }
}

/// Where a tray icon goes in the tray window: at `x`, at least one pixel
/// wide, as tall as the panel less the tray style's vertical spacing but at
/// least one pixel.
pub open spec fn tray_geometry(x: i32, panel_height: u16, style: Style) -> (i32, i32, u32, u32) {
    let h = (panel_height as i16) - style.spacing(CalcSpacing::Height);
    (x, 0, (if x >= 1 {
        x
    } else {
        1
    }) as u32, (if h >= 1 {
        h
    } else {
        1
    }) as u32)
}

/// Where a tray icon goes in the tray window (see `tray_geometry`).
pub fn tray_resize(x: i32, panel_height: u16, style: &Style) -> (r: (i32, i32, u32, u32))
    requires
        style.spacing_fits(CalcSpacing::Height),
        i16::MIN <= (panel_height as i16) - style.spacing(CalcSpacing::Height) <= i16::MAX,
    ensures
        r == tray_geometry(x, panel_height, *style),
{
    let h = (#[verifier::truncate] (panel_height as i16)) - style.calc_spacing(CalcSpacing::Height);
    let w = if x >= 1 {
        x
    } else {
        1
    };
    let hh = if h >= 1 {
        h
    } else {
        1
    };
    (x, 0, w as u32, hh as u32)
}

/// Index of the tray icon of window `win`.
pub fn find_tray(trays: &Vec<Tray>, win: u32) -> (r: Option<usize>)
    ensures
        match r {
            Some(k) => k < trays.len() && trays@[k as int].win == win && forall|j: int| 0 <= j < k ==> trays@[j].win
                != win,
            None => forall|j: int| 0 <= j < trays.len() ==> trays@[j].win != win,
        },
{
    let mut i: usize = 0;
    while i < trays.len()
        invariant
            i <= trays.len(),
            forall|j: int| 0 <= j < i ==> trays@[j].win != win,
        decreases trays.len() - i,
    {
        if trays[i].win == win {
            return Some(i);
        }
        i = i + 1;
    }
    None
}

/// The widths of the tray icons for the tray item, `None` for dead ones.
pub fn tray_widths(trays: &Vec<Tray>) -> (r: Vec<Option<u16>>)
    ensures
        r@.len() == trays.len(),
        forall|i: int|
            0 <= i < trays.len() ==> #[trigger] r@[i] == (if has_any(trays@[i].flags, TRAY_DEAD) {
                None
            } else {
                Some(trays@[i].width)
            }),
{
    let mut out: Vec<Option<u16>> = Vec::new();
    let mut i: usize = 0;
    while i < trays.len()
        invariant
            i <= trays.len(),
            out@.len() == i,
            forall|k: int|
                0 <= k < i ==> #[trigger] out@[k] == (if has_any(trays@[k].flags, TRAY_DEAD) {
                    None
                } else {
                    Some(trays@[k].width)
                }),
        decreases trays.len() - i,
    {
        if intersects(trays[i].flags, TRAY_DEAD) {
            out.push(None);
        } else {
            out.push(Some(trays[i].width));
        }
        i = i + 1;
    }
    out
}

/// The trays without those of window `win`, in their order.
pub open spec fn trays_without(trays: Seq<Tray>, win: u32) -> Seq<Tray>
    decreases trays.len(),
{
    if trays.len() == 0 {
        seq![]
    } else {
        let rest = trays_without(trays.drop_last(), win);
        if trays.last().win == win {
            rest
        } else {
            rest.push(trays.last())
        }
    }
}

/// Remove the trays of window `win`, keeping the order of the others.
pub fn remove_tray_by_win(trays: &mut Vec<Tray>, win: u32)
    ensures
        final(trays)@ == trays_without(old(trays)@, win),
{
    let mut kept: Vec<Tray> = Vec::new();
    let mut all: Vec<Tray> = Vec::new();
    std::mem::swap(&mut all, trays);
    let ghost start = all@;
    assert(start.len() == all.len());
    let mut rev: Vec<Tray> = Vec::new();
    while all.len() > 0
        invariant
            start == all@ + rev@.reverse(),
            start.len() <= usize::MAX,
        decreases all.len(),
    {
        let t = all.pop().unwrap();
        proof {
            assert(rev@.push(t).reverse() =~= seq![t] + rev@.reverse());
        }
        rev.push(t);
    }
    assert(start =~= rev@.reverse());
    let mut i: usize = 0;
    while rev.len() > 0
        invariant
            start == start.subrange(0, i as int) + rev@.reverse(),
            i + rev@.len() == start.len(),
            start.len() <= usize::MAX,
            kept@ == trays_without(start.subrange(0, i as int), win),
        decreases rev.len(),
    {
        let ghost r = rev@;
        let t = rev.pop().unwrap();
        proof {
            assert(r.reverse() =~= seq![t] + rev@.reverse());
            assert(start[i as int] == t);
            assert(start.subrange(0, i + 1).drop_last() =~= start.subrange(0, i as int));
            assert(start =~= start.subrange(0, i + 1) + rev@.reverse());
        }
        if t.win != win {
            kept.push(t);
        }
        i = i + 1;
    }
    assert(start.subrange(0, i as int) =~= start);
    *trays = kept;
}

impl Tray {
    /// Two trays are the same when they have the same window.
    pub fn eq(&self, other: &Tray) -> (r: bool)
        ensures
            r == (self.win == other.win),
    {
        self.win == other.win
    }
}

} // verus!
