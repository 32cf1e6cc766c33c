//! Arranging a client on a screen: fullscreen, floating, desktop and tiled
//! placement, with zaphod mode spanning all screens.

use vstd::prelude::*;
use crate::bits::{contains, intersects, has_all, has_any};
use crate::client::{Client, ARRANGE, DEAD, MODE_FLOAT, MODE_FULL, MODE_ZAPHOD, TYPE_DESKTOP, TYPE_DOCK};
use crate::gravity::{Gravity, GRAVITY_HORZ, GRAVITY_VERT, apply_ok, apply_fits, placed};
use crate::rect::Rect;
use crate::screen::{Screen, TOP_PANEL, BOTTOM_PANEL};
use crate::size::{AspectArgs, resize_ok, resized, aspect_deterministic, lemma_resize_ok_same};
use crate::spacing::Spacing;
use crate::style::fits_i16;
use crate::toggle::{screen_of, fits};

verus! {

/// All flags a screen knows of.
pub const KNOWN_SCREEN_FLAGS: u32 = 7u32;

/// Area of a zaphod client before panels: the whole display without the
/// client strut.
pub open spec fn zaphod_start(padding: Spacing, width: u16, height: u16) -> Rect {
    Rect {
        x: padding.left,
        y: padding.top,
        width: (width - (((padding.left - padding.right) as i16) as u16)) as u16,
        height: (height - (((padding.top - padding.bottom) as i16) as u16)) as u16,
    }
}

/// Area of a zaphod client after the panels of the first `k` screens were
/// taken off, with the panel kinds still to take off.
pub open spec fn zaphod_fold(start: Rect, screens: Seq<Screen>, ph: u16, k: int) -> (Rect, u32)
    decreases k,
{
    if k <= 0 {
        (start, TOP_PANEL | BOTTOM_PANEL)
    } else {
        let (b, f) = zaphod_fold(start, screens, ph, k - 1);
        let s = screens[k - 1];
        if has_all(s.flags, f) {
            let b1 = if has_all(s.flags, TOP_PANEL) {
                Rect { y: (b.y + (ph as i16)) as i16, height: (b.height - ph) as u16, ..b }
            } else {
                b
            };
            let b2 = if has_all(s.flags, BOTTOM_PANEL) {
                Rect { height: (b1.height - ph) as u16, ..b1 }
            } else {
                b1
            };
            (b2, f & (!(s.flags & (TOP_PANEL | BOTTOM_PANEL)) & KNOWN_SCREEN_FLAGS))
        } else {
            (b, f)
        }
    }
}

/// Taking off the panels of the first `k` screens does not overflow.
pub open spec fn zaphod_fold_ok(start: Rect, screens: Seq<Screen>, ph: u16, k: int) -> bool
    decreases k,
{
    if k <= 0 {
        true
    } else {
        let (b, f) = zaphod_fold(start, screens, ph, k - 1);
        let s = screens[k - 1];
        let h1 = if has_all(s.flags, TOP_PANEL) {
            b.height - ph
        } else {
            b.height as int
        };
        &&& zaphod_fold_ok(start, screens, ph, k - 1)
        &&& has_all(s.flags, f) ==> {
            &&& has_all(s.flags, TOP_PANEL) ==> fits_i16(b.y + (ph as i16)) && b.height >= ph
            &&& has_all(s.flags, BOTTOM_PANEL) ==> h1 >= ph
        }
    }
}

/// The area of a zaphod client.
pub open spec fn zaphod_bounds(padding: Spacing, width: u16, height: u16, screens: Seq<Screen>, ph: u16) -> Rect {
    zaphod_fold(zaphod_start(padding, width, height), screens, ph, screens.len() as int).0
}

/// Computing the zaphod area does not overflow.
pub open spec fn zaphod_ok(padding: Spacing, width: u16, height: u16, screens: Seq<Screen>, ph: u16) -> bool {
    &&& fits_i16(padding.left - padding.right)
    &&& fits_i16(padding.top - padding.bottom)
    &&& width >= (((padding.left - padding.right) as i16) as u16)
    &&& height >= (((padding.top - padding.bottom) as i16) as u16)
    &&& zaphod_fold_ok(zaphod_start(padding, width, height), screens, ph, screens.len() as int)
}

/// The area a zaphod client spans: the display without the client strut and
/// without the panels of the screens.
pub fn calc_zaphod(padding: Spacing, width: u16, height: u16, screens: &Vec<Screen>, panel_height: u16) -> (r: Rect)
    requires
        zaphod_ok(padding, width, height, screens@, panel_height),
    ensures
        r == zaphod_bounds(padding, width, height, screens@, panel_height),
{
    let mut flags: u32 = TOP_PANEL | BOTTOM_PANEL;
    let mut bounds = Rect {
        x: padding.left,
        y: padding.top,
        width: width - #[verifier::truncate] ((padding.left - padding.right) as u16),
        height: height - #[verifier::truncate] ((padding.top - padding.bottom) as u16),
    };
    let ghost start = bounds;
    let mut k: usize = 0;
    while k < screens.len()
        invariant
            k <= screens@.len(),
            start == zaphod_start(padding, width, height),
            zaphod_fold_ok(start, screens@, panel_height, screens@.len() as int),
            (bounds, flags) == zaphod_fold(start, screens@, panel_height, k as int),
        decreases screens.len() - k,
    {
        proof {
            lemma_zaphod_ok_prefix(start, screens@, panel_height, screens@.len() as int, k as int + 1);
        }
        let sf = screens[k].flags;
        if contains(sf, flags) {
            if contains(sf, TOP_PANEL) {
                bounds.y = bounds.y + #[verifier::truncate] (panel_height as i16);
                bounds.height = bounds.height - panel_height;
            }
            if contains(sf, BOTTOM_PANEL) {
                bounds.height = bounds.height - panel_height;
            }
            flags = flags & (!(sf & (TOP_PANEL | BOTTOM_PANEL)) & KNOWN_SCREEN_FLAGS);
        }
        k = k + 1;
    }
    bounds
}

/// Whether computing the zaphod area does not overflow (see `zaphod_ok`).
pub fn zaphod_fits(padding: Spacing, width: u16, height: u16, screens: &Vec<Screen>, panel_height: u16) -> (r: bool)
    ensures
        r == zaphod_ok(padding, width, height, screens@, panel_height),
{
    let dx = padding.left as i32 - padding.right as i32;
    let dy = padding.top as i32 - padding.bottom as i32;
    if !fits(dx) || !fits(dy) {
        return false;
    }
    let wx: u16 = #[verifier::truncate] ((dx as i16) as u16);
    let wy: u16 = #[verifier::truncate] ((dy as i16) as u16);
    if width < wx || height < wy {
        return false;
    }
    let mut flags: u32 = TOP_PANEL | BOTTOM_PANEL;
    let mut bounds = Rect { x: padding.left, y: padding.top, width: width - wx, height: height - wy };
    let ghost start = bounds;
    assert(start == zaphod_start(padding, width, height));
    let mut k: usize = 0;
    while k < screens.len()
        invariant
            k <= screens@.len(),
            start == zaphod_start(padding, width, height),
            zaphod_fold_ok(start, screens@, panel_height, k as int),
            (bounds, flags) == zaphod_fold(start, screens@, panel_height, k as int),
        decreases screens.len() - k,
    {
        let sf = screens[k].flags;
        if contains(sf, flags) {
            if contains(sf, TOP_PANEL) {
                if !fits(bounds.y as i32 + #[verifier::truncate] (panel_height as i16) as i32)
                    || bounds.height < panel_height {
                    proof {
                        if zaphod_fold_ok(start, screens@, panel_height, screens@.len() as int) {
                            lemma_zaphod_ok_prefix(start, screens@, panel_height, screens@.len() as int, k as int + 1);
                        }
                    }
                    return false;
                }
                bounds.y = bounds.y + #[verifier::truncate] (panel_height as i16);
                bounds.height = bounds.height - panel_height;
            }
            if contains(sf, BOTTOM_PANEL) {
                if bounds.height < panel_height {
                    proof {
                        if zaphod_fold_ok(start, screens@, panel_height, screens@.len() as int) {
                            lemma_zaphod_ok_prefix(start, screens@, panel_height, screens@.len() as int, k as int + 1);
                        }
                    }
                    return false;
                }
                bounds.height = bounds.height - panel_height;
            }
            flags = flags & (!(sf & (TOP_PANEL | BOTTOM_PANEL)) & KNOWN_SCREEN_FLAGS);
        }
        k = k + 1;
    }
    true
}

proof fn lemma_zaphod_ok_prefix(start: Rect, screens: Seq<Screen>, ph: u16, n: int, k: int)
    requires
        zaphod_fold_ok(start, screens, ph, n),
        k <= n,
    ensures
        zaphod_fold_ok(start, screens, ph, k),
    decreases n - k,
{
    if k < n {
        lemma_zaphod_ok_prefix(start, screens, ph, n - 1, k);
    }
}

} // verus!

verus! {

/// The window configuration to send; absent values stay as they are.
#[derive(Clone, Copy, Debug, PartialEq, Eq, Structural)]
pub struct WindowConfig {
    pub x: i32,
    pub y: i32,
    pub width: u32,
    pub height: u32,
    /// Raise the window above its siblings.
    pub raise: bool,
}

/// What arranging a client decided.
#[derive(Debug)]
pub enum ArrangeResult {
    /// The client is dead and was left alone.
    Skipped,
    /// There is no screen with the requested index.
    NoScreen,
    /// The client was arranged: the window configuration to send, if any
    /// (`None` inside means an empty configuration), and the gravities to
    /// tile afterwards as pairs of gravity and screen index.
    Arranged { config: Option<Option<WindowConfig>>, tiles: Vec<(isize, isize)> },
}

/// What arranging needs to know besides the client.
#[derive(Clone, Copy, Debug)]
pub struct ArrangeContext {
    /// Size of the whole display.
    pub width: u16,
    pub height: u16,
    /// Tile all gravities.
    pub gravity_tiling: bool,
    /// Border width, margin and strut of client windows.
    pub border: i16,
    pub margin: Spacing,
    pub padding: Spacing,
    /// Height of a panel.
    pub panel_height: u16,
}

/// The configuration that covers a rectangle.
pub open spec fn config_of(g: Rect, raise: bool) -> WindowConfig {
    WindowConfig { x: g.x as i32, y: g.y as i32, width: g.width as u32, height: g.height as u32, raise }
}

/// The gravity with index `i`, if there is one.
pub open spec fn gravity_of(gravities: Seq<Gravity>, i: isize) -> Option<Gravity> {
    if 0 <= i < gravities.len() {
        Some(gravities[i as int])
    } else {
        None
    }
}

/// Tiling applies to a gravity that tiles both ways.
pub open spec fn tiles_both(g: Option<Gravity>) -> bool {
    g matches Some(g) && has_all(g.flags, GRAVITY_HORZ | GRAVITY_VERT)
}

/// Configuration of a fullscreen client: the whole display in zaphod mode,
/// else its own screen, else nothing.
pub open spec fn full_config(c: Client, screens: Seq<Screen>, ctx: ArrangeContext) -> Option<WindowConfig> {
    if has_all(c.flags, MODE_ZAPHOD) {
        Some(WindowConfig { x: 0, y: 0, width: ctx.width as u32, height: ctx.height as u32, raise: true })
    } else {
        match screen_of(screens, c.screen_idx) {
            Some(s) => Some(config_of(s.base, true)),
            None => None,
        }
    }
}

/// A floating client changes place.
pub open spec fn float_moves(c: Client, si: isize) -> bool {
    has_any(c.flags, ARRANGE) || (si != -1 && c.screen_idx != si)
}

/// A floating client moved to screen `si`: keeps its offset to the screen.
pub open spec fn float_moved(c: Client, screens: Seq<Screen>, si: isize) -> Client {
    let old = screen_of(screens, if c.screen_idx != -1 {
        c.screen_idx
    } else {
        0
    });
    let s = screens[si as int];
    if old is Some && si != c.screen_idx {
        let o = old->0;
        Client {
            geom: Rect {
                x: (c.geom.x - o.geom.x + s.geom.x) as i16,
                y: (c.geom.y - o.geom.y + s.geom.y) as i16,
                ..c.geom
            },
            screen_idx: si,
            ..c
        }
    } else {
        c
    }
}

/// A tiled client changes place.
pub open spec fn tiled_moves(c: Client, gi: isize, si: isize) -> bool {
    has_any(c.flags, ARRANGE) || c.gravity_idx != gi || c.screen_idx != si
}

/// A tiled client with its new screen and gravity.
pub open spec fn tiled_moved(c: Client, screens: Seq<Screen>, gi: isize, si: isize) -> Client {
    let s = screens[si as int];
    Client {
        screen_idx: if si != -1 {
            si
        } else {
            c.screen_idx
        },
        gravity_idx: if gi != -1 {
            gi
        } else {
            c.gravity_idx
        },
        ..c
    }
}

/// Gravities of a tiled client after moving: the view of the new screen takes
/// the new gravity.
pub open spec fn moved_gravities(c: Client, screens: Seq<Screen>, gi: isize, si: isize) -> Seq<usize> {
    if gi != -1 {
        c.gravities@.update(screens[si as int].view_idx as int, gi as usize)
    } else {
        c.gravities@
    }
}

/// Two clients agree on everything but geometry and gravities.
pub open spec fn same_but_place(a: Client, b: Client) -> bool {
    &&& a.flags == b.flags
    &&& a.tags == b.tags
    &&& a.win == b.win
    &&& a.leader == b.leader
    &&& a.name == b.name
    &&& a.instance == b.instance
    &&& a.klass == b.klass
    &&& a.role == b.role
    &&& a.aspect == b.aspect
    &&& a.min_width == b.min_width
    &&& a.min_height == b.min_height
    &&& a.max_width == b.max_width
    &&& a.max_height == b.max_height
    &&& a.width_inc == b.width_inc
    &&& a.height_inc == b.height_inc
    &&& a.base_width == b.base_width
    &&& a.base_height == b.base_height
    &&& a.screen_idx == b.screen_idx
    &&& a.gravity_idx == b.gravity_idx
    &&& a.order == b.order
}

/// The old gravity of a tiled client is re-tiled.
pub open spec fn old_tile(c: Client, gravities: Seq<Gravity>, ctx: ArrangeContext) -> bool {
    c.screen_idx != -1 && (ctx.gravity_tiling || tiles_both(gravity_of(gravities, c.gravity_idx)))
}

/// The new gravity of a tiled client is tiled as a whole.
pub open spec fn new_tile(gravities: Seq<Gravity>, gi: isize, ctx: ArrangeContext) -> bool {
    ctx.gravity_tiling && tiles_both(gravity_of(gravities, gi))
}

/// Bounds of a tiled client: the zaphod area or its screen.
pub open spec fn tiled_bounds(c: Client, s: Screen, screens: Seq<Screen>, ctx: ArrangeContext) -> Rect {
    if has_all(c.flags, MODE_ZAPHOD) {
        zaphod_bounds(ctx.padding, ctx.width, ctx.height, screens, ctx.panel_height)
    } else {
        s.geom
    }
}

/// A tiled client placed by its gravity within `bounds`.
pub open spec fn gravity_placed(c: Client, gravities: Seq<Gravity>, gi: isize, bounds: Rect) -> Client {
    match gravity_of(gravities, gi) {
        Some(g) => Client { geom: placed(g.geom, bounds), ..c },
        None => c,
    }
}

/// Arranging does not overflow or index out of bounds.
pub open spec fn arrange_ok<F: Fn(AspectArgs) -> u16>(
    c: Client,
    gravities: Seq<Gravity>,
    screens: Seq<Screen>,
    gi: isize,
    si: isize,
    ctx: ArrangeContext,
    aspect: F,
) -> bool {
    (!has_any(c.flags, DEAD) && screen_of(screens, si) is Some) ==> {
        let s = screens[si as int];
        if has_any(c.flags, MODE_FULL) {
            true
        } else if has_any(c.flags, MODE_FLOAT) {
            float_moves(c, si) ==> {
                let old = screen_of(screens, if c.screen_idx != -1 {
                    c.screen_idx
                } else {
                    0
                });
                &&& (old is Some && si != c.screen_idx) ==> {
                    let o = old->0;
                    &&& fits_i16(c.geom.x - o.geom.x)
                    &&& fits_i16(c.geom.x - o.geom.x + s.geom.x)
                    &&& fits_i16(c.geom.y - o.geom.y)
                    &&& fits_i16(c.geom.y - o.geom.y + s.geom.y)
                }
                &&& resize_ok(float_moved(c, screens, si), s.geom, true, ctx.border, ctx.margin, aspect)
            }
        } else if has_any(c.flags, TYPE_DESKTOP | TYPE_DOCK) {
            true
        } else {
            tiled_moves(c, gi, si) ==> {
                let c1 = tiled_moved(c, screens, gi, si);
                let b = tiled_bounds(c, s, screens, ctx);
                &&& gi != -1 ==> 0 <= s.view_idx < c.gravities@.len()
                &&& !new_tile(gravities, gi, ctx) ==> {
                    &&& has_all(c.flags, MODE_ZAPHOD) ==> zaphod_ok(
                        ctx.padding,
                        ctx.width,
                        ctx.height,
                        screens,
                        ctx.panel_height,
                    )
                    &&& gravity_of(gravities, gi) matches Some(g) ==> apply_ok(g.geom, b)
                    &&& resize_ok(gravity_placed(c1, gravities, gi, b), b, true, ctx.border, ctx.margin, aspect)
                }
            }
        }
    }
}

impl Client {
    /// Record `gravity_idx` as the gravity of view `view_idx`, unless it is `-1`.
    fn set_view_gravity(&mut self, view_idx: isize, gravity_idx: isize)
        requires
            gravity_idx != -1 ==> 0 <= view_idx < old(self).gravities@.len(),
        ensures
            final(self).gravities@ == (if gravity_idx != -1 {
                old(self).gravities@.update(view_idx as int, gravity_idx as usize)
            } else {
                old(self).gravities@
            }),
            same_but_place(*final(self), *old(self)),
            final(self).geom == old(self).geom,
    {
        if -1 != gravity_idx {
            self.gravities.set(view_idx as usize, #[verifier::truncate] (gravity_idx as usize));
        }
    }

    /// Arrange the client on screen `screen_idx` with gravity `gravity_idx`
    /// (`-1` keeps the current one). Fullscreen clients cover their screen or,
    /// in zaphod mode, the display; floating clients move along with their
    /// screen and are fitted into it; desktops take the screen; tiled clients
    /// take their gravity's share of the screen (or the zaphod area) unless
    /// gravity tiling places them. Returns the window configuration to send
    /// and the gravities to tile.
    pub fn arrange<F: Fn(AspectArgs) -> u16>(
        &mut self,
        gravities: &Vec<Gravity>,
        screens: &Vec<Screen>,
        gravity_idx: isize,
        screen_idx: isize,
        ctx: ArrangeContext,
        aspect: &F,
    ) -> (r: ArrangeResult)
        requires
            arrange_ok(*old(self), gravities@, screens@, gravity_idx, screen_idx, ctx, *aspect),
            forall|a: AspectArgs| aspect.requires((a,)),
        ensures
            ({
                let c = *old(self);
                let gi = gravity_idx;
                let si = screen_idx;
                if has_any(c.flags, DEAD) {
                    r is Skipped && *final(self) == c
                } else if screen_of(screens@, si) is None {
                    r is NoScreen && *final(self) == c
                } else {
                    let s = screens@[si as int];
                    r matches ArrangeResult::Arranged { config, tiles } && if has_any(c.flags, MODE_FULL) {
                        &&& *final(self) == c
                        &&& config == Some(full_config(c, screens@, ctx))
                        &&& tiles@.len() == 0
                    } else if has_any(c.flags, MODE_FLOAT) {
                        &&& tiles@.len() == 0
                        &&& if float_moves(c, si) {
                            let c1 = float_moved(c, screens@, si);
                            &&& resized(c1, s.geom, true, ctx.border, ctx.margin, *aspect, final(self).geom)
                            &&& *final(self) == Client { geom: final(self).geom, ..c1 }
                            &&& config == Some(Some(config_of(final(self).geom, false)))
                        } else {
                            *final(self) == c && config is None
                        }
                    } else if has_any(c.flags, TYPE_DESKTOP | TYPE_DOCK) {
                        let g = if has_any(c.flags, TYPE_DESKTOP) {
                            s.geom
                        } else {
                            c.geom
                        };
                        &&& *final(self) == Client { geom: g, ..c }
                        &&& config == Some(Some(config_of(g, false)))
                        &&& tiles@.len() == 0
                    } else if tiled_moves(c, gi, si) {
                        let c1 = tiled_moved(c, screens@, gi, si);
                        let olds = if old_tile(c, gravities@, ctx) {
                            seq![(c.gravity_idx, c.screen_idx)]
                        } else {
                            Seq::empty()
                        };
                        &&& same_but_place(*final(self), c1)
                        &&& final(self).gravities@ == moved_gravities(c, screens@, gi, si)
                        &&& if new_tile(gravities@, gi, ctx) {
                            &&& final(self).geom == c.geom
                            &&& config is None
                            &&& tiles@ == olds.push((gi, if si == -1 {
                                0isize
                            } else {
                                si
                            }))
                        } else {
                            let b = tiled_bounds(c, s, screens@, ctx);
                            let c2 = gravity_placed(c1, gravities@, gi, b);
                            &&& resized(c2, b, true, ctx.border, ctx.margin, *aspect, final(self).geom)
                            &&& config == Some(Some(config_of(final(self).geom, false)))
                            &&& tiles@ == olds
                        }
                    } else {
                        *final(self) == c && config is None && tiles@.len() == 0
                    }
                }
            }),
    {
        if intersects(self.flags, DEAD) {
            return ArrangeResult::Skipped;
        }
        if !(screen_idx >= 0 && (screen_idx as usize) < screens.len()) {
            return ArrangeResult::NoScreen;
        }
        let screen = &screens[screen_idx as usize];
        let mut tiles: Vec<(isize, isize)> = Vec::new();
        if intersects(self.flags, MODE_FULL) {
            let config = if contains(self.flags, MODE_ZAPHOD) {
                Some(WindowConfig { x: 0, y: 0, width: ctx.width as u32, height: ctx.height as u32, raise: true })
            } else if self.screen_idx >= 0 && (self.screen_idx as usize) < screens.len() {
                let b = screens[self.screen_idx as usize].base;
                Some(WindowConfig { x: b.x as i32, y: b.y as i32, width: b.width as u32, height: b.height as u32, raise: true })
            } else {
                None
            };
            return ArrangeResult::Arranged { config: Some(config), tiles };
        } else if intersects(self.flags, MODE_FLOAT) {
            if intersects(self.flags, ARRANGE) || (-1 != screen_idx && self.screen_idx != screen_idx) {
                let old_idx = if -1 != self.screen_idx {
                    self.screen_idx
                } else {
                    0
                };
                if old_idx >= 0 && (old_idx as usize) < screens.len() {
                    if screen_idx != self.screen_idx {
                        let o = &screens[old_idx as usize];
                        self.geom.x = self.geom.x - o.geom.x + screen.geom.x;
                        self.geom.y = self.geom.y - o.geom.y + screen.geom.y;
                        self.screen_idx = screen_idx;
                    }
                }
                self.resize(screen.geom, true, ctx.border, ctx.margin, aspect);
                let g = self.geom;
                return ArrangeResult::Arranged {
                    config: Some(Some(WindowConfig { x: g.x as i32, y: g.y as i32, width: g.width as u32, height: g.height as u32, raise: false })),
                    tiles,
                };
            }
            return ArrangeResult::Arranged { config: None, tiles };
        } else if intersects(self.flags, TYPE_DESKTOP | TYPE_DOCK) {
            if intersects(self.flags, TYPE_DESKTOP) {
                self.geom = screen.geom;
            }
            let g = self.geom;
            return ArrangeResult::Arranged {
                config: Some(Some(WindowConfig { x: g.x as i32, y: g.y as i32, width: g.width as u32, height: g.height as u32, raise: false })),
                tiles,
            };
        } else {
            if intersects(self.flags, ARRANGE) || self.gravity_idx != gravity_idx || self.screen_idx != screen_idx {
                let old_gravity_id = self.gravity_idx;
                let old_screen_id = self.screen_idx;
                if -1 != screen_idx {
                    self.screen_idx = screen_idx;
                }
                if -1 != gravity_idx {
                    self.gravity_idx = gravity_idx;
                }
                // Gravity tiling
                let old_tiles_both = old_gravity_id >= 0 && (old_gravity_id as usize) < gravities.len()
                    && contains(gravities[old_gravity_id as usize].flags, GRAVITY_HORZ | GRAVITY_VERT);
                if -1 != old_screen_id && (ctx.gravity_tiling || old_tiles_both) {
                    tiles.push((old_gravity_id, old_screen_id));
                }
                let has_gravity = gravity_idx >= 0 && (gravity_idx as usize) < gravities.len();
                if ctx.gravity_tiling && has_gravity && contains(
                    gravities[gravity_idx as usize].flags,
                    GRAVITY_HORZ | GRAVITY_VERT,
                ) {
                    tiles.push((gravity_idx, if -1 == screen_idx {
                        0
                    } else {
                        screen_idx
                    }));
                    self.set_view_gravity(screen.view_idx, gravity_idx);
                    return ArrangeResult::Arranged { config: None, tiles };
                } else {
                    let bounds = if contains(self.flags, MODE_ZAPHOD) {
                        calc_zaphod(ctx.padding, ctx.width, ctx.height, screens, ctx.panel_height)
                    } else {
                        screen.geom
                    };
                    if has_gravity {
                        gravities[gravity_idx as usize].apply_size(&bounds, &mut self.geom);
                    }
                    self.resize(bounds, true, ctx.border, ctx.margin, aspect);
                    self.set_view_gravity(screen.view_idx, gravity_idx);
                    let g = self.geom;
                    return ArrangeResult::Arranged {
                        config: Some(Some(WindowConfig { x: g.x as i32, y: g.y as i32, width: g.width as u32, height: g.height as u32, raise: false })),
                        tiles,
                    };
                }
            }
            return ArrangeResult::Arranged { config: None, tiles };
        }
    }
}

impl Client {
    /// Whether arranging the client with gravity `gi` on screen `si` is
    /// defined (see `arrange_ok`); calls `aspect` at most once.
    pub fn arrange_fits<F: Fn(AspectArgs) -> u16>(
        &self,
        gravities: &Vec<Gravity>,
        screens: &Vec<Screen>,
        gi: isize,
        si: isize,
        ctx: ArrangeContext,
        aspect: &F,
    ) -> (r: bool)
        requires
            forall|a: AspectArgs| aspect.requires((a,)),
            aspect_deterministic(*aspect),
        ensures
            r == arrange_ok(*self, gravities@, screens@, gi, si, ctx, *aspect),
    {
        if intersects(self.flags, DEAD) || !(si >= 0 && (si as usize) < screens.len()) {
            return true;
        }
        let s = &screens[si as usize];
        if intersects(self.flags, MODE_FULL) {
            return true;
        }
        if intersects(self.flags, MODE_FLOAT) {
            if !(intersects(self.flags, ARRANGE) || (si != -1 && self.screen_idx != si)) {
                return true;
            }
            let old_idx = if self.screen_idx != -1 {
                self.screen_idx
            } else {
                0
            };
            let mut g = self.geom;
            if old_idx >= 0 && (old_idx as usize) < screens.len() && si != self.screen_idx {
                let o = &screens[old_idx as usize];
                let dx = self.geom.x as i32 - o.geom.x as i32;
                let dy = self.geom.y as i32 - o.geom.y as i32;
                if !fits(dx) || !fits(dx + s.geom.x as i32) || !fits(dy) || !fits(dy + s.geom.y as i32) {
                    return false;
                }
                g.x = (dx + s.geom.x as i32) as i16;
                g.y = (dy + s.geom.y as i32) as i16;
            }
            let p = self.sizing_probe(g);
            let r = p.resize_fits(s.geom, true, ctx.border, ctx.margin, aspect);
            proof {
                let c1 = float_moved(*self, screens@, si);
                lemma_resize_ok_same(p, c1, s.geom, true, ctx.border, ctx.margin, *aspect);
            }
            return r;
        }
        if intersects(self.flags, TYPE_DESKTOP | TYPE_DOCK) {
            return true;
        }
        if !(intersects(self.flags, ARRANGE) || self.gravity_idx != gi || self.screen_idx != si) {
            return true;
        }
        if gi != -1 && !(0 <= s.view_idx && (s.view_idx as usize) < self.gravities.len()) {
            return false;
        }
        let known = gi >= 0 && (gi as usize) < gravities.len();
        if ctx.gravity_tiling && known && contains(gravities[gi as usize].flags, GRAVITY_HORZ | GRAVITY_VERT) {
            return true;
        }
        let b = if contains(self.flags, MODE_ZAPHOD) {
            if !zaphod_fits(ctx.padding, ctx.width, ctx.height, screens, ctx.panel_height) {
                return false;
            }
            calc_zaphod(ctx.padding, ctx.width, ctx.height, screens, ctx.panel_height)
        } else {
            s.geom
        };
        assert(b == tiled_bounds(*self, *s, screens@, ctx));
        let mut g = self.geom;
        if known {
            if !apply_fits(gravities[gi as usize].geom, b) {
                return false;
            }
            gravities[gi as usize].apply_size(&b, &mut g);
        }
        let p = self.sizing_probe(g);
        let r = p.resize_fits(b, true, ctx.border, ctx.margin, aspect);
        proof {
            let c2 = gravity_placed(tiled_moved(*self, screens@, gi, si), gravities@, gi, b);
            lemma_resize_ok_same(p, c2, b, true, ctx.border, ctx.margin, *aspect);
        }
        r
    }
}

} // verus!
