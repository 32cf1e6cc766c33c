//! Gravity tiling: clients sharing a gravity split its area evenly.

use vstd::prelude::*;
use crate::arrange::{WindowConfig, config_of, gravity_of};
use crate::bits::{contains, has_all};
use crate::client::{Client, MODE_FLOAT, MODE_FULL};
use crate::gravity::{Gravity, GRAVITY_HORZ, GRAVITY_VERT, apply_ok, apply_fits, placed};
use crate::rect::Rect;
use crate::screen::Screen;
use crate::size::{AspectArgs, resize_ok, resized, aspect_deterministic, lemma_resize_ok_same};
use crate::spacing::Spacing;
use crate::toggle::screen_of;

verus! {

/// Why tiling failed.
#[derive(Clone, Copy, Debug, PartialEq, Eq, Structural)]
pub enum TileError {
    GravityNotFound,
    ScreenNotFound,
}

/// The client takes part in tiling gravity `gi` on screen `si`: it has that
/// gravity and screen, all its tags are visible and it is not floating and
/// fullscreen at once.
pub open spec fn tiled_by(c: Client, gi: isize, si: isize, visible_tags: u32) -> bool {
    &&& c.gravity_idx == gi
    &&& c.screen_idx == si
    &&& has_all(visible_tags, c.tags)
    &&& !has_all(c.flags, MODE_FLOAT | MODE_FULL)
}

/// Number of clients among the first `k` that take part in tiling.
pub open spec fn tiled_count(clients: Seq<Client>, gi: isize, si: isize, visible_tags: u32, k: int) -> nat
    decreases k,
{
    if k <= 0 {
        0
    } else {
        tiled_count(clients, gi, si, visible_tags, k - 1) + if tiled_by(clients[k - 1], gi, si, visible_tags) {
            1nat
        } else {
            0nat
        }
    }
}

/// Size of one tile and what is left over: the gravity's width (or height)
/// split among `used` clients.
pub open spec fn tile_size(g: Gravity, area: Rect, used: int) -> (int, int) {
    let p = placed(g.geom, area);
    if has_all(g.flags, GRAVITY_HORZ) {
        ((p.width as int) / used, p.width - ((p.width as int) / used) * used)
    } else if has_all(g.flags, GRAVITY_VERT) {
        ((p.height as int) / used, p.height - ((p.height as int) / used) * used)
    } else {
        (0, 0)
    }
}

/// Geometry of the tile at position `pos`: a strip at offset `pos * size`
/// from the origin, the size of a tile wide (horizontal) or high (vertical).
pub open spec fn tile_geom(g: Gravity, pos: int, size: int) -> Rect {
    if has_all(g.flags, GRAVITY_HORZ) {
        Rect { x: ((pos * size) as u16) as i16, y: 0, width: size as u16, height: 0 }
    } else if has_all(g.flags, GRAVITY_VERT) {
        Rect { x: 0, y: ((pos * size) as u16) as i16, width: 0, height: size as u16 }
    } else {
        Rect { x: 0, y: 0, width: 0, height: 0 }
    }
}

/// Client `c` at tiling position `pos` before it is resized.
pub open spec fn tile_start(c: Client, g: Gravity, pos: int, size: int) -> Client {
    Client { geom: tile_geom(g, pos, size), ..c }
}

/// Tiling does not overflow and every tiled client can be resized.
pub open spec fn tile_ok<F: Fn(AspectArgs) -> u16>(
    clients: Seq<Client>,
    gravities: Seq<Gravity>,
    screens: Seq<Screen>,
    gi: isize,
    si: isize,
    visible_tags: u32,
    border: i16,
    margin: Spacing,
    aspect: F,
) -> bool {
    (gravity_of(gravities, gi) is Some && screen_of(screens, si) is Some) ==> {
        let g = gravities[gi as int];
        let s = screens[si as int];
        let used = tiled_count(clients, gi, si, visible_tags, clients.len() as int);
        &&& used <= u16::MAX
        &&& used > 0 ==> {
            &&& apply_ok(g.geom, s.geom)
            &&& forall|j: int|
                0 <= j < clients.len() && #[trigger] tiled_by(clients[j], gi, si, visible_tags) ==> resize_ok(
                    tile_start(clients[j], g, tiled_count(clients, gi, si, visible_tags, j) as int, tile_size(g, s.geom, used as int).0),
                    s.geom,
                    true,
                    border,
                    margin,
                    aspect,
                )
        }
    }
}

proof fn lemma_count_monotone(clients: Seq<Client>, gi: isize, si: isize, vt: u32, j: int, k: int)
    requires
        0 <= j <= k <= clients.len(),
    ensures
        tiled_count(clients, gi, si, vt, j) <= tiled_count(clients, gi, si, vt, k),
    decreases k - j,
{
    if j < k {
        lemma_count_monotone(clients, gi, si, vt, j, k - 1);
    }
}

/// Count the clients that take part in tiling gravity `gi` on screen `si`.
fn count_tiled(clients: &Vec<Client>, gi: isize, si: isize, visible_tags: u32) -> (used: u16)
    requires
        tiled_count(clients@, gi, si, visible_tags, clients@.len() as int) <= u16::MAX,
    ensures
        used == tiled_count(clients@, gi, si, visible_tags, clients@.len() as int),
{
    let mut used: u16 = 0;
    let mut i: usize = 0;
    while i < clients.len()
        invariant
            i <= clients@.len(),
            used == tiled_count(clients@, gi, si, visible_tags, i as int),
            tiled_count(clients@, gi, si, visible_tags, clients@.len() as int) <= u16::MAX,
        decreases clients@.len() - i,
    {
        proof {
            lemma_count_monotone(clients@, gi, si, visible_tags, i as int + 1, clients@.len() as int);
        }
        let c = &clients[i];
        if c.gravity_idx == gi && c.screen_idx == si && contains(visible_tags, c.tags) && !contains(
            c.flags,
            MODE_FLOAT | MODE_FULL,
        ) {
            used = used + 1;
        }
        i = i + 1;
    }
    used
}

/// Whether client `c` can be resized on the tile at position `pos` of
/// tiles of `size` (see `tile_start`).
fn tile_client_fits<F: Fn(AspectArgs) -> u16>(
    c: &Client,
    g: &Gravity,
    pos: usize,
    size: u16,
    area: Rect,
    border: i16,
    margin: Spacing,
    aspect: &F,
) -> (r: bool)
    requires
        pos <= 65535,
        forall|a: AspectArgs| aspect.requires((a,)),
        aspect_deterministic(*aspect),
    ensures
        r == resize_ok(tile_start(*c, *g, pos as int, size as int), area, true, border, margin, *aspect),
{
    assert(pos as u64 * size as u64 <= 65535 * 65535) by (nonlinear_arith)
        requires
            pos <= 65535,
            size <= 65535,
    ;
    let off: u64 = pos as u64 * size as u64;
    let offset: i16 = #[verifier::truncate] ((#[verifier::truncate] (off as u16)) as i16);
    let t = if contains(g.flags, GRAVITY_HORZ) {
        Rect { x: offset, y: 0, width: size, height: 0 }
    } else if contains(g.flags, GRAVITY_VERT) {
        Rect { x: 0, y: offset, width: 0, height: size }
    } else {
        Rect { x: 0, y: 0, width: 0, height: 0 }
    };
    assert(t == tile_geom(*g, pos as int, size as int));
    let probe = c.sizing_probe(t);
    let ok = probe.resize_fits(area, true, border, margin, aspect);
    proof {
        lemma_resize_ok_same(probe, tile_start(*c, *g, pos as int, size as int), area, true, border, margin, *aspect);
    }
    ok
}

/// Whether tiling gravity `gi` on screen `si` is defined (see `tile_ok`):
/// the tiled clients fit a 16-bit count, the gravity can be placed on the
/// screen and each tiled client can be resized on its tile; calls `aspect`
/// at most once per tiled client.
#[verifier::rlimit(100)]
pub fn tile_fits<F: Fn(AspectArgs) -> u16>(
    clients: &Vec<Client>,
    gravities: &Vec<Gravity>,
    screens: &Vec<Screen>,
    gi: isize,
    si: isize,
    visible_tags: u32,
    border: i16,
    margin: Spacing,
    aspect: &F,
) -> (r: bool)
    requires
        forall|a: AspectArgs| aspect.requires((a,)),
        aspect_deterministic(*aspect),
    ensures
        r == tile_ok(clients@, gravities@, screens@, gi, si, visible_tags, border, margin, *aspect),
{
    if !(gi >= 0 && (gi as usize) < gravities.len() && si >= 0 && (si as usize) < screens.len()) {
        return true;
    }
    let g = &gravities[gi as usize];
    let s = &screens[si as usize];
    let mut used: usize = 0;
    let mut i: usize = 0;
    while i < clients.len()
        invariant
            i <= clients@.len(),
            used == tiled_count(clients@, gi, si, visible_tags, i as int),
            used <= i,
        decreases clients@.len() - i,
    {
        if is_tiled(&clients[i], gi, si, visible_tags) {
            used = used + 1;
        }
        i = i + 1;
    }
    if used > 65535 {
        return false;
    }
    if used == 0 {
        return true;
    }
    if !apply_fits(g.geom, s.geom) {
        return false;
    }
    let mut p = s.geom;
    g.apply_size(&s.geom, &mut p);
    let size: u16 = if contains(g.flags, GRAVITY_HORZ) {
        (p.width as usize / used) as u16
    } else if contains(g.flags, GRAVITY_VERT) {
        (p.height as usize / used) as u16
    } else {
        0
    };
    assert(size == tile_size(*g, s.geom, used as int).0);
    let mut pos: usize = 0;
    let mut j: usize = 0;
    while j < clients.len()
        invariant
            j <= clients@.len(),
            pos == tiled_count(clients@, gi, si, visible_tags, j as int),
            pos <= j,
            used <= 65535,
            apply_ok(gravities@[gi as int].geom, screens@[si as int].geom),
            g == gravities@[gi as int],
            s == screens@[si as int],
            0 <= gi < gravities@.len(),
            0 <= si < screens@.len(),
            used == tiled_count(clients@, gi, si, visible_tags, clients@.len() as int),
            size == tile_size(*g, s.geom, used as int).0,
            forall|a: AspectArgs| aspect.requires((a,)),
            aspect_deterministic(*aspect),
            forall|k: int|
                0 <= k < j && #[trigger] tiled_by(clients@[k], gi, si, visible_tags) ==> resize_ok(
                    tile_start(clients@[k], *g, tiled_count(clients@, gi, si, visible_tags, k) as int, size as int),
                    s.geom,
                    true,
                    border,
                    margin,
                    *aspect,
                ),
        decreases clients@.len() - j,
    {
        proof {
            lemma_count_monotone(clients@, gi, si, visible_tags, j as int, clients@.len() as int);
            lemma_count_monotone(clients@, gi, si, visible_tags, j as int + 1, clients@.len() as int);
        }
        if is_tiled(&clients[j], gi, si, visible_tags) {
            if !tile_client_fits(&clients[j], g, pos, size, s.geom, border, margin, aspect) {
                assert(tiled_by(clients@[j as int], gi, si, visible_tags));
                return false;
            }
            pos = pos + 1;
        }
        j = j + 1;
    }
    true
}

/// Whether the client takes part in tiling.
fn is_tiled(c: &Client, gi: isize, si: isize, visible_tags: u32) -> (r: bool)
    ensures
        r == tiled_by(*c, gi, si, visible_tags),
{
    c.gravity_idx == gi && c.screen_idx == si && contains(visible_tags, c.tags) && !contains(
        c.flags,
        MODE_FLOAT | MODE_FULL,
    )
}

/// Put one client on its tile and resize it into `area`.
fn tile_client<F: Fn(AspectArgs) -> u16>(
    c: &mut Client,
    g: &Gravity,
    pos: u16,
    calc: u16,
    area: Rect,
    border: i16,
    margin: Spacing,
    aspect: &F,
) -> (cfg: WindowConfig)
    requires
        (pos as int) * (calc as int) <= u16::MAX,
        resize_ok(tile_start(*old(c), *g, pos as int, calc as int), area, true, border, margin, *aspect),
        forall|a: AspectArgs| aspect.requires((a,)),
    ensures
        resized(tile_start(*old(c), *g, pos as int, calc as int), area, true, border, margin, *aspect, final(c).geom),
        *final(c) == (Client { geom: final(c).geom, ..*old(c) }),
        cfg == config_of(final(c).geom, false),
{
    let offset = #[verifier::truncate] ((pos * calc) as i16);
    let t = if contains(g.flags, GRAVITY_HORZ) {
        Rect { x: offset, y: 0, width: calc, height: 0 }
    } else if contains(g.flags, GRAVITY_VERT) {
        Rect { x: 0, y: offset, width: 0, height: calc }
    } else {
        Rect { x: 0, y: 0, width: 0, height: 0 }
    };
    c.geom = t;
    c.resize(area, true, border, margin, aspect);
    let ng = c.geom;
    WindowConfig { x: ng.x as i32, y: ng.y as i32, width: ng.width as u32, height: ng.height as u32, raise: false }
}

/// Tile the clients of gravity `gravity_id` on screen `screen_id`: each
/// visible, non-floating client of that gravity gets an equal strip of the
/// gravity's area, in list order, and is resized into the screen. Returns the
/// window configurations to send, by client index.
#[verifier::rlimit(100)]
pub fn gravity_tile<F: Fn(AspectArgs) -> u16>(
    clients: &mut Vec<Client>,
    gravities: &Vec<Gravity>,
    screens: &Vec<Screen>,
    gravity_id: isize,
    screen_id: isize,
    visible_tags: u32,
    border: i16,
    margin: Spacing,
    aspect: &F,
) -> (r: Result<Vec<(usize, WindowConfig)>, TileError>)
    requires
        tile_ok(old(clients)@, gravities@, screens@, gravity_id, screen_id, visible_tags, border, margin, *aspect),
        forall|a: AspectArgs| aspect.requires((a,)),
    ensures
        gravity_of(gravities@, gravity_id) is None ==> (r matches Err(e) && e == TileError::GravityNotFound
            && final(clients)@ == old(clients)@),
        (gravity_of(gravities@, gravity_id) is Some && screen_of(screens@, screen_id) is None) ==> (r matches Err(e)
            && e == TileError::ScreenNotFound && final(clients)@ == old(clients)@),
        (gravity_of(gravities@, gravity_id) is Some && screen_of(screens@, screen_id) is Some) ==> {
            let cs = old(clients)@;
            let g = gravities@[gravity_id as int];
            let s = screens@[screen_id as int];
            let used = tiled_count(cs, gravity_id, screen_id, visible_tags, cs.len() as int);
            &&& r matches Ok(configs)
            &&& final(clients)@.len() == cs.len()
            &&& forall|j: int|
                0 <= j < cs.len() && !tiled_by(cs[j], gravity_id, screen_id, visible_tags) ==> #[trigger] final(clients)@[j] == cs[j]
            &&& forall|j: int|
                0 <= j < cs.len() && #[trigger] tiled_by(cs[j], gravity_id, screen_id, visible_tags) ==> {
                    let c0 = tile_start(cs[j], g, tiled_count(cs, gravity_id, screen_id, visible_tags, j) as int, tile_size(g, s.geom, used as int).0);
                    &&& resized(c0, s.geom, true, border, margin, *aspect, final(clients)@[j].geom)
                    &&& final(clients)@[j] == Client { geom: final(clients)@[j].geom, ..cs[j] }
                }
            &&& r->Ok_0@.len() == used
            &&& forall|k: int|
                0 <= k < used ==> {
                    let (j, cfg) = #[trigger] r->Ok_0@[k];
                    &&& j < cs.len()
                    &&& tiled_by(cs[j as int], gravity_id, screen_id, visible_tags)
                    &&& tiled_count(cs, gravity_id, screen_id, visible_tags, j as int) == k
                    &&& cfg == config_of(final(clients)@[j as int].geom, false)
                }
        },
{
    if !(gravity_id >= 0 && (gravity_id as usize) < gravities.len()) {
        return Err(TileError::GravityNotFound);
    }
    if !(screen_id >= 0 && (screen_id as usize) < screens.len()) {
        return Err(TileError::ScreenNotFound);
    }
    let gravity = &gravities[gravity_id as usize];
    let area = screens[screen_id as usize].geom;
    let ghost cs = clients@;
    // Pass 1: Count clients with this gravity
    let used = count_tiled(clients, gravity_id, screen_id, visible_tags);
    let mut configs: Vec<(usize, WindowConfig)> = Vec::new();
    if used == 0 {
        assert forall|j: int| 0 <= j < cs.len() implies !tiled_by(cs[j], gravity_id, screen_id, visible_tags) by {
            lemma_count_monotone(cs, gravity_id, screen_id, visible_tags, j + 1, cs.len() as int);
        }
        return Ok(configs);
    }
    // Calculate tiled gravity value and rounding fix
    let mut geom = Rect { x: 0, y: 0, width: 0, height: 0 };
    gravity.apply_size(&area, &mut geom);
    let total: u16 = if contains(gravity.flags, GRAVITY_HORZ) {
        geom.width
    } else if contains(gravity.flags, GRAVITY_VERT) {
        geom.height
    } else {
        0
    };
    let calc: u16 = total / used;
    assert(calc == tile_size(*gravity, area, used as int).0);
    assert((calc as int) * (used as int) <= 0xffff) by (nonlinear_arith)
        requires
            calc == total / used,
            used > 0,
            total <= 0xffff,
    {
    }
    // Pass 2: Update geometry of every client with this gravity
    let mut pos: u16 = 0;
    let mut j: usize = 0;
    while j < clients.len()
        invariant
            j <= cs.len(),
            clients@.len() == cs.len(),
            pos == tiled_count(cs, gravity_id, screen_id, visible_tags, j as int),
            used == tiled_count(cs, gravity_id, screen_id, visible_tags, cs.len() as int),
            calc == tile_size(*gravity, area, used as int).0,
            (calc as int) * (used as int) <= 0xffff,
            configs@.len() == pos,
            forall|k: int|
                0 <= k < pos ==> {
                    let (i, cfg) = #[trigger] configs@[k];
                    &&& i < j
                    &&& tiled_by(cs[i as int], gravity_id, screen_id, visible_tags)
                    &&& tiled_count(cs, gravity_id, screen_id, visible_tags, i as int) == k
                    &&& cfg == config_of(clients@[i as int].geom, false)
                },
            forall|a: AspectArgs| aspect.requires((a,)),
            forall|k: int|
                0 <= k < cs.len() && #[trigger] tiled_by(cs[k], gravity_id, screen_id, visible_tags) ==> resize_ok(
                    tile_start(cs[k], *gravity, tiled_count(cs, gravity_id, screen_id, visible_tags, k) as int, calc as int),
                    area,
                    true,
                    border,
                    margin,
                    *aspect,
                ),
            forall|k: int| j <= k < cs.len() ==> #[trigger] clients@[k] == cs[k],
            forall|k: int|
                0 <= k < j && !tiled_by(cs[k], gravity_id, screen_id, visible_tags) ==> #[trigger] clients@[k] == cs[k],
            forall|k: int|
                0 <= k < j && #[trigger] tiled_by(cs[k], gravity_id, screen_id, visible_tags) ==> {
                    &&& resized(
                        tile_start(cs[k], *gravity, tiled_count(cs, gravity_id, screen_id, visible_tags, k) as int, calc as int),
                        area,
                        true,
                        border,
                        margin,
                        *aspect,
                        clients@[k].geom,
                    )
                    &&& clients@[k] == Client { geom: clients@[k].geom, ..cs[k] }
                },
        decreases cs.len() - j,
    {
        proof {
            lemma_count_monotone(cs, gravity_id, screen_id, visible_tags, j as int + 1, cs.len() as int);
        }
        if is_tiled(&clients[j], gravity_id, screen_id, visible_tags) {
            assert(tiled_by(cs[j as int], gravity_id, screen_id, visible_tags));
            assert((pos as int) * (calc as int) <= u16::MAX) by (nonlinear_arith)
                requires
                    pos < used,
                    (calc as int) * (used as int) <= 0xffff,
            {
            }
            let ghost before_clients = clients@;
            let ghost before_configs = configs@;
            let cfg = tile_client(&mut clients[j], gravity, pos, calc, area, border, margin, aspect);
            configs.push((j, cfg));
            proof {
                assert forall|k: int| 0 <= k < pos + 1 implies {
                    let (i, c) = #[trigger] configs@[k];
                    &&& i < j + 1
                    &&& tiled_by(cs[i as int], gravity_id, screen_id, visible_tags)
                    &&& tiled_count(cs, gravity_id, screen_id, visible_tags, i as int) == k
                    &&& c == config_of(clients@[i as int].geom, false)
                } by {
                    if k < pos {
                        assert(configs@[k] == before_configs[k]);
                        assert(clients@[configs@[k].0 as int] == before_clients[configs@[k].0 as int]);
                    }
                }
            }
            pos = pos + 1;
        }
        j = j + 1;
    }
    Ok(configs)
}

} // verus!
