//! Drawing the map's things: the map-who cells are scanned from the view,
//! and the animated things found in them are listed for drawing, at their
//! place on the screen.
use vstd::prelude::*;
use crate::mem::{u16_at, i16_at, read_u8, read_u16, read_i16};
use crate::state::GameState;
use crate::view::floor_div16;

verus! {

/// A thing to draw, at a screen position.
#[derive(PartialEq, Eq, Structural, Clone, Copy, Debug)]
pub struct MapDraw {
    pub thing: usize,
    pub x: i32,
    pub y: i32,
}

/// The map-who cells that are drawn: those away from the table's edges.
pub const MAPWHO_FIRST_DRAWN: i16 = 0x300;
pub const MAPWHO_END_DRAWN: i16 = 0x3d00;
/// The kind of thing drawn with its animation.
pub const T_ANIMATED: u8 = 5;
/// The end of the scan.
pub const SCAN_END: i16 = -1;

/// Where the scan starts for the view at `(vx, vy)`: the view's cell, at
/// half resolution, in a table two entries per cell and 128 cells a row.
pub open spec fn scan_origin(vx: i16, vy: i16) -> int {
    ((vy as int / 2) * 128 + vx as int / 2) * 2
}

/// A scanned map-who cell is drawn.
pub open spec fn cell_drawn(e: int) -> bool {
    MAPWHO_FIRST_DRAWN <= e < MAPWHO_END_DRAWN
}

/// The things linked from `x` (an offset in the level memory; each thing
/// names the next in its first word, 0 ending the chain) end within `n`
/// steps, through things lying in the memory.
pub open spec fn things_end(m: Seq<u8>, x: int, n: nat) -> bool
    decreases n,
{
    x == 0 || (0 <= x && x + 0x1a <= m.len() && n > 0 && things_end(m, u16_at(m, x) as int, (n - 1) as nat))
}

/// The thing at `x` is drawn: it is not hidden and it is animated.
pub open spec fn thing_drawn(m: Seq<u8>, x: int) -> bool {
    m[x + 0x0a] & 1 == 0 && m[x + 0x18] == T_ANIMATED
}

/// Where the thing at `x` is drawn for the view at `(vx, vy)`: its offset
/// from the view's corner, projected to the screen.
pub open spec fn thing_draw(m: Seq<u8>, x: int, vx: i16, vy: i16) -> MapDraw {
    let dx = i16_at(m, x + 4) - vx * 128;
    let dz = i16_at(m, x + 6) - vy * 128;
    MapDraw { thing: x as usize, x: ((dx + dz) / 16 + 0x80) as i32, y: ((dx - dz) / 8 + 0x10) as i32 }
}

/// The things drawn among those linked from `x`, within `n` steps.
pub open spec fn chain_draws(m: Seq<u8>, x: int, n: nat, vx: i16, vy: i16) -> Seq<MapDraw>
    decreases n,
{
    if x == 0 || n == 0 {
        Seq::empty()
    } else {
        let rest = chain_draws(m, u16_at(m, x) as int, (n - 1) as nat, vx, vy);
        if thing_drawn(m, x) {
            seq![thing_draw(m, x, vx, vy)] + rest
        } else {
            rest
        }
    }
}

/// The things drawn of a map-who cell whose first thing is at `first`.
pub open spec fn cell_draws(m: Seq<u8>, first: int, vx: i16, vy: i16) -> Seq<MapDraw> {
    chain_draws(m, first, choose|n: nat| things_end(m, first, n), vx, vy)
}

/// The scan from `o` ends with its `n`-th entry.
pub open spec fn scan_ends_at(scan: Seq<i16>, o: int, n: int) -> bool {
    &&& 0 <= o
    &&& 0 <= n
    &&& o + n < scan.len()
    &&& scan[o + n] == SCAN_END
    &&& forall|j: int| 0 <= j < n ==> #[trigger] scan[o + j] != SCAN_END
}

/// The number of entries of the scan from `o`.
pub open spec fn scan_length(scan: Seq<i16>, o: int) -> int {
    choose|n: int| scan_ends_at(scan, o, n)
}

/// The things drawn for the first `j` entries of the scan from `o`.
pub open spec fn scan_draws(m: Seq<u8>, mapwho: Seq<i16>, scan: Seq<i16>, o: int, j: int, vx: i16, vy: i16) -> Seq<MapDraw>
    decreases j,
{
    if j <= 0 {
        Seq::empty()
    } else {
        let before = scan_draws(m, mapwho, scan, o, j - 1, vx, vy);
        let e = scan[o + j - 1] as int;
        if cell_drawn(e) {
            before + cell_draws(m, mapwho[e] as int, vx, vy)
        } else {
            before
        }
    }
}

/// The scan from the view ends, and each cell it draws holds a chain of
/// things that ends in the level memory.
pub open spec fn map_scan_ok(s: GameState, mapwho: Seq<i16>, scan: Seq<i16>) -> bool {
    let o = scan_origin(s.player_view_map_x, s.player_view_map_y);
    mapwho.len() > 0 && scan.len() > 0 ==> {
        &&& exists|n: int| scan_ends_at(scan, o, n)
        &&& forall|j: int|
            0 <= j < scan_length(scan, o) && cell_drawn(#[trigger] scan[o + j] as int) ==> {
                &&& (scan[o + j] as int) < mapwho.len()
                &&& mapwho[scan[o + j] as int] >= 0
                &&& exists|k: nat| #[trigger] things_end(s.things@, mapwho[scan[o + j] as int] as int, k)
            }
    }
}

/// `v` divided by 8, rounded down.
fn floor_div8(v: i32) -> (r: i32)
    ensures
        r as int == v as int / 8,
{
    ((v as i64 + 0x8000_0000) / 8 - 0x1000_0000) as i32
}

/// Adds to `out` the things drawn among those linked from `first`.
fn collect_chain(m: &Vec<u8>, first: usize, vx: i16, vy: i16, out: &mut Vec<MapDraw>)
    requires
        exists|k: nat| things_end(m@, first as int, k),
    ensures
        final(out)@ == old(out)@ + cell_draws(m@, first as int, vx, vy),
{
    let ghost n = choose|k: nat| things_end(m@, first as int, k);
    let ghost start = out@;
    let len = m.len();
    let mut cur = first;
    let ghost mut k = n;
    while cur != 0
        invariant
            len == m@.len(),
            things_end(m@, cur as int, k),
            out@ + chain_draws(m@, cur as int, k, vx, vy) == start + chain_draws(m@, first as int, n, vx, vy),
            cell_draws(m@, first as int, vx, vy) == chain_draws(m@, first as int, n, vx, vy),
        decreases k,
    {
        let next = read_u16(m, cur) as usize;
        let ghost before = out@;
        if (read_u8(m, cur + 0x0a) & 1) == 0 && read_u8(m, cur + 0x18) == T_ANIMATED {
            let dx = read_i16(m, cur + 4) as i32 - vx as i32 * 128;
            let dz = read_i16(m, cur + 6) as i32 - vy as i32 * 128;
            let sx = floor_div16(dx + dz) + 0x80;
            let sy = floor_div8(dx - dz) + 0x10;
            out.push(MapDraw { thing: cur, x: sx, y: sy });
            proof {
                let d = thing_draw(m@, cur as int, vx, vy);
                assert(out@ == before + seq![d]);
                let rest = chain_draws(m@, next as int, (k - 1) as nat, vx, vy);
                assert(before + seq![d] + rest =~= before + (seq![d] + rest));
            }
        }
        cur = next;
        proof {
            k = (k - 1) as nat;
        }
    }
    assert(out@ =~= out@ + chain_draws(m@, cur as int, k, vx, vy));
}

/// Draws the map's things: the drawing counters are reset, and the cells
/// of the map-who table `mapwho` named by the scan `scan` from the view are
/// walked; the animated things that are not hidden are listed, in the order
/// met, with their place on the screen. Without a map-who table or a scan,
/// nothing is listed.
pub fn draw_mapwho(s: &mut GameState, mapwho: &Vec<i16>, scan: &Vec<i16>) -> (draws: Vec<MapDraw>)
    requires
        map_scan_ok(*old(s), mapwho@, scan@),
    ensures
        *final(s) == (GameState {
            data_60b10: 0,
            data_60b0a: 0,
            data_60b1a: 0,
            data_60b12: 0,
            data_60b14: 0,
            ..*old(s)
        }),
        mapwho@.len() == 0 || scan@.len() == 0 ==> draws@ == Seq::<MapDraw>::empty(),
        mapwho@.len() > 0 && scan@.len() > 0 ==> {
            let o = scan_origin(old(s).player_view_map_x, old(s).player_view_map_y);
            draws@ == scan_draws(
                old(s).things@,
                mapwho@,
                scan@,
                o,
                scan_length(scan@, o),
                old(s).player_view_map_x,
                old(s).player_view_map_y,
            )
        },
{
    s.data_60b10 = 0;
    s.data_60b0a = 0;
    s.data_60b1a = 0;
    s.data_60b12 = 0;
    s.data_60b14 = 0;
    let mut out: Vec<MapDraw> = Vec::new();
    if mapwho.len() == 0 || scan.len() == 0 {
        return out;
    }
    let vx = s.player_view_map_x;
    let vy = s.player_view_map_y;
    let mx = (vx as i32 + 0x10000) / 2 - 0x8000;
    let my = (vy as i32 + 0x10000) / 2 - 0x8000;
    let o64: i64 = ((my as i64) * 128 + mx as i64) * 2;
    let ghost o = scan_origin(vx, vy);
    assert(o64 == o);
    let ghost n = scan_length(scan@, o);
    assert(scan_ends_at(scan@, o, n));
    let o: usize = o64 as usize;
    let slen = scan.len();
    let mlen = mapwho.len();
    let mut j: usize = 0;
    loop
        invariant_except_break
            j <= n,
            out@ == scan_draws(s.things@, mapwho@, scan@, o as int, j as int, vx, vy),
        invariant
            slen == scan@.len(),
            mlen == mapwho@.len(),
            scan_ends_at(scan@, o as int, n),
            n == scan_length(scan@, o as int),
            o as int == scan_origin(vx, vy),
            vx == s.player_view_map_x,
            vy == s.player_view_map_y,
            map_scan_ok(*s, mapwho@, scan@),
            mlen > 0 && slen > 0,
        ensures
            out@ == scan_draws(s.things@, mapwho@, scan@, o as int, n, vx, vy),
        decreases n - j,
    {
        let e = scan[o + j];
        if e == SCAN_END {
            assert(j == n);
            break;
        }
        let ghost before = out@;
        if MAPWHO_FIRST_DRAWN <= e && e < MAPWHO_END_DRAWN {
            assert(j < n);
            assert(cell_drawn(scan@[o + j] as int));
            let first = mapwho[e as usize];
            collect_chain(&s.things, first as usize, vx, vy, &mut out);
        }
        j = j + 1;
    }
    out
}

} // verus!
