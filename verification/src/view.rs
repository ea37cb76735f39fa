//! The map view: scrolling, the grid of screen tiles to redraw, the screen
//! areas to restore, and mouse clicks on the map.
use vstd::prelude::*;
use crate::state::{GameState, DIRTY_ROWS, DIRTY_COLS};

verus! {

/// `v` divided by 32, rounded down.
pub fn floor_div32(v: i32) -> (r: i32)
    ensures
        r as int == v as int / 32,
{
    ((v as i64 + 0x8000_0000) / 32 - 0x400_0000) as i32
}

/// `v` divided by 16, rounded down.
pub fn floor_div16(v: i32) -> (r: i32)
    ensures
        r as int == v as int / 16,
{
    ((v as i64 + 0x8000_0000) / 16 - 0x800_0000) as i32
}

/// Every tile of the redraw grid is marked changed, and a full redraw is due.
pub open spec fn all_changed(fs: GameState, s: GameState) -> bool {
    &&& fs == (GameState { data_5db2c: fs.data_5db2c, data_60b4f: 1, ..s })
    &&& fs.data_5db2c@.len() == DIRTY_ROWS * DIRTY_COLS
    &&& forall|i: int| 0 <= i < DIRTY_ROWS * DIRTY_COLS ==> #[trigger] fs.data_5db2c@[i] == 1
}

/// Marks every tile changed and asks for a full redraw.
pub fn set_all_changes(s: &mut GameState)
    requires
        old(s).wf(),
    ensures
        final(s).wf(),
        all_changed(*final(s), *old(s)),
{
    s.data_5db2c = vec![1u8; DIRTY_ROWS * DIRTY_COLS];
    s.data_60b4f = 1;
}

/// Marks the tiles under the screen rectangle from `(x1, y1)` to `(x2, y2)`
/// as changed (3); the rectangle is clipped to the grid, and nothing happens
/// when it lies outside.
pub fn set_block_changes(s: &mut GameState, x1: i16, y1: i16, x2: i16, y2: i16)
    requires
        old(s).wf(),
    ensures
        final(s).wf(),
        *final(s) == (GameState { data_5db2c: final(s).data_5db2c, ..*old(s) }),
        ({
            let c0 = (x1 as int - 0x80) / 32;
            let c1 = (x2 as int - 0x80) / 32;
            let r0 = y1 as int / 16;
            let r1 = y2 as int / 16;
            let inside = !(r1 < 0 || r0 >= DIRTY_ROWS || c0 >= DIRTY_COLS || c1 < 0);
            forall|i: int|
                0 <= i < DIRTY_ROWS * DIRTY_COLS ==> #[trigger] final(s).data_5db2c@[i] == if inside && c0 <= i % 16
                    <= c1 && r0 <= i / 16 <= r1 {
                    3u8
                } else {
                    old(s).data_5db2c@[i]
                }
        }),
{
    let c0 = floor_div32(x1 as i32 - 0x80);
    let c1 = floor_div32(x2 as i32 - 0x80);
    let r0 = floor_div16(y1 as i32);
    let r1 = floor_div16(y2 as i32);
    if r1 < 0 || r0 >= DIRTY_ROWS as i32 || c0 >= DIRTY_COLS as i32 || c1 < 0 {
        return;
    }
    let rs: usize = if r0 > 0 { r0 as usize } else { 0 };
    let re: usize = if r1 < 0x18 { r1 as usize } else { 0x18 };
    let cs: usize = if c0 > 0 { c0 as usize } else { 0 };
    let ce: usize = if c1 < 0xf { c1 as usize } else { 0xf };
    if cs > ce || rs > re {
        return;
    }
    let mut col: usize = cs;
    while col <= ce
        invariant
            cs <= col <= ce + 1,
            ce <= 15,
            re <= 24,
            rs <= re,
            s.wf(),
            *s == (GameState { data_5db2c: s.data_5db2c, ..*old(s) }),
            forall|i: int|
                0 <= i < DIRTY_ROWS * DIRTY_COLS ==> #[trigger] s.data_5db2c@[i] == if cs <= i % 16 < col && rs <= i / 16
                    <= re {
                    3u8
                } else {
                    old(s).data_5db2c@[i]
                },
        decreases ce + 1 - col,
    {
        let mut row: usize = rs;
        while row <= re
            invariant
                cs <= col <= ce,
                ce <= 15,
                re <= 24,
                rs <= re,
                rs <= row <= re + 1,
                s.wf(),
                *s == (GameState { data_5db2c: s.data_5db2c, ..*old(s) }),
                forall|i: int|
                    0 <= i < DIRTY_ROWS * DIRTY_COLS ==> #[trigger] s.data_5db2c@[i] == if (cs <= i % 16 < col && rs <= i
                        / 16 <= re) || (i % 16 == col && rs <= i / 16 < row) {
                        3u8
                    } else {
                        old(s).data_5db2c@[i]
                    },
            decreases re + 1 - row,
        {
            s.data_5db2c.set(row * 16 + col, 3);
            row = row + 1;
        }
        col = col + 1;
    }
}

/// The view after one scroll step in direction `dir`, and whether it moved:
/// 1 and 9 move both coordinates together, 2, 4 and 8 against each other, 6
/// and 10 both down; each step stays within the level's boundaries.
pub open spec fn scrolled(s: GameState, dir: u32) -> (i16, i16, bool) {
    let vx = s.player_view_map_x as int;
    let vy = s.player_view_map_y as int;
    let hx = s.level_hi_boundaryx as int;
    let hy = s.level_hi_boundaryy as int;
    let lx = s.level_lo_boundaryx as int;
    let ly = s.level_lo_boundaryy as int;
    if dir == 1 && vx < hx && vy < hy {
        ((vx + 1) as i16, (vy + 1) as i16, true)
    } else if dir == 2 && vx < hx && vy > ly {
        ((vx + 1) as i16, (vy - 1) as i16, true)
    } else if (dir == 4 || dir == 8) && vx > lx && vy < hy {
        ((vx - 1) as i16, (vy + 1) as i16, true)
    } else if (dir == 6 || dir == 9 || dir == 10) && vx > lx && vy > ly {
        ((vx - 1) as i16, (vy - 1) as i16, true)
    } else {
        (s.player_view_map_x, s.player_view_map_y, false)
    }
}

/// Scrolls the view one step in direction `dir`; a step that moves the view
/// asks for a full redraw.
pub fn scroll(s: &mut GameState, dir: u32)
    requires
        old(s).wf(),
    ensures
        final(s).wf(),
        ({
            let (x, y, moved) = scrolled(*old(s), dir);
            let mid = GameState { player_view_map_x: x, player_view_map_y: y, data_5532c: 0x10, ..*old(s) };
            if moved {
                all_changed(*final(s), mid)
            } else {
                *final(s) == *old(s)
            }
        }),
{
    let vx = s.player_view_map_x as i32;
    let vy = s.player_view_map_y as i32;
    let hx = s.level_hi_boundaryx as i32;
    let hy = s.level_hi_boundaryy as i32;
    let lx = s.level_lo_boundaryx as i32;
    let ly = s.level_lo_boundaryy as i32;
    let (nx, ny): (i32, i32) = if dir == 1 && vx < hx && vy < hy {
        (vx + 1, vy + 1)
    } else if dir == 2 && vx < hx && vy > ly {
        (vx + 1, vy - 1)
    } else if (dir == 4 || dir == 8) && vx > lx && vy < hy {
        (vx - 1, vy + 1)
    } else if (dir == 6 || dir == 9 || dir == 10) && vx > lx && vy > ly {
        (vx - 1, vy - 1)
    } else {
        return;
    };
    s.player_view_map_x = nx as i16;
    s.player_view_map_y = ny as i16;
    s.data_5532c = 0x10;
    set_all_changes(s);
}

/// The mouse position at which the view scrolls: the right and bottom edges.
pub const EDGE_RIGHT: u32 = 0x27e;
pub const EDGE_BOTTOM: u32 = 0x18e;

/// The scroll direction once the x position is not 0.
pub open spec fn direction_with_x(eax: u32, edx: u32) -> u32 {
    if eax == 0 {
        if edx == EDGE_RIGHT { 6 } else { 4 }
    } else if edx == EDGE_RIGHT {
        if eax == EDGE_BOTTOM { 10 } else { 2 }
    } else if eax == EDGE_BOTTOM {
        8
    } else {
        0
    }
}

/// The scroll direction from the mouse position `(dx, dz)` and the cursor
/// keys: up and left put the position at 0, down and right at the bottom and
/// right edges.
pub open spec fn scroll_direction(keys: Seq<u8>, dx: i16, dz: i16) -> u32 {
    let e0 = if keys[0x48] != 0 { 0u32 } else { dz as u32 };
    let d0 = if keys[0x4b] != 0 { 0u32 } else { dx as u32 };
    let e1 = if keys[0x50] != 0 { EDGE_BOTTOM } else { e0 };
    if keys[0x4d] != 0 {
        direction_with_x(e1, EDGE_RIGHT)
    } else if d0 != 0 {
        direction_with_x(e1, d0)
    } else if e1 == 0 {
        5
    } else if e1 == EDGE_BOTTOM {
        9
    } else {
        1
    }
}

/// The scroll direction once the x position is not 0; 0 for none.
pub fn scroll_dir_nonzero_x(eax: u32, edx: u32) -> (dir: u32)
    ensures
        dir == direction_with_x(eax, edx),
{
    if eax == 0 {
        if edx == EDGE_RIGHT { 6 } else { 4 }
    } else if edx == EDGE_RIGHT {
        if eax == EDGE_BOTTOM { 10 } else { 2 }
    } else if eax == EDGE_BOTTOM {
        8
    } else {
        0
    }
}

/// Scrolls the map from the mouse position and the cursor keys.
pub fn scroll_map(s: &mut GameState, key_on: &[u8], dx: i16, dz: i16)
    requires
        old(s).wf(),
        key_on@.len() == 256,
    ensures
        final(s).wf(),
        ({
            let (x, y, moved) = scrolled(*old(s), scroll_direction(key_on@, dx, dz));
            let mid = GameState { player_view_map_x: x, player_view_map_y: y, data_5532c: 0x10, ..*old(s) };
            if moved {
                all_changed(*final(s), mid)
            } else {
                *final(s) == *old(s)
            }
        }),
{
    let mut edx: u32 = dx as u32;
    let mut eax: u32 = dz as u32;
    if key_on[0x48] != 0 {
        eax = 0;
    }
    if key_on[0x4b] != 0 {
        edx = 0;
    }
    if key_on[0x50] != 0 {
        eax = EDGE_BOTTOM;
    }
    let dir: u32 = if key_on[0x4d] != 0 {
        scroll_dir_nonzero_x(eax, EDGE_RIGHT)
    } else if edx != 0 {
        scroll_dir_nonzero_x(eax, edx)
    } else if eax == 0 {
        5
    } else if eax == EDGE_BOTTOM {
        9
    } else {
        1
    };
    scroll(s, dir);
}

/// A screen area to restore from the background.
pub enum CopyRequest {
    /// A box of tiles: x, y, width, height.
    ScreenBox(i32, i32, i32, i32),
    /// One tile: column and row.
    Cube(i32, i32),
}

/// The changed tiles among the first `n` of the grid, in row order.
pub open spec fn dirty_cubes(grid: Seq<u8>, n: int) -> Seq<CopyRequest>
    decreases n,
{
    if n <= 0 {
        Seq::empty()
    } else {
        dirty_cubes(grid, n - 1) + if grid[n - 1] != 0 {
            seq![CopyRequest::Cube(((n - 1) % 16) as i32, ((n - 1) / 16) as i32)]
        } else {
            Seq::empty()
        }
    }
}

/// The boxes of a full redraw, the view split at the destination `(x, y)`.
pub open spec fn full_redraw_boxes(x: i32, y: i32) -> Seq<CopyRequest> {
    let h = 0x19 - y;
    let w = 0x10 - x;
    let first = seq![CopyRequest::ScreenBox(x, y, w as i32, h as i32)];
    if x != 0 {
        if y != 0 {
            first + seq![
                CopyRequest::ScreenBox(0, y, x, h as i32),
                CopyRequest::ScreenBox(0, 0, x, y),
                CopyRequest::ScreenBox(x, 0, w as i32, y),
            ]
        } else {
            first + seq![CopyRequest::ScreenBox(0, y, x, h as i32)]
        }
    } else if y != 0 {
        first + seq![CopyRequest::ScreenBox(0, 0, 0x10, y)]
    } else {
        first
    }
}

/// The screen areas to restore from the background: after a full redraw
/// request, the whole view in up to four boxes split at the scroll
/// destination; otherwise each changed tile.
pub fn copy_back(s: &GameState) -> (r: Vec<CopyRequest>)
    requires
        s.wf(),
        s.data_60b4f != 0 ==> -0x7fff_0000 <= s.destination_x <= 0x10 && -0x7fff_0000 <= s.destination_y <= 0x19,
    ensures
        s.data_60b4f != 0 ==> r@ == full_redraw_boxes(s.destination_x, s.destination_y),
        s.data_60b4f == 0 ==> r@ == dirty_cubes(s.data_5db2c@, DIRTY_ROWS * DIRTY_COLS),
{
    let mut r: Vec<CopyRequest> = Vec::new();
    if s.data_60b4f != 0 {
        let y = s.destination_y;
        let x = s.destination_x;
        let h = 0x19 - y;
        let w = 0x10 - x;
        r.push(CopyRequest::ScreenBox(x, y, w, h));
        if x != 0 {
            r.push(CopyRequest::ScreenBox(0, y, x, h));
            if y != 0 {
                r.push(CopyRequest::ScreenBox(0, 0, x, y));
                r.push(CopyRequest::ScreenBox(x, 0, w, y));
            }
        } else if y != 0 {
            r.push(CopyRequest::ScreenBox(0, 0, 0x10, y));
        }
        assert(r@ =~= full_redraw_boxes(x, y));
        return r;
    }
    let mut i: usize = 0;
    while i < DIRTY_ROWS * DIRTY_COLS
        invariant
            i <= DIRTY_ROWS * DIRTY_COLS,
            s.wf(),
            r@ == dirty_cubes(s.data_5db2c@, i as int),
        decreases DIRTY_ROWS * DIRTY_COLS - i,
    {
        if s.data_5db2c[i] != 0 {
            r.push(CopyRequest::Cube((i % 16) as i32, (i / 16) as i32));
        }
        i = i + 1;
        assert(r@ =~= dirty_cubes(s.data_5db2c@, i as int));
    }
    r
}

/// The sub-tile coordinates a click mode adjusts: (y, x).
pub open spec fn click_sub_coords(mode: u16, sx: u32, sy: u32) -> (u32, u32) {
    let tx = ((sx as int - 0x20 + 0x1_0000_0000) % 0x1_0000_0000) as u32;
    if mode == 2 || mode == 4 {
        (((sy as int + 0x20) % 0x1_0000_0000) as u32, tx)
    } else if mode == 5 {
        (((sy as int + 0x10) % 0x1_0000_0000) as u32, tx)
    } else if mode <= 3 {
        (sy, tx)
    } else {
        (sy, sx)
    }
}

pub fn click_map_sub_coords(mode: u16, tile_sub_x: u32, tile_sub_y: u32) -> (r: (u32, u32))
    ensures
        r == click_sub_coords(mode, tile_sub_x, tile_sub_y),
{
    let ty_hi: u32 = ((tile_sub_y as u64 + 0x10) % 0x1_0000_0000) as u32;
    let ty_hi2: u32 = ((tile_sub_y as u64 + 0x20) % 0x1_0000_0000) as u32;
    let tx_lo: u32 = ((tile_sub_x as u64 + 0x1_0000_0000 - 0x20) % 0x1_0000_0000) as u32;
    if mode == 2 || mode == 4 {
        (ty_hi2, tx_lo)
    } else if mode == 5 {
        (ty_hi, tx_lo)
    } else if mode <= 3 {
        (tile_sub_y, tx_lo)
    } else {
        (tile_sub_y, tile_sub_x)
    }
}

/// A click on the map. The map cell under the mouse is looked up from the
/// cell offset in `data_60aac` (which the map search leaves at 0): the click's
/// tile x becomes 0x80; for a click mode up to 5 and a map whose first cell
/// holds a block, the cursor is reset and the click position takes the mode's
/// sub-tile coordinates.
pub fn click_map(s: &mut GameState)
    ensures
        ({
            let sx = (((old(s).mmouse_x_640 as i32 - 0x80) as i32) & 0x1f) as u32;
            let sy = ((old(s).mmouse_y_400 as i32) & 0x0f) as u32;
            let (ay, ax) = click_sub_coords(old(s).data_60b18, sx, sy);
            let mid = GameState { data_60aac: 0, data_60b1c: 0x80, ..*old(s) };
            if old(s).data_60b18 > 5 || old(s).map_cells@.len() == 0 || old(s).map_cells@[0] == 0 {
                *final(s) == mid
            } else {
                *final(s) == (GameState { data_60b0e: 0, data_60b1e: ay as u16, data_60b20: ax as u16, ..mid })
            }
        }),
{
    let tile_sub_x = ((s.mmouse_x_640 as i32 - 0x80) & 0x1f) as u32;
    let tile_sub_y = (s.mmouse_y_400 as i32 & 0x0f) as u32;
    s.data_60aac = 0;
    s.data_60b1c = 0x80;
    let mode = s.data_60b18;
    if mode > 5 {
        return;
    }
    let (adj_y, adj_x) = click_map_sub_coords(mode, tile_sub_x, tile_sub_y);
    if s.map_cells.len() == 0 {
        return;
    }
    if s.map_cells[0] == 0 {
        return;
    }
    s.data_60b0e = 0;
    s.data_60b1e = adj_y as u16;
    s.data_60b20 = adj_x as u16;
}

/// The map's collision at a point: the map search is not carried out, and no
/// point collides.
pub fn check_point1(a: i16, b: i16, c: i16) -> (r: i16)
    ensures
        r == 0,
{
    0
}

/// The altitude under a point, from the three heights checked below `arg3`
/// (none of which collides): the third height's top bit.
pub open spec fn altitude_point(arg3: i16) -> i16 {
    let ebx = arg3 as int + 0x7f - 0x100;
    if (ebx as i16) < 0 {
        ((((ebx + 1) % 256 + 256) % 256) as u8 & 0x80) as i16
    } else {
        (ebx as i16) & 0x80i16
    }
}

pub fn get_altitude_point1(x: i16, z: i16, arg3: i16) -> (r: i16)
    ensures
        r == altitude_point(arg3),
{
    let mut ebx: i32 = arg3 as i32 + 0x7f;
    let r1 = check_point1(ebx as i16, z, x);
    if r1 != 0 {
        return r1;
    }
    ebx = ebx - 0x80;
    let r2 = check_point1(ebx as i16, z, x);
    if r2 != 0 {
        return r2;
    }
    ebx = ebx - 0x80;
    if (ebx as i16) < 0 {
        let b: u8 = (((ebx as i64 + 1) % 256 + 256) % 256) as u8;
        return (b & 0x80) as i16;
    }
    let r3 = check_point1(ebx as i16, z, x);
    if r3 != 0 {
        return r3;
    }
    (ebx as i16) & 0x80i16
}

} // verus!
