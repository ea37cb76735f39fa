//! Lines of sight across the map: whether a point is inside a solid block.
use vstd::prelude::*;
use vstd::arithmetic::power2::{pow2, lemma2_to64};
use crate::level::trunc_rem;
use crate::state::GameState;
use crate::x86::{idiv32, sar, signed32, signed_pair, low32, rem_toward_zero, magnitude};

verus! {

/// Heights at and above this one are above every block.
pub const SIGHT_CEILING: i16 = 0x600;

/// The column part of the map cell index for a point at `y`: the remainder
/// of `y` by 0x6000 (with the sign of `y`), one more when negative, times 128.
pub open spec fn sight_column(y: i16) -> int {
    let r = trunc_rem(y as int, 0x6000);
    (r + (if r < 0 { 1int } else { 0int })) * 128
}

/// The row part of the map cell index for a point at `x`: its high byte.
pub open spec fn sight_row(x: i16) -> int {
    (x as u16) as int / 256
}

/// The level inside a block of a point at height `z`: `z` over 128, rounded
/// down, plus one for a negative height.
pub open spec fn sight_level(z: i16) -> int {
    if z < 0 {
        (z as int + 128) / 128
    } else {
        z as int / 128
    }
}

/// The map cell of the point `(x, y)`.
pub open spec fn sight_cell(x: i16, y: i16) -> int {
    sight_column(y) + sight_row(x)
}

/// Whether the point `(x, y, z)` is inside a solid block: a point below the
/// ceiling, in a cell that holds a block, where the block's byte at the
/// point's level has a collision kind that is not passable. Without a map or
/// a collision table nothing is solid.
pub open spec fn sight_blocked(map: Seq<u32>, blocks: Seq<u8>, h_col: Seq<u8>, passable: Seq<u8>, x: i16, y: i16, z: i16) -> bool {
    if z >= SIGHT_CEILING || map.len() == 0 {
        false
    } else {
        let cell = map[sight_cell(x, y)];
        if cell == 0 || h_col.len() == 0 {
            false
        } else {
            passable[h_col[blocks[cell + sight_level(z)] as int] as int] == 0
        }
    }
}

/// The tables the test reads hold what it reads.
pub open spec fn sight_in_memory(map: Seq<u32>, blocks: Seq<u8>, h_col: Seq<u8>, passable: Seq<u8>, x: i16, y: i16, z: i16) -> bool {
    &&& passable.len() == 256
    &&& h_col.len() == 0 || h_col.len() >= 256
    &&& z < SIGHT_CEILING && map.len() > 0 ==> {
        &&& 0 <= sight_cell(x, y) < map.len()
        &&& map[sight_cell(x, y)] != 0 ==> 0 <= map[sight_cell(x, y)] + sight_level(z) < blocks.len()
    }
}

/// The index of the map cell of the point `(x, y)`, worked out as the
/// game's code does it.
fn cell_index(x: i16, y: i16) -> (r: i64)
    ensures
        r as int == sight_cell(x, y),
{
    let ebx: u32 = if y < 0 { (y as i64 + 0x1_0000_0000) as u32 } else { y as u32 };
    assert(signed32(ebx) == y as int);
    let edx = sar(ebx, 31);
    proof {
        lemma2_to64();
        assert(signed32(ebx) / 0x80000000int == if y < 0 { -1int } else { 0int });
    }
    assert(edx == if y < 0 { 0xffff_ffffu32 } else { 0u32 });
    assert(signed_pair(edx, ebx) == y as int);
    let (_q, rem) = idiv32(edx, ebx, 0x6000);
    let ghost rv = rem_toward_zero(y as int, 0x6000);
    assert(rv == trunc_rem(y as int, 0x6000));
    assert(magnitude(rv) < 0x6000) by {
        assert(magnitude(y as int) % 0x6000 < 0x6000);
    }
    let col_raw: i64 = if rem < 0x8000_0000 { rem as i64 } else { rem as i64 - 0x1_0000_0000 };
    assert(col_raw as int == rv);
    let col: i64 = (col_raw + (if col_raw < 0 { 1 } else { 0 })) * 128;
    let row: i64 = ((x as u16) / 256) as i64;
    col + row
}

/// Whether the point `(x, y, z)` blocks a line of sight: 1 when it is
/// inside a solid block, 0 otherwise. The map's cells `map` hold the offset
/// of their block in `blocks` (0 for none); `h_col` gives each block byte
/// its collision kind and `passable` says which kinds let sight through.
pub fn sight_colide(
    x: i16,
    y: i16,
    z: i16,
    map: &Vec<u32>,
    blocks: &Vec<u8>,
    h_col: &Vec<u8>,
    passable: &Vec<u8>,
) -> (r: u32)
    requires
        sight_in_memory(map@, blocks@, h_col@, passable@, x, y, z),
    ensures
        r == if sight_blocked(map@, blocks@, h_col@, passable@, x, y, z) { 1u32 } else { 0u32 },
{
    if z >= SIGHT_CEILING {
        return 0;
    }
    if map.len() == 0 {
        return 0;
    }
    let idx = cell_index(x, y);
    assert(0 <= idx < map@.len());
    let cell = map[idx as usize];
    assert(cell == map@[sight_cell(x, y)]);
    if cell == 0 {
        return 0;
    }
    let level: i64 = if z < 0 { (z as i64 + 128 + 0x10000) / 128 - 512 } else { z as i64 / 128 };
    assert(level as int == sight_level(z));
    let at: i64 = cell as i64 + level;
    let blen = blocks.len();
    assert(0 <= at < blen);
    let ati: usize = at as usize;
    assert(ati as int == at as int);
    let byte = blocks[ati];
    assert(byte == blocks@[cell + sight_level(z)]);
    if h_col.len() == 0 {
        return 0;
    }
    let kind = h_col[byte as usize];
    if passable[kind as usize] == 0 {
        1
    } else {
        0
    }
}

} // verus!
