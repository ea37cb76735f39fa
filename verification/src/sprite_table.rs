//! Sprite tables as the game loads them: 6-byte records, each a 32-bit
//! little-endian data offset, the width and the height.
use vstd::prelude::*;

verus! {

/// Size of a sprite record.
pub const SPRITE_RECORD_SIZE: usize = 6;

/// The unsigned 32-bit value stored little-endian at `o`.
pub open spec fn u32_at(m: Seq<u8>, o: int) -> int {
    m[o] as int + 256 * m[o + 1] as int + 65536 * m[o + 2] as int + 16777216 * m[o + 3] as int
}

/// The data offset of the record holding byte `i` after `add` was added to
/// it, modulo 2^32.
pub open spec fn moved_offset(t: Seq<u8>, add: u32, i: int) -> int {
    (u32_at(t, i - i % 6) + add as int) % 0x1_0000_0000
}

/// Byte `i` of a sprite table after each record's data offset was moved by
/// `add` and its height forced to 32; the widths stay.
pub open spec fn forced_height_byte(t: Seq<u8>, add: u32, i: int) -> u8 {
    let v = moved_offset(t, add, i);
    let k = i % 6;
    if k == 0 {
        (v % 256) as u8
    } else if k == 1 {
        ((v / 256) % 256) as u8
    } else if k == 2 {
        ((v / 65536) % 256) as u8
    } else if k == 3 {
        (v / 16777216) as u8
    } else if k == 4 {
        t[i]
    } else {
        32u8
    }
}

/// A sprite table after each record's data offset was moved by `add` and
/// its height forced to 32.
pub open spec fn forced_height_table(t: Seq<u8>, add: u32) -> Seq<u8> {
    Seq::new(t.len(), |i: int| forced_height_byte(t, add, i))
}

/// Sets up a table of sprites whose data lie at `data`: on the high
/// resolution screens each record's data offset is moved by `data + 0x14`
/// (modulo 2^32) and its height forced to 32. On the low resolution screen
/// (draw flags under 2) the table stays as it is.
pub fn ApSpriteSetup_ForceHeight(draw_flags: u8, sprites: &mut Vec<u8>, data: u32)
    requires
        old(sprites)@.len() % 6 == 0,
    ensures
        draw_flags < 2 ==> final(sprites)@ == old(sprites)@,
        draw_flags >= 2 ==> final(sprites)@ == forced_height_table(
            old(sprites)@,
            ((data as int + 0x14) % 0x1_0000_0000) as u32,
        ),
{
    if draw_flags < 2 {
        return;
    }
    let add: u32 = ((data as u64 + 0x14) % 0x1_0000_0000) as u32;
    let ghost t = sprites@;
    let len = sprites.len();
    let mut p: usize = 0;
    while p < len
        invariant
            len == t.len(),
            len % 6 == 0,
            p % 6 == 0,
            p <= len,
            sprites@.len() == len,
            forall|i: int| 0 <= i < p ==> sprites@[i] == #[trigger] forced_height_byte(t, add, i),
            forall|i: int| p <= i < len ==> sprites@[i] == t[i],
        decreases len - p,
    {
        assert(p + 6 <= len);
        let b0 = sprites[p] as u64;
        let b1 = sprites[p + 1] as u64;
        let b2 = sprites[p + 2] as u64;
        let b3 = sprites[p + 3] as u64;
        let v: u64 = (b0 + 256 * b1 + 65536 * b2 + 16777216 * b3 + add as u64) % 0x1_0000_0000;
        proof {
            assert(v as int == (u32_at(t, p as int) + add as int) % 0x1_0000_0000);
            assert forall|k: int| 0 <= k < 6 implies #[trigger] ((p as int + k) % 6) == k
                && (p as int + k) - (p as int + k) % 6 == p as int by {}
        }
        sprites.set(p, (v % 256) as u8);
        sprites.set(p + 1, ((v / 256) % 256) as u8);
        sprites.set(p + 2, ((v / 65536) % 256) as u8);
        sprites.set(p + 3, (v / 16777216) as u8);
        sprites.set(p + 5, 32);
        proof {
            assert forall|i: int| 0 <= i < p + 6 implies sprites@[i] == #[trigger] forced_height_byte(t, add, i) by {
                if i >= p {
                    assert((i - p) % 6 == i - p);
                    assert(i % 6 == i - p && i - i % 6 == p);
                    assert(moved_offset(t, add, i) == v as int);
                }
            }
        }
        p = p + 6;
    }
    assert(sprites@ =~= forced_height_table(t, add));
}

} // verus!
