//! Fixed-point angles: the arctangent lookup and the 8.8 sine/cosine tables.
//! A full turn is 256 units: 0 points south (+Y), 64 east (+X), 128 north
//! (-Y) and 192 west (-X).
use vstd::prelude::*;

verus! {

/// The arctangent table: `atan_table(i)` is `atan(i / 256)` in 1/256 turns,
/// rounded as the game's data has it (a step function from 0 to 32).
pub open spec fn atan_table(i: int) -> int {
    if i >= 258 {
        32
    } else if i >= 244 {
        31
    } else if i >= 233 {
        30
    } else if i >= 221 {
        29
    } else if i >= 211 {
        28
    } else if i >= 200 {
        27
    } else if i >= 191 {
        26
    } else if i >= 182 {
        25
    } else if i >= 172 {
        24
    } else if i >= 163 {
        23
    } else if i >= 154 {
        22
    } else if i >= 146 {
        21
    } else if i >= 135 {
        20
    } else if i >= 131 {
        19
    } else if i >= 123 {
        18
    } else if i >= 114 {
        17
    } else if i >= 107 {
        16
    } else if i >= 99 {
        15
    } else if i >= 92 {
        14
    } else if i >= 85 {
        13
    } else if i >= 78 {
        12
    } else if i >= 71 {
        11
    } else if i >= 65 {
        10
    } else if i >= 58 {
        9
    } else if i >= 51 {
        8
    } else if i >= 45 {
        7
    } else if i >= 38 {
        6
    } else if i >= 32 {
        5
    } else if i >= 26 {
        4
    } else if i >= 19 {
        3
    } else if i >= 13 {
        2
    } else if i >= 7 {
        1
    } else {
        0
    }
}

/// Looks up `atan_table(i)`.
pub fn atan_lookup(i: u8) -> (r: u16)
    ensures
        r == atan_table(i as int),
        r <= 32,
{
    let i: u16 = i as u16;
    if i >= 258 {
        32
    } else if i >= 244 {
        31
    } else if i >= 233 {
        30
    } else if i >= 221 {
        29
    } else if i >= 211 {
        28
    } else if i >= 200 {
        27
    } else if i >= 191 {
        26
    } else if i >= 182 {
        25
    } else if i >= 172 {
        24
    } else if i >= 163 {
        23
    } else if i >= 154 {
        22
    } else if i >= 146 {
        21
    } else if i >= 135 {
        20
    } else if i >= 131 {
        19
    } else if i >= 123 {
        18
    } else if i >= 114 {
        17
    } else if i >= 107 {
        16
    } else if i >= 99 {
        15
    } else if i >= 92 {
        14
    } else if i >= 85 {
        13
    } else if i >= 78 {
        12
    } else if i >= 71 {
        11
    } else if i >= 65 {
        10
    } else if i >= 58 {
        9
    } else if i >= 51 {
        8
    } else if i >= 45 {
        7
    } else if i >= 38 {
        6
    } else if i >= 32 {
        5
    } else if i >= 26 {
        4
    } else if i >= 19 {
        3
    } else if i >= 13 {
        2
    } else if i >= 7 {
        1
    } else {
        0
    }
}

/// Two's-complement negation of a 16-bit value (`i16::MIN` maps to itself).
pub open spec fn neg16(x: i16) -> i16 {
    if x == i16::MIN {
        x
    } else {
        (-x) as i16
    }
}

pub fn wrapping_neg16(x: i16) -> (r: i16)
    ensures
        r == neg16(x),
{
    if x == i16::MIN {
        x
    } else {
        -x
    }
}

/// Index into the arctangent table for the ratio `small / large`: the
/// quotient `small * 256 / large` kept to its low 8 bits (0 when `large` is 0).
pub open spec fn ratio_index(small: u16, large: u16) -> int {
    if large == 0 {
        0
    } else {
        ((small as int * 256) / (large as int)) % 256
    }
}

pub fn arctan_ratio(small: u16, large: u16) -> (r: u8)
    ensures
        r as int == ratio_index(small, large),
{
    if large == 0 {
        return 0;
    }
    let q: u32 = (small as u32 * 256) / large as u32;
    (q % 256) as u8
}

/// The table angle for the ratio of `small` over `large`.
pub open spec fn atan_of(small: i16, large: i16) -> int {
    atan_table(ratio_index(small as u16, large as u16))
}

/// The angle of the direction `(dx, dy)`: the octant is found from the signs
/// and from which magnitude is larger, and the angle within the octant comes
/// from the arctangent table. `(0, 0)` has angle 0.
pub open spec fn arctan_spec(dx: i16, dy: i16) -> int {
    let nb = neg16(dy);
    if dx == 0 && dy == 0 {
        0
    } else if dx >= 0 {
        if nb >= 0 {
            if dx >= nb {
                64 + atan_of(nb, dx)
            } else {
                128 - atan_of(dx, nb)
            }
        } else {
            let b = neg16(nb);
            if dx >= b {
                64 - atan_of(b, dx)
            } else {
                atan_of(dx, b)
            }
        }
    } else {
        let a = neg16(dx);
        if nb >= 0 {
            if a >= nb {
                192 - atan_of(nb, a)
            } else {
                128 + atan_of(a, nb)
            }
        } else {
            let b = neg16(nb);
            if a >= b {
                192 + atan_of(b, a)
            } else {
                (256 - atan_of(a, b)) % 256
            }
        }
    }
}

/// The angle of the direction `(dx, dy)`, in 1/256 turns.
pub fn arctan(dx: i16, dy: i16) -> (r: u16)
    ensures
        r as int == arctan_spec(dx, dy),
        r < 256,
{
    if dx == 0 && dy == 0 {
        return 0;
    }
    let nb = wrapping_neg16(dy);
    if dx >= 0 {
        if nb >= 0 {
            if dx >= nb {
                64 + atan_lookup(arctan_ratio(nb as u16, dx as u16))
            } else {
                128 - atan_lookup(arctan_ratio(dx as u16, nb as u16))
            }
        } else {
            let b = wrapping_neg16(nb);
            if dx >= b {
                64 - atan_lookup(arctan_ratio(b as u16, dx as u16))
            } else {
                atan_lookup(arctan_ratio(dx as u16, b as u16))
            }
        }
    } else {
        let a = wrapping_neg16(dx);
        if nb >= 0 {
            if a >= nb {
                192 - atan_lookup(arctan_ratio(nb as u16, a as u16))
            } else {
                128 + atan_lookup(arctan_ratio(a as u16, nb as u16))
            }
        } else {
            let b = wrapping_neg16(nb);
            if a >= b {
                192 + atan_lookup(arctan_ratio(b as u16, a as u16))
            } else {
                (256 - atan_lookup(arctan_ratio(a as u16, b as u16))) % 256
            }
        }
    }
}

/// The heading byte from `(x, y)` to a point `(dx, dy)` away: the arctangent
/// of the two deltas, each taken as a 16-bit value.
pub fn get_angle(dx: i32, dy: i32) -> (r: u8)
    ensures
        r as int == arctan_spec(dx as i16, dy as i16),
{
    arctan(dx as i16, dy as i16) as u8
}

} // verus!
