//! Movement in the level: the 8.8 sine and cosine tables, the wind, and the
//! accumulators through which things move.
use vstd::prelude::*;
use crate::state::GameState;
use crate::level::{random, random_value, next_seed};

verus! {

/// 256 times the sine of `q` 1/256 turns, for `q` in the first quarter
/// turn `0..=64`, rounded as the game's table has it.
#[verifier::opaque]
pub open spec fn quarter_sine(q: u8) -> int {
    match q {
        0 => 0,
        1 => 6,
        2 => 12,
        3 => 18,
        4 => 25,
        5 => 31,
        6 => 37,
        7 => 43,
        8 => 49,
        9 => 56,
        10 => 62,
        11 => 68,
        12 => 74,
        13 => 80,
        14 => 86,
        15 => 92,
        16 => 97,
        17 => 103,
        18 => 109,
        19 => 115,
        20 => 120,
        21 => 126,
        22 => 131,
        23 => 136,
        24 => 142,
        25 => 147,
        26 => 152,
        27 => 157,
        28 => 162,
        29 => 167,
        30 => 171,
        31 => 176,
        32 => 181,
        33 => 185,
        34 => 189,
        35 => 193,
        36 => 197,
        37 => 201,
        38 => 205,
        39 => 209,
        40 => 212,
        41 => 216,
        42 => 219,
        43 => 222,
        44 => 225,
        45 => 228,
        46 => 231,
        47 => 234,
        48 => 236,
        49 => 238,
        50 => 241,
        51 => 243,
        52 => 244,
        53 => 246,
        54 => 248,
        55 => 249,
        56 => 251,
        57 => 252,
        58 => 253,
        59 => 254,
        60 => 254,
        61 => 255,
        62 => 255,
        63 => 255,
        _ => 256,
    }
}

/// 256 times the sine of the angle `a` (1/256 turns), from the quarter table.
pub open spec fn sine(a: u8) -> int {
    if a < 64 {
        quarter_sine(a)
    } else if a < 128 {
        quarter_sine((128 - a) as u8)
    } else if a < 192 {
        -quarter_sine((a - 128) as u8)
    } else {
        -quarter_sine((256 - a) as u8)
    }
}

/// 256 times the cosine of the angle `a`: the sine a quarter turn on.
pub open spec fn cosine(a: u8) -> int {
    sine(((a as int + 64) % 256) as u8)
}

fn quarter_sine_lookup(q: u8) -> (r: i32)
    requires
        q <= 64,
    ensures
        r as int == quarter_sine(q),
        0 <= r <= 256,
{
    reveal(quarter_sine);
    match q {
        0 => 0,
        1 => 6,
        2 => 12,
        3 => 18,
        4 => 25,
        5 => 31,
        6 => 37,
        7 => 43,
        8 => 49,
        9 => 56,
        10 => 62,
        11 => 68,
        12 => 74,
        13 => 80,
        14 => 86,
        15 => 92,
        16 => 97,
        17 => 103,
        18 => 109,
        19 => 115,
        20 => 120,
        21 => 126,
        22 => 131,
        23 => 136,
        24 => 142,
        25 => 147,
        26 => 152,
        27 => 157,
        28 => 162,
        29 => 167,
        30 => 171,
        31 => 176,
        32 => 181,
        33 => 185,
        34 => 189,
        35 => 193,
        36 => 197,
        37 => 201,
        38 => 205,
        39 => 209,
        40 => 212,
        41 => 216,
        42 => 219,
        43 => 222,
        44 => 225,
        45 => 228,
        46 => 231,
        47 => 234,
        48 => 236,
        49 => 238,
        50 => 241,
        51 => 243,
        52 => 244,
        53 => 246,
        54 => 248,
        55 => 249,
        56 => 251,
        57 => 252,
        58 => 253,
        59 => 254,
        60 => 254,
        61 => 255,
        62 => 255,
        63 => 255,
        _ => 256,
    }
}

/// The sine table: 256 times the sine of `a`.
pub fn sine_lookup(a: u8) -> (r: i32)
    ensures
        r as int == sine(a),
        -256 <= r <= 256,
{
    if a < 64 {
        quarter_sine_lookup(a)
    } else if a < 128 {
        quarter_sine_lookup(128 - a)
    } else if a < 192 {
        -quarter_sine_lookup(a - 128)
    } else {
        -quarter_sine_lookup((256 - a as u16) as u8)
    }
}

/// The cosine table: 256 times the cosine of `a`.
pub fn cosine_lookup(a: u8) -> (r: i32)
    ensures
        r as int == cosine(a),
        -256 <= r <= 256,
{
    sine_lookup(((a as u16 + 64) % 256) as u8)
}

/// `sine(angle) * speed / 256`, rounded down.
pub fn sine_scaled(angle: u8, speed: i16) -> (r: i32)
    ensures
        r as int == sine(angle) * speed as int / 256,
        -32768 <= r <= 32768,
{
    let t = sine_lookup(angle);
    let sp = speed as i32;
    assert(-8388608 <= t * sp <= 8388608) by (nonlinear_arith)
        requires
            -256 <= t <= 256,
            -32768 <= sp <= 32767,
    ;
    let r = shift_down8(t * sp);
    assert(-32768 <= (t * sp) / 256 <= 32768) by (nonlinear_arith)
        requires
            -8388608 <= t * sp <= 8388608,
    ;
    r
}

/// `cosine(angle) * speed / 256`, rounded down.
pub fn cosine_scaled(angle: u8, speed: i16) -> (r: i32)
    ensures
        r as int == cosine(angle) * speed as int / 256,
        -32768 <= r <= 32768,
{
    sine_scaled(((angle as u16 + 64) % 256) as u8, speed)
}

/// The sine of the opposite direction is the opposite of the sine.
pub proof fn law_sine_half_turn(a: u8)
    ensures
        sine(((a as int + 128) % 256) as u8) == -sine(a),
{
}

/// `v` divided by 256, rounded down (an arithmetic shift right by 8).
pub fn shift_down8(v: i32) -> (r: i32)
    ensures
        r as int == v as int / 256,
{
    let t: u64 = (v as i64 + 0x8000_0000) as u64;
    (t / 256) as i32 - 0x80_0000
}

/// The value a 16-bit signed register holds after `v` is stored in it.
pub open spec fn wrap16(v: int) -> i16 {
    v as i16
}

/// Drifts the wind direction at random by -2..=6 and resolves the wind speed
/// into its two components.
pub fn move_worlds(s: &mut GameState)
    ensures
        *final(s) == (GameState {
            level_seed: next_seed(old(s).level_seed),
            data_9bc78: ((old(s).data_9bc78 as int + (random_value(old(s).level_seed, 9) as u8) as int - 2) % 256) as u8,
            level_worlds: wrap16(sine(final(s).data_9bc78) * old(s).data_9bc77 as int / 256),
            data_9bc72: wrap16(cosine(final(s).data_9bc78) * old(s).data_9bc77 as int / 256),
            ..*old(s)
        }),
{
    let r = random(s, 9) as u8;
    s.data_9bc78 = s.data_9bc78.wrapping_add(r).wrapping_sub(2);
    let angle = s.data_9bc78;
    let speed = s.data_9bc77 as i16;
    s.level_worlds = sine_scaled(angle, speed) as i16;
    s.data_9bc72 = cosine_scaled(angle, speed) as i16;
}

/// Adds the wind to the movement accumulators.
pub fn affect_by_wind(s: &mut GameState)
    ensures
        *final(s) == (GameState {
            data_60b28: wrap16(old(s).data_60b28 as int + old(s).level_worlds as int),
            data_60b2a: wrap16(old(s).data_60b2a as int + old(s).data_9bc72 as int),
            ..*old(s)
        }),
{
    let wx = s.level_worlds as i32;
    let wy = s.data_9bc72 as i32;
    s.data_60b28 = (s.data_60b28 as i32 + wx) as i16;
    s.data_60b2a = (s.data_60b2a as i32 + wy) as i16;
}

/// The larger of the two magnitudes, as a 16-bit value.
pub open spec fn chess_dist(dx: i16, dy: i16) -> i16 {
    let ax = if dx < 0 { -(dx as int) } else { dx as int };
    let ay = if dy < 0 { -(dy as int) } else { dy as int };
    (if ay <= ax { ax } else { ay }) as i16
}

/// The chessboard distance of a delta: the larger magnitude.
pub fn getdist(dx: i16, dy: i16) -> (r: i16)
    ensures
        r == chess_dist(dx, dy),
{
    let ax: u32 = if dx < 0 { (-(dx as i32)) as u32 } else { dx as u32 };
    let ay: u32 = if dy < 0 { (-(dy as i32)) as u32 } else { dy as u32 };
    if ay <= ax { ax as i16 } else { ay as i16 }
}

/// Moves the accumulators `speed` units in the direction `angle`.
pub fn goto_angle(s: &mut GameState, speed: i16, angle: u8)
    ensures
        *final(s) == (GameState {
            data_60b28: wrap16(old(s).data_60b28 as int + sine(angle) * speed as int / 256),
            data_60b2a: wrap16(old(s).data_60b2a as int + cosine(angle) * speed as int / 256),
            ..*old(s)
        }),
{
    let dx = sine_scaled(angle, speed);
    s.data_60b28 = (s.data_60b28 as i32 + dx) as i16;
    let dy = cosine_scaled(angle, speed);
    s.data_60b2a = (s.data_60b2a as i32 + dy) as i16;
}

/// Moves the accumulators `speed` units in the direction `xy_angle`, and the
/// height accumulator by the sine of `z_angle`.
pub fn goto_zangle(s: &mut GameState, speed: i16, xy_angle: u8, z_angle: u8)
    ensures
        *final(s) == (GameState {
            data_60b28: wrap16(old(s).data_60b28 as int + sine(xy_angle) * speed as int / 256),
            data_60b2a: wrap16(old(s).data_60b2a as int + cosine(xy_angle) * speed as int / 256),
            data_60b2c: wrap16(old(s).data_60b2c as int + sine(z_angle) * speed as int / 256),
            ..*old(s)
        }),
{
    let dx = sine_scaled(xy_angle, speed);
    s.data_60b28 = (s.data_60b28 as i32 + dx) as i16;
    let dy = cosine_scaled(xy_angle, speed);
    s.data_60b2a = (s.data_60b2a as i32 + dy) as i16;
    let dz = sine_scaled(z_angle, speed);
    s.data_60b2c = (s.data_60b2c as i32 + dz) as i16;
}

} // verus!
