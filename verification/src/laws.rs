//! Properties of the library that span its functions.
use vstd::prelude::*;
use crate::angles::{arctan_spec, atan_table, ratio_index, atan_of, neg16};
use crate::level::{mission_over, mission_ended};
use crate::state::{GameState, MISSION_FAILED, MISSION_COMPLETE, PLAYER_SLOTS};
use crate::util::{lower_byte, cbuf_after_copy};
use crate::x86::{quot_toward_zero, rem_toward_zero, magnitude};
use crate::dos::native_flags;
use crate::players::{slots_set_up, START_CREDITS, CHEAT_START_CREDITS};
use crate::sprite_table::{forced_height_table, u32_at};
use crate::vehicles::{seated, on_board, into_vehicle, boarding_start, boarding_refused, vehicle_out_of_reach, before_seat};
use crate::persons::{left_vehicle, after_new_state, record_in, P_TARGET, P_FLAGS_B, P_TYPE, P_STATE, P_DESIRED, P_CMD_SAVED};
use crate::vehicles::V_COMMAND;
use crate::persons::{P_VEHICLE, P_NEXT_PASSENGER, V_FIRST_PASSENGER, PERSON_RECORD};
use crate::chains::{chain_finite, chain_last};
use crate::weapons::{weapon_carried, picked_up, taken_for_carrying, on_weapon, W_NEXT, W_PREV, W_OWNER, P_WEAPONS};
use crate::persons::{animation_ends, P_ANIM_DONE, P_FRAME, P_FLAGS_A};
use crate::mem::{u16_at, put_u8, put_u16};
use crate::view::scrolled;
use crate::level::{speed_after_keys, rdist};
use crate::keyboard::{KEY_CODES, K_ACTN_KEYDOWN};
use crate::keybuf::{buffer_after_events, keys_taken};

verus! {

/// The four axis directions are the four quarter turns: +Y is 0, +X is 64,
/// -Y is 128 and -X is 192.
pub proof fn law_arctan_axes(k: i16)
    requires
        k > 0,
    ensures
        arctan_spec(0, k) == 0,
        arctan_spec(k, 0) == 64,
        arctan_spec(0, (-k) as i16) == 128,
        arctan_spec((-k) as i16, 0) == 192,
{
    assert(ratio_index(0, k as u16) == 0);
    assert(atan_table(0) == 0);
}

/// The table angle within an octant is at most an eighth of a turn.
proof fn lemma_atan_of_bounds(s: i16, l: i16)
    ensures
        0 <= atan_of(s, l) <= 32,
{
    let i = ratio_index(s as u16, l as u16);
    assert(0 <= i < 256);
}

/// The magnitude of `v`.
pub open spec fn magnitude16(v: i16) -> int {
    if v < 0 { -(v as int) } else { v as int }
}

/// Each of the eight octants of directions gets the angles of its eighth of
/// a turn (in 1/256 turns, +Y is 0, +X is 64, -Y is 128, -X is 192): a
/// direction leaning toward an axis gets an angle on that axis's side of the
/// octant. For components other than the lowest 16-bit value.
pub proof fn law_arctan_octants(dx: i16, dy: i16)
    requires
        dx != i16::MIN,
        dy != i16::MIN,
    ensures
        ({
            let t = arctan_spec(dx, dy);
            let ax = magnitude16(dx);
            let ay = magnitude16(dy);
            &&& 0 <= t < 256
            &&& dx > 0 && dy > 0 && ax < ay ==> 0 <= t <= 32
            &&& dx > 0 && dy > 0 && ax >= ay ==> 32 <= t <= 64
            &&& dx > 0 && dy < 0 && ax >= ay ==> 64 <= t <= 96
            &&& dx > 0 && dy < 0 && ax < ay ==> 96 <= t <= 128
            &&& dx < 0 && dy < 0 && ax < ay ==> 128 <= t <= 160
            &&& dx < 0 && dy < 0 && ax >= ay ==> 160 <= t <= 192
            &&& dx < 0 && dy > 0 && ax >= ay ==> 192 <= t <= 224
            &&& dx < 0 && dy > 0 && ax < ay ==> t == 0 || 224 <= t < 256
        }),
{
    let a = neg16(dx);
    let nb = neg16(dy);
    let b = neg16(nb);
    lemma_atan_of_bounds(nb, dx);
    lemma_atan_of_bounds(dx, nb);
    lemma_atan_of_bounds(b, dx);
    lemma_atan_of_bounds(dx, b);
    lemma_atan_of_bounds(nb, a);
    lemma_atan_of_bounds(a, nb);
    lemma_atan_of_bounds(b, a);
    lemma_atan_of_bounds(a, b);
}

/// Mirroring a direction across the east-west axis mirrors its angle: the
/// angle of `(dx, -dy)` is a half turn less the angle of `(dx, dy)`, modulo a
/// turn. For directions on no axis, with components other than the lowest
/// 16-bit value.
pub proof fn law_arctan_mirror_north_south(dx: i16, dy: i16)
    requires
        dx != 0,
        dy != 0,
        dx != i16::MIN,
        dy != i16::MIN,
    ensures
        arctan_spec(dx, (-dy) as i16) == (128 - arctan_spec(dx, dy)) % 256,
{
    let a = neg16(dx);
    let nb = neg16(dy);
    let b = neg16(nb);
    lemma_atan_of_bounds(nb, dx);
    lemma_atan_of_bounds(dx, nb);
    lemma_atan_of_bounds(b, dx);
    lemma_atan_of_bounds(dx, b);
    lemma_atan_of_bounds(nb, a);
    lemma_atan_of_bounds(a, nb);
    lemma_atan_of_bounds(b, a);
    lemma_atan_of_bounds(a, b);
}

/// Mirroring a direction across the north-south axis turns its angle the
/// other way: the angle of `(-dx, dy)` is the angle of `(dx, dy)` taken from
/// a full turn, modulo a turn. For directions on no axis, with components
/// other than the lowest 16-bit value.
pub proof fn law_arctan_mirror_east_west(dx: i16, dy: i16)
    requires
        dx != 0,
        dy != 0,
        dx != i16::MIN,
        dy != i16::MIN,
    ensures
        arctan_spec((-dx) as i16, dy) == (256 - arctan_spec(dx, dy)) % 256,
{
    let a = neg16(dx);
    let nb = neg16(dy);
    let b = neg16(nb);
    lemma_atan_of_bounds(nb, dx);
    lemma_atan_of_bounds(dx, nb);
    lemma_atan_of_bounds(b, dx);
    lemma_atan_of_bounds(dx, b);
    lemma_atan_of_bounds(nb, a);
    lemma_atan_of_bounds(a, nb);
    lemma_atan_of_bounds(b, a);
    lemma_atan_of_bounds(a, b);
}

/// Scaling both amounts by `k` keeps each on its side of 0 and keeps how
/// they compare.
proof fn lemma_scaled_order(a: int, b: int, k: int)
    requires
        k >= 1,
    ensures
        (k * a >= k * b) == (a >= b),
        (k * a >= 0) == (a >= 0),
        (k * a == 0) == (a == 0),
        k * (-a) == -(k * a),
{
    assert((k * a >= k * b) == (a >= b)) by (nonlinear_arith)
        requires
            k >= 1,
    ;
    assert((k * a >= 0) == (a >= 0)) by (nonlinear_arith)
        requires
            k >= 1,
    ;
    assert((k * a == 0) == (a == 0)) by (nonlinear_arith)
        requires
            k >= 1,
    ;
    assert(k * (-a) == -(k * a)) by (nonlinear_arith);
}

/// The table angle for `k * small` over `k * large` is the one for `small`
/// over `large`.
proof fn lemma_atan_of_scaled(s: i16, l: i16, s2: i16, l2: i16, k: int)
    requires
        k >= 1,
        s >= 0,
        l >= 0,
        s2 as int == k * s,
        l2 as int == k * l,
    ensures
        atan_of(s2, l2) == atan_of(s, l),
{
    lemma_scaled_order(l as int, 0, k);
    if l != 0 {
        assert(k * (s * 256) == (k * s) * 256) by (nonlinear_arith);
        vstd::arithmetic::div_mod::lemma_div_multiples_vanish_quotient(k, s * 256, l as int);
    }
}

/// Only the direction counts for the arctangent: scaling both components by
/// the same positive factor `k` leaves the angle as it is (for components and
/// scaled components that are 16-bit values other than the lowest).
pub proof fn law_arctan_scaling(dx: i16, dy: i16, k: int)
    requires
        k >= 1,
        i16::MIN < dx,
        i16::MIN < dy,
        i16::MIN < k * dx <= i16::MAX,
        i16::MIN < k * dy <= i16::MAX,
    ensures
        arctan_spec((k * dx) as i16, (k * dy) as i16) == arctan_spec(dx, dy),
{
    let x2 = (k * dx) as i16;
    let y2 = (k * dy) as i16;
    assert(x2 as int == k * dx);
    assert(y2 as int == k * dy);
    let a = dx as int;
    let b = -(dy as int);
    lemma_scaled_order(a, 0, k);
    lemma_scaled_order(dy as int, 0, k);
    lemma_scaled_order(a, b, k);
    lemma_scaled_order(a, -b, k);
    lemma_scaled_order(-a, b, k);
    lemma_scaled_order(-a, -b, k);
    lemma_scaled_order(dy as int, -a, k);
    lemma_scaled_order(b, 0, k);
    lemma_scaled_order(-a, 0, k);
    let nb = neg16(dy);
    let nb2 = neg16(y2);
    assert(nb as int == b);
    assert(nb2 as int == k * b);
    if dx == 0 && dy == 0 {
    } else if dx >= 0 {
        if nb >= 0 {
            if dx >= nb {
                lemma_atan_of_scaled(nb, dx, nb2, x2, k);
            } else {
                lemma_atan_of_scaled(dx, nb, x2, nb2, k);
            }
        } else {
            let c = neg16(nb);
            let c2 = neg16(nb2);
            assert(c as int == -b);
            assert(c2 as int == k * (-b));
            if dx >= c {
                lemma_atan_of_scaled(c, dx, c2, x2, k);
            } else {
                lemma_atan_of_scaled(dx, c, x2, c2, k);
            }
        }
    } else {
        let d = neg16(dx);
        let d2 = neg16(x2);
        assert(d as int == -a);
        assert(d2 as int == k * (-a));
        if nb >= 0 {
            if d >= nb {
                lemma_atan_of_scaled(nb, d, nb2, d2, k);
            } else {
                lemma_atan_of_scaled(d, nb, d2, nb2, k);
            }
        } else {
            let c = neg16(nb);
            let c2 = neg16(nb2);
            assert(c as int == -b);
            assert(c2 as int == k * (-b));
            if d >= c {
                lemma_atan_of_scaled(c, d, c2, d2, k);
            } else {
                lemma_atan_of_scaled(d, c, d2, c2, k);
            }
        }
    }
}

/// The codes of the keys that go down among `events`, in order.
pub open spec fn keys_pressed(events: Seq<(u32, u8)>) -> Seq<u32>
    decreases events.len(),
{
    if events.len() == 0 {
        Seq::empty()
    } else if events.last().0 == K_ACTN_KEYDOWN {
        keys_pressed(events.drop_last()).push(events.last().1 as u32)
    } else {
        keys_pressed(events.drop_last())
    }
}

proof fn lemma_pressed_grows(events: Seq<(u32, u8)>)
    requires
        events.len() > 0,
    ensures
        keys_pressed(events.drop_last()).len() <= keys_pressed(events).len(),
{
}

/// Taking keys one after another gives the waiting keys oldest first, then 0
/// for each take past them.
proof fn lemma_keys_taken(q: Seq<u32>, n: nat)
    requires
        q.len() <= n,
    ensures
        keys_taken(q, n) == q + Seq::new((n - q.len()) as nat, |i: int| 0u32),
    decreases n,
{
    if n > 0 {
        if q.len() == 0 {
            lemma_keys_taken(q, (n - 1) as nat);
        } else {
            lemma_keys_taken(q.drop_first(), (n - 1) as nat);
        }
        assert(keys_taken(q, n) =~= q + Seq::new((n - q.len()) as nat, |i: int| 0u32));
    } else {
        assert(q + Seq::new(0nat, |i: int| 0u32) =~= q);
    }
}

/// The key buffer is first in, first out: starting empty, with keys not
/// prefixed, after the handler sees `events` the keys that went down wait in
/// the order they were pressed (keys going up add nothing), as long as no
/// more than 15 went down; taking keys then gives them in that order, and 0
/// once none is left.
pub proof fn law_key_buffer_fifo(events: Seq<(u32, u8)>, extra: nat)
    requires
        keys_pressed(events).len() <= 15,
    ensures
        buffer_after_events(Seq::empty(), events, false) == keys_pressed(events),
        keys_taken(keys_pressed(events), keys_pressed(events).len() + extra)
            == keys_pressed(events) + Seq::new(extra, |i: int| 0u32),
    decreases events.len(),
{
    if events.len() > 0 {
        lemma_pressed_grows(events);
        law_key_buffer_fifo(events.drop_last(), extra);
    }
    lemma_keys_taken(keys_pressed(events), keys_pressed(events).len() + extra);
    assert(((keys_pressed(events).len() + extra) - keys_pressed(events).len()) as nat == extra);
}

/// A mission ends once: after it fails or completes it is over, so that
/// neither `level_failed` nor `level_complete` changes anything afterwards.
pub proof fn law_mission_ends_once(s: GameState, fs: GameState, flag: u8, sample: int)
    requires
        flag == MISSION_FAILED || flag == MISSION_COMPLETE,
        mission_ended(s, fs, flag, sample),
    ensures
        mission_over(fs.byte_60afc),
{
    let afc = s.byte_60afc;
    assert(fs.byte_60afc == afc | flag);
    assert((afc | 4u8) & (2u8 | 4u8) != 0) by (bit_vector);
    assert((afc | 2u8) & (2u8 | 4u8) != 0) by (bit_vector);
}

/// Lower-casing is idempotent: `strtolower` run twice gives what it gives
/// once.
pub proof fn law_lower_idempotent(b: u8)
    ensures
        lower_byte(lower_byte(b)) == lower_byte(b),
{
}

/// Division rounded toward zero, as `idiv32` does it before cutting to 32
/// bits: the quotient times the divisor plus the remainder gives back the
/// dividend, and the remainder is smaller than the divisor, with the
/// dividend's sign.
pub proof fn law_truncated_division(a: int, d: int)
    requires
        d != 0,
    ensures
        quot_toward_zero(a, d) * d + rem_toward_zero(a, d) == a,
        magnitude(rem_toward_zero(a, d)) < magnitude(d),
        rem_toward_zero(a, d) != 0 ==> (rem_toward_zero(a, d) < 0) == (a < 0),
{
    let ma = magnitude(a);
    let md = magnitude(d);
    let q = ma / md;
    let r = ma % md;
    assert(q * md + r == ma && 0 <= r < md) by (nonlinear_arith)
        requires
            md > 0,
            ma >= 0,
            q == ma / md,
            r == ma % md,
    ;
    if a < 0 && d < 0 {
        assert(q * d == -(q * md)) by (nonlinear_arith)
            requires
                md == -d,
        ;
    } else if a < 0 {
        assert((-q) * d == -(q * md)) by (nonlinear_arith)
            requires
                md == d,
        ;
    } else if d < 0 {
        assert((-q) * d == q * md) by (nonlinear_arith)
            requires
                md == -d,
        ;
    }
}

/// The host flags keep the access mode of the DOS flags (an unknown mode
/// reads only), and the other flags never reach the access bits.
pub proof fn law_native_access_mode(flags: i32)
    ensures
        native_flags(flags) & 3 == (if flags & 3 == 1 {
            1i32
        } else if flags & 3 == 2 {
            2i32
        } else {
            0i32
        }),
{
    let access = flags & 3;
    let a: i32 = if access == 1 { 1 } else if access == 2 { 2 } else { 0 };
    let x: i32 = if flags & 16 != 0 { 1024i32 } else { 0i32 };
    let y: i32 = if flags & 32 != 0 { 64i32 } else { 0i32 };
    let z: i32 = if flags & 64 != 0 { 512i32 } else { 0i32 };
    let w: i32 = if flags & 1024 != 0 { 128i32 } else { 0i32 };
    assert(((((a | x) | y) | z) | w) & 3 == a & 3) by (bit_vector)
        requires
            x == 0 || x == 1024,
            y == 0 || y == 64,
            z == 0 || z == 512,
            w == 0 || w == 128,
    ;
    assert(a & 3 == a) by (bit_vector)
        requires
            0 <= a <= 2,
    ;
}

/// A string copied into a buffer of at least one byte is always
/// NUL-terminated inside it: the buffer keeps its size and holds a 0 right
/// after the copied part.
pub proof fn law_copy_terminated(buf: Seq<u8>, src: Seq<u8>)
    requires
        buf.len() >= 1,
    ensures
        cbuf_after_copy(buf, src).len() == buf.len(),
        ({
            let n = if src.len() < buf.len() - 1 { src.len() as int } else { buf.len() - 1 };
            &&& cbuf_after_copy(buf, src)[n] == 0
            &&& cbuf_after_copy(buf, src).subrange(0, n) == src.subrange(0, n)
        }),
{
    let n = if src.len() < buf.len() - 1 { src.len() as int } else { buf.len() - 1 };
    assert(cbuf_after_copy(buf, src).subrange(0, n) =~= src.subrange(0, n));
}

/// After the default set-up, slot 0 is the only human player and all slots
/// start with the same credits.
pub proof fn law_default_players(o: GameState, s: GameState, seed: u16)
    requires
        slots_set_up(o, s, seed, PLAYER_SLOTS as int),
    ensures
        forall|k: int| 0 <= k < PLAYER_SLOTS ==> (#[trigger] s.data_5e4aa@[k] == 1) == (k == 0),
        forall|k: int| 0 <= k < PLAYER_SLOTS ==> #[trigger] s.players@[k] == s.players@[0],
        o.cheat_credits == 0 ==> s.players@[0] == START_CREDITS,
        o.cheat_credits != 0 ==> s.players@[0] == CHEAT_START_CREDITS,
{
}

/// Setting up a sprite table for the high resolution screens forces each
/// record's height to 32, keeps its width, and moves its data offset by the
/// amount given, modulo 2^32.
pub proof fn law_forced_height(t: Seq<u8>, add: u32, r: int)
    requires
        t.len() % 6 == 0,
        0 <= r,
        6 * r + 6 <= t.len(),
    ensures
        forced_height_table(t, add)[6 * r + 5] == 32,
        forced_height_table(t, add)[6 * r + 4] == t[6 * r + 4],
        u32_at(forced_height_table(t, add), 6 * r) == (u32_at(t, 6 * r) + add as int) % 0x1_0000_0000,
{
    let f = forced_height_table(t, add);
    assert forall|k: int| 0 <= k < 6 implies #[trigger] ((6 * r + k) % 6) == k && (6 * r + k) - (6 * r + k) % 6 == 6 * r by {}
    assert((6 * r + 5) % 6 == 5);
    assert((6 * r + 4) % 6 == 4);
    assert((6 * r) % 6 == 0);
    assert((6 * r + 1) % 6 == 1);
    assert((6 * r + 2) % 6 == 2);
    assert((6 * r + 3) % 6 == 3);
    let v = (u32_at(t, 6 * r) + add as int) % 0x1_0000_0000;
    assert(0 <= v < 0x1_0000_0000);
    assert(f[6 * r] as int == v % 256);
    assert(f[6 * r + 1] as int == (v / 256) % 256);
    assert(f[6 * r + 2] as int == (v / 65536) % 256);
    assert(f[6 * r + 3] as int == v / 16777216);
    assert(v % 256 + 256 * ((v / 256) % 256) + 65536 * ((v / 65536) % 256) + 16777216 * (v / 16777216) == v) by (nonlinear_arith)
        requires
            0 <= v < 0x1_0000_0000,
    ;
}

/// A person boarding a vehicle that already carries passengers joins the
/// end of the passenger chain: the former last passenger links to it, it
/// sits behind that passenger, and nobody comes after it (for records that
/// do not overlap).
pub proof fn law_boarding_joins_chain_end(m2: Seq<u8>, e: int, v: int)
    requires
        0 <= e,
        e + PERSON_RECORD <= m2.len(),
        0 <= e < 65536,
        u16_at(m2, v + V_FIRST_PASSENGER) != 0,
        chain_finite(m2, u16_at(m2, v + V_FIRST_PASSENGER) as int, P_NEXT_PASSENGER as int),
        ({
            let last = chain_last(m2, u16_at(m2, v + V_FIRST_PASSENGER) as int, P_NEXT_PASSENGER as int);
            &&& 0 <= last < 65536
            &&& (last + PERSON_RECORD <= e || e + PERSON_RECORD <= last)
            &&& last + PERSON_RECORD <= m2.len()
        }),
    ensures
        ({
            let last = chain_last(m2, u16_at(m2, v + V_FIRST_PASSENGER) as int, P_NEXT_PASSENGER as int);
            let f = seated(m2, e, v);
            &&& u16_at(f, last + P_NEXT_PASSENGER) == e
            &&& u16_at(f, e + P_VEHICLE) == last
            &&& u16_at(f, e + P_NEXT_PASSENGER) == 0
        }),
{
    reveal(seated);
}

/// A weapon a person takes joins the end of the person's weapons: when the
/// person carries weapons already, the last of them links on to the new one
/// and the new one links back to it, the new one keeping its own onward link
/// (none, once taken); a person without weapons gets it as its first, linked
/// back to the person. Either way the person owns it (for records that do
/// not overlap).
pub proof fn law_taken_weapon_joins_the_weapons(m: Seq<u8>, e: int, w: int)
    requires
        0 <= e < 65536,
        0 <= w < 65536,
        e + PERSON_RECORD <= m.len(),
        w + PERSON_RECORD <= m.len(),
        e + PERSON_RECORD <= w || w + PERSON_RECORD <= e,
        u16_at(m, e + P_WEAPONS) != 0 ==> chain_finite(m, u16_at(m, e + P_WEAPONS) as int, W_NEXT as int),
        u16_at(m, e + P_WEAPONS) != 0 ==> {
            let last = chain_last(m, u16_at(m, e + P_WEAPONS) as int, W_NEXT as int);
            &&& 0 <= last < 65536
            &&& last + PERSON_RECORD <= m.len()
            &&& (last + PERSON_RECORD <= e || e + PERSON_RECORD <= last)
            &&& (last + PERSON_RECORD <= w || w + PERSON_RECORD <= last)
        },
    ensures
        ({
            let head = u16_at(m, e + P_WEAPONS);
            let f = weapon_carried(m, e, w);
            &&& head != 0 ==> {
                let last = chain_last(m, head as int, W_NEXT as int);
                &&& u16_at(f, last + W_NEXT) == w
                &&& u16_at(f, w + W_PREV) == last
                &&& u16_at(f, w + W_NEXT) == u16_at(m, w + W_NEXT)
                &&& u16_at(f, e + P_WEAPONS) == head
            }
            &&& head == 0 ==> u16_at(f, e + P_WEAPONS) == w && u16_at(f, w + W_PREV) == e
            &&& u16_at(f, w + W_OWNER) == e
        }),
{
}

/// A finished pick-up puts the weapon in the person's weapons: the person
/// owns it and it is marked carried; it ends the weapons, and it is either
/// the person's first weapon (for a person that had none) or the weapon that
/// was last links on to it (for records that do not overlap).
pub proof fn law_pickup_adds_the_weapon(m: Seq<u8>, frames: Seq<u8>, e: int)
    requires
        0 <= e < 65536,
        e + PERSON_RECORD <= m.len(),
        ({
            let w = u16_at(m, e + P_TARGET) as int;
            let m1 = put_u8(m, e + P_ANIM_DONE, 0);
            let m4 = taken_for_carrying(m, frames, e);
            &&& w + PERSON_RECORD <= m.len()
            &&& e + PERSON_RECORD <= w || w + PERSON_RECORD <= e
            &&& on_weapon(m1, e, w)
            &&& m1[w + P_FLAGS_A] & 1 == 0
            &&& animation_ends(frames, u16_at(m1, e + P_FRAME)) != 0
            &&& u16_at(m4, e + P_WEAPONS) != 0 ==> chain_finite(m4, u16_at(m4, e + P_WEAPONS) as int, W_NEXT as int)
            &&& u16_at(m4, e + P_WEAPONS) != 0 ==> {
                let last = chain_last(m4, u16_at(m4, e + P_WEAPONS) as int, W_NEXT as int);
                &&& 0 <= last < 65536
                &&& last + PERSON_RECORD <= m.len()
                &&& (last + PERSON_RECORD <= e || e + PERSON_RECORD <= last)
                &&& (last + PERSON_RECORD <= w || w + PERSON_RECORD <= last)
            }
        }),
    ensures
        ({
            let w = u16_at(m, e + P_TARGET) as int;
            let f = picked_up(m, frames, e);
            &&& u16_at(f, w + W_OWNER) == e
            &&& f[w + P_FLAGS_A] & 1 == 1
            &&& u16_at(f, w + W_NEXT) == 0
            &&& u16_at(m, e + P_WEAPONS) == 0 ==> u16_at(f, e + P_WEAPONS) == w
            &&& u16_at(m, e + P_WEAPONS) != 0 ==> exists|x: int|
                x != w && #[trigger] u16_at(f, x + W_NEXT) == w && u16_at(f, w + W_PREV) == x
        }),
{
    let w = u16_at(m, e + P_TARGET) as int;
    let m4 = taken_for_carrying(m, frames, e);
    let m5 = weapon_carried(m4, e, w);
    assert(u16_at(m4, e + P_WEAPONS) == u16_at(m, e + P_WEAPONS));
    assert(u16_at(m4, w + W_NEXT) == 0);
    law_taken_weapon_joins_the_weapons(m4, e, w);
    let fa: u8 = m5[w + P_FLAGS_A];
    let fb: u8 = m4[w + P_FLAGS_A];
    assert(fa == fb | 1);
    assert(fa & 1 == 1) by (bit_vector)
        requires
            fa == fb | 1,
    ;
    if u16_at(m, e + P_WEAPONS) != 0 {
        let last = chain_last(m4, u16_at(m4, e + P_WEAPONS) as int, W_NEXT as int);
        assert(u16_at(picked_up(m, frames, e), last + W_NEXT) == w);
    }
}

/// Scrolling keeps the view within the level's boundaries: a view inside
/// them stays inside after any step.
pub proof fn law_scroll_within_bounds(s: GameState, dir: u32)
    requires
        s.level_lo_boundaryx <= s.player_view_map_x <= s.level_hi_boundaryx,
        s.level_lo_boundaryy <= s.player_view_map_y <= s.level_hi_boundaryy,
    ensures
        ({
            let (x, y, moved) = scrolled(s, dir);
            &&& s.level_lo_boundaryx <= x <= s.level_hi_boundaryx
            &&& s.level_lo_boundaryy <= y <= s.level_hi_boundaryy
        }),
{
}

/// A scroll step moves the view by one along each axis, in the direction's
/// sense: direction 1 raises both coordinates, 2 raises x and lowers y, 4
/// and 8 lower x and raise y, 6, 9 and 10 lower both; no other direction
/// moves the view. A step moves exactly when the view has room that way
/// within the level's boundaries.
pub proof fn law_scroll_step(s: GameState, dir: u32)
    ensures
        ({
            let (x, y, moved) = scrolled(s, dir);
            let vx = s.player_view_map_x as int;
            let vy = s.player_view_map_y as int;
            let up_x = vx < s.level_hi_boundaryx;
            let up_y = vy < s.level_hi_boundaryy;
            let down_x = vx > s.level_lo_boundaryx;
            let down_y = vy > s.level_lo_boundaryy;
            &&& !moved ==> x == vx && y == vy
            &&& dir == 1 ==> moved == (up_x && up_y) && (moved ==> x == vx + 1 && y == vy + 1)
            &&& dir == 2 ==> moved == (up_x && down_y) && (moved ==> x == vx + 1 && y == vy - 1)
            &&& (dir == 4 || dir == 8) ==> moved == (down_x && up_y) && (moved ==> x == vx - 1 && y == vy + 1)
            &&& (dir == 6 || dir == 9 || dir == 10) ==> moved == (down_x && down_y) && (moved ==> x == vx - 1 && y
                == vy - 1)
            &&& !(dir == 1 || dir == 2 || dir == 4 || dir == 6 || dir == 8 || dir == 9 || dir == 10) ==> !moved
        }),
{
}

/// Opposite scroll steps undo each other: from a view strictly inside the
/// boundaries, a step in direction 1 and then one in direction 6 (or 9 or
/// 10) gives the view back, and so does a step in direction 2 and then one in
/// direction 4 (or 8); each of the two steps moves the view.
pub proof fn law_scroll_opposites_undo(s: GameState, there: u32, back: u32)
    requires
        s.level_lo_boundaryx < s.player_view_map_x < s.level_hi_boundaryx,
        s.level_lo_boundaryy < s.player_view_map_y < s.level_hi_boundaryy,
        (there == 1 && (back == 6 || back == 9 || back == 10)) || (there == 2 && (back == 4 || back == 8)),
    ensures
        ({
            let (x1, y1, m1) = scrolled(s, there);
            let (x2, y2, m2) = scrolled(GameState { player_view_map_x: x1, player_view_map_y: y1, ..s }, back);
            &&& m1 && m2
            &&& x2 == s.player_view_map_x && y2 == s.player_view_map_y
        }),
{
}

/// The proximity distance adds up the distances along the two axes, and the
/// distance along an axis is the size of the step: a non-negative step is its
/// own distance, and turning a step around keeps its distance. So it is 0
/// only when both steps are 0.
pub proof fn law_proximity_distance(dx: i16, dz: i16)
    ensures
        rdist(dx, dz) == rdist(dx, 0) + rdist(0, dz),
        dx >= 0 ==> rdist(dx, 0) == dx,
        dz >= 0 ==> rdist(0, dz) == dz,
        dx != i16::MIN ==> rdist((-dx) as i16, dz) == rdist(dx, dz),
        dz != i16::MIN ==> rdist(dx, (-dz) as i16) == rdist(dx, dz),
        rdist(dx, dz) >= 0,
        (rdist(dx, dz) == 0) == (dx == 0 && dz == 0),
{
}

/// The speed keys: F3 (key code 0x3d) slows the game down by one step and
/// F4 (0x3e) speeds it up by one, each only while the speed is not at its
/// end (0 and 12); with both down, a speed inside the range comes back to
/// itself, and with neither down it stays.
pub proof fn law_speed_keys(keys: Seq<u8>, speed: u32)
    requires
        keys.len() == KEY_CODES,
    ensures
        keys[0x3e] != 0 && keys[0x3d] == 0 && speed < 12 ==> speed_after_keys(keys, speed) == speed + 1,
        keys[0x3e] != 0 && keys[0x3d] == 0 && speed >= 12 ==> speed_after_keys(keys, speed) == speed,
        keys[0x3d] != 0 && keys[0x3e] == 0 && speed > 0 ==> speed_after_keys(keys, speed) == speed - 1,
        keys[0x3d] != 0 && keys[0x3e] == 0 && speed == 0 ==> speed_after_keys(keys, speed) == 0,
        keys[0x3d] != 0 && keys[0x3e] != 0 && 0 < speed <= 12 ==> speed_after_keys(keys, speed) == speed,
        keys[0x3d] == 0 && keys[0x3e] == 0 ==> speed_after_keys(keys, speed) == speed,
{
}

/// The game speed that the speed keys set stays between 0 and 12: a speed
/// in that range stays there, whatever keys are down.
pub proof fn law_game_speed_in_range(keys: Seq<u8>, speed: u32)
    requires
        keys.len() == KEY_CODES,
        speed <= 12,
    ensures
        speed_after_keys(keys, speed) <= 12,
{
}

proof fn lemma_new_state_keeps(m: Seq<u8>, e: int, p: int)
    requires
        record_in(m, e),
        0 <= p < m.len(),
        p != e + P_DESIRED,
        p != e + P_STATE,
    ensures
        after_new_state(m, e)[p] == m[p],
        after_new_state(m, e).len() == m.len(),
{
}

/// The bytes at `p` and `p + 1` are the same in `a` and `b`.
spec fn same_word(a: Seq<u8>, b: Seq<u8>, p: int) -> bool {
    a[p] == b[p] && a[p + 1] == b[p + 1]
}

/// Leaving a vehicle undoes boarding it: a person that boards an empty
/// vehicle (of the kind that carries passengers) and then leaves it is in
/// no vehicle, and the vehicle has no passenger again (for records that do
/// not overlap).
#[verifier::spinoff_prover]
#[verifier::rlimit(40)]
pub proof fn law_leaving_undoes_boarding(m: Seq<u8>, e: int)
    requires
        record_in(m, e),
        e < 65536,
        ({
            let m1 = boarding_start(m, e);
            let v = u16_at(m1, e + P_TARGET) as int;
            &&& record_in(m, v)
            &&& v != 0
            &&& (v + PERSON_RECORD <= e || e + PERSON_RECORD <= v)
            &&& !boarding_refused(m1, e)
            &&& !vehicle_out_of_reach(m1, e, v)
            &&& m1[v + P_FLAGS_B] & 1 == 0
            &&& m1[v + P_TYPE] == 2
            &&& u16_at(m1, v + V_FIRST_PASSENGER) == 0
        }),
    ensures
        ({
            let m1 = boarding_start(m, e);
            let v = u16_at(m1, e + P_TARGET) as int;
            let boarded = into_vehicle(m, e).0;
            let left = after_new_state(left_vehicle(boarded, e), e);
            &&& u16_at(boarded, e + P_VEHICLE) == v
            &&& u16_at(boarded, v + V_FIRST_PASSENGER) == e
            &&& u16_at(left, e + P_VEHICLE) == 0
            &&& u16_at(left, v + V_FIRST_PASSENGER) == 0
        }),
{
    reveal(seated);
    reveal(on_board);
    let m1 = boarding_start(m, e);
    let v = u16_at(m1, e + P_TARGET) as int;
    let m2 = before_seat(m1, e);
    assert(m2.len() == m.len());
    let a = put_u16(m2, e + P_VEHICLE, (v % 65536) as u16);
    let b = put_u16(a, e + P_NEXT_PASSENGER, 0);
    let c = put_u16(b, v + V_FIRST_PASSENGER, (e % 65536) as u16);
    let d = put_u16(c, e + P_NEXT_PASSENGER, 0);
    assert(u16_at(d, e + P_VEHICLE) == v && u16_at(d, v + V_FIRST_PASSENGER) == e && u16_at(d, e + P_NEXT_PASSENGER) == 0
        && d[v + P_TYPE] == 2 && d.len() == m.len());
    let dl = d[v + P_STATE];
    let m3 = seated(m2, e, v);
    assert(same_word(m3, d, e + P_VEHICLE) && same_word(m3, d, v + V_FIRST_PASSENGER) && same_word(
        m3,
        d,
        e + P_NEXT_PASSENGER,
    ) && m3[v + P_TYPE] == d[v + P_TYPE] && m3.len() == m.len()) by {
        if !(dl == 9 || dl == 10) {
            let x = put_u8(d, e + P_CMD_SAVED, d[v + V_COMMAND]);
            lemma_new_state_keeps(x, e, e + P_VEHICLE);
            lemma_new_state_keeps(x, e, e + P_VEHICLE + 1);
            lemma_new_state_keeps(x, e, v + V_FIRST_PASSENGER);
            lemma_new_state_keeps(x, e, v + V_FIRST_PASSENGER + 1);
            lemma_new_state_keeps(x, e, e + P_NEXT_PASSENGER);
            lemma_new_state_keeps(x, e, e + P_NEXT_PASSENGER + 1);
            lemma_new_state_keeps(x, e, v + P_TYPE);
        }
    }
    let f = on_board(m3, e, v);
    assert(same_word(f, m3, e + P_VEHICLE) && same_word(f, m3, v + V_FIRST_PASSENGER) && same_word(
        f,
        m3,
        e + P_NEXT_PASSENGER,
    ) && f[v + P_TYPE] == m3[v + P_TYPE] && f.len() == m.len());
    assert(into_vehicle(m, e).0 == f);
    let l = left_vehicle(f, e);
    assert(u16_at(l, e + P_VEHICLE) == 0 && u16_at(l, v + V_FIRST_PASSENGER) == 0 && l.len() == m.len());
    lemma_new_state_keeps(l, e, e + P_VEHICLE);
    lemma_new_state_keeps(l, e, e + P_VEHICLE + 1);
    lemma_new_state_keeps(l, e, v + V_FIRST_PASSENGER);
    lemma_new_state_keeps(l, e, v + V_FIRST_PASSENGER + 1);
}

} // verus!
