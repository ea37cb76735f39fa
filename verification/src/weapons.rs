//! Persons and weapons: picking a weapon up and putting one down.
use vstd::prelude::*;
use crate::mem::{u16_at, i16_at, put_u8, put_u16, read_u8, read_u16, read_i16, write_u8, write_u16};
use crate::chains::{chain_finite, chain_last, last_in_chain};
use crate::persons::{
    record_in, after_new_state, new_state_person, animated, animation_ends, animate_model, frames_hold, P_ANIM_DONE,
    P_STATE, P_DESIRED, P_TARGET, P_X, P_Y, P_Z, P_FLAGS_A, P_FRAME, P_ANGLE,
};

verus! {

/// Fields of a weapon lying in the level memory.
pub const W_AMMO: usize = 0x14;
pub const W_KIND: usize = 0x19;
pub const W_NEXT: usize = 0x1c;
pub const W_PREV: usize = 0x1e;
pub const W_OWNER: usize = 0x20;
/// The first weapon a person carries.
pub const P_WEAPONS: usize = 0x3a;

/// States and wishes of the pick-up.
pub const S_GOTO_WEAPON: u8 = 5;
pub const S_PICKUP_WEAPON: u8 = 9;
/// The angle a person faces after handling a weapon.
pub const WEAPON_DONE_ANGLE: u8 = 0x20;

/// The most ammunition a weapon of each kind holds.
pub open spec fn max_ammo(kind: u8) -> u16 {
    if kind == 1 {
        50
    } else if kind == 2 {
        12
    } else if kind == 3 {
        2
    } else if kind == 4 {
        11
    } else if kind == 5 {
        49
    } else if kind == 6 {
        499
    } else if kind == 7 {
        4
    } else if kind == 8 {
        999
    } else if kind == 9 {
        29
    } else {
        0
    }
}

/// The most ammunition a weapon of kind `kind` holds.
pub fn weapon_max_ammo(kind: u8) -> (r: u16)
    ensures
        r == max_ammo(kind),
{
    match kind {
        1 => 50,
        2 => 12,
        3 => 2,
        4 => 11,
        5 => 49,
        6 => 499,
        7 => 4,
        8 => 999,
        9 => 29,
        _ => 0,
    }
}

/// The person at `e` stands on the weapon at `w`: same x and y, and at most
/// 128 above or below it.
pub open spec fn on_weapon(m: Seq<u8>, e: int, w: int) -> bool {
    let dz = i16_at(m, e + P_Z) - i16_at(m, w + P_Z);
    &&& u16_at(m, e + P_X) == u16_at(m, w + P_X)
    &&& u16_at(m, e + P_Y) == u16_at(m, w + P_Y)
    &&& -0x80 <= dz <= 0x80
}

/// The weapon at `w` once it is taken: no longer linked to a next weapon,
/// its ammunition cut to what its kind holds.
pub open spec fn weapon_taken(m2: Seq<u8>, w: int) -> Seq<u8> {
    let ammo = i16_at(m2, w + W_AMMO);
    let m3 = put_u16(m2, w + W_NEXT, 0);
    let kind = m3[w + W_KIND];
    if ammo >= 0 && kind < 10 && ammo > max_ammo(kind) {
        put_u16(m3, w + W_AMMO, max_ammo(kind))
    } else {
        m3
    }
}

/// The memory once the weapon at `w` joins the weapons of the person at
/// `e`: after the last of them, or as the first.
pub open spec fn weapon_carried(m4: Seq<u8>, e: int, w: int) -> Seq<u8> {
    let head = u16_at(m4, e + P_WEAPONS) as int;
    let m5 = if head != 0 {
        let last = chain_last(m4, head, W_NEXT as int);
        put_u16(put_u16(m4, w + W_PREV, (last % 65536) as u16), last + W_NEXT, (w % 65536) as u16)
    } else {
        put_u16(put_u16(m4, e + P_WEAPONS, (w % 65536) as u16), w + W_PREV, (e % 65536) as u16)
    };
    let m6 = put_u8(m5, w + P_FLAGS_A, m5[w + P_FLAGS_A] | 1);
    let m7 = put_u16(m6, w + W_OWNER, (e % 65536) as u16);
    put_u8(m7, e + P_ANGLE, WEAPON_DONE_ANGLE)
}

/// The memory once a finished pick-up animation has stepped and the
/// targeted weapon is taken, just before the person carries it.
pub open spec fn taken_for_carrying(m: Seq<u8>, frames: Seq<u8>, e: int) -> Seq<u8> {
    let w = u16_at(m, e + P_TARGET) as int;
    weapon_taken(animated(put_u8(m, e + P_ANIM_DONE, 0), frames, e), w)
}

/// The memory after the pick-up state of the person at `e`, which targets
/// a weapon: away from it, the person goes to it; on a weapon already
/// carried, it moves on; otherwise it plays the pick-up animation, and when
/// that ends the weapon becomes its own and the person moves on.
pub open spec fn picked_up(m: Seq<u8>, frames: Seq<u8>, e: int) -> Seq<u8> {
    let w = u16_at(m, e + P_TARGET) as int;
    let m1 = put_u8(m, e + P_ANIM_DONE, 0);
    if !on_weapon(m1, e, w) {
        put_u8(put_u8(m1, e + P_STATE, S_GOTO_WEAPON), e + P_DESIRED, S_PICKUP_WEAPON)
    } else if m1[w + P_FLAGS_A] & 1 != 0 {
        after_new_state(m1, e)
    } else if animation_ends(frames, u16_at(m1, e + P_FRAME)) == 0 {
        animated(m1, frames, e)
    } else {
        after_new_state(weapon_carried(taken_for_carrying(m, frames, e), e, w), e)
    }
}

/// The things that the pick-up reads and writes lie in the memory, the
/// frame table holds the person's frames, and the person's weapons end.
pub open spec fn pickup_in_memory(m: Seq<u8>, frames: Seq<u8>, e: int) -> bool {
    let w = u16_at(m, e + P_TARGET) as int;
    let m1 = put_u8(m, e + P_ANIM_DONE, 0);
    let m4 = weapon_taken(animated(m1, frames, e), w);
    &&& record_in(m, e)
    &&& record_in(m, w)
    &&& on_weapon(m1, e, w) && m1[w + P_FLAGS_A] & 1 == 0 ==> frames_hold(frames, u16_at(m1, e + P_FRAME))
    &&& on_weapon(m1, e, w) && m1[w + P_FLAGS_A] & 1 == 0 && u16_at(m4, e + P_WEAPONS) != 0 ==> chain_finite(
        m4,
        u16_at(m4, e + P_WEAPONS) as int,
        W_NEXT as int,
    )
}

fn take_weapon(m: &mut Vec<u8>, w: usize)
    requires
        record_in(old(m)@, w as int),
    ensures
        final(m)@ == weapon_taken(old(m)@, w as int),
        final(m)@.len() == old(m)@.len(),
{
    let _len = m.len();
    let ammo = read_i16(m, w + W_AMMO);
    write_u16(m, w + W_NEXT, 0);
    let kind = read_u8(m, w + W_KIND);
    if ammo >= 0 && kind < 10 {
        let most = weapon_max_ammo(kind);
        if ammo as i32 > most as i32 {
            write_u16(m, w + W_AMMO, most);
        }
    }
}

fn carry_weapon(m: &mut Vec<u8>, e: usize, w: usize)
    requires
        record_in(old(m)@, e as int),
        record_in(old(m)@, w as int),
        u16_at(old(m)@, e + P_WEAPONS) != 0 ==> chain_finite(old(m)@, u16_at(old(m)@, e + P_WEAPONS) as int, W_NEXT as int),
    ensures
        final(m)@ == weapon_carried(old(m)@, e as int, w as int),
        final(m)@.len() == old(m)@.len(),
{
    let _len = m.len();
    let head = read_u16(m, e + P_WEAPONS) as usize;
    if head != 0 {
        let last = last_in_chain(m, head, W_NEXT);
        write_u16(m, w + W_PREV, (last % 65536) as u16);
        write_u16(m, last + W_NEXT, (w % 65536) as u16);
    } else {
        write_u16(m, e + P_WEAPONS, (w % 65536) as u16);
        write_u16(m, w + W_PREV, (e % 65536) as u16);
    }
    let fa = read_u8(m, w + P_FLAGS_A) | 1;
    write_u8(m, w + P_FLAGS_A, fa);
    write_u16(m, w + W_OWNER, (e % 65536) as u16);
    write_u8(m, e + P_ANGLE, WEAPON_DONE_ANGLE);
}

/// The pick-up state of the person at `e`: it goes to the weapon it targets,
/// and once on it, plays the pick-up animation; when that ends, the weapon
/// (its ammunition cut to what its kind holds) joins the person's weapons
/// and the person moves on. A weapon someone carries is left alone.
pub fn fn_s_person_pickup_weapon(m: &mut Vec<u8>, frames: &Vec<u8>, e: usize)
    requires
        pickup_in_memory(old(m)@, frames@, e as int),
    ensures
        final(m)@ == picked_up(old(m)@, frames@, e as int),
{
    let _len = m.len();
    let w = read_u16(m, e + P_TARGET) as usize;
    write_u8(m, e + P_ANIM_DONE, 0);
    let dz = read_i16(m, e + P_Z) as i32 - read_i16(m, w + P_Z) as i32;
    if read_u16(m, e + P_X) != read_u16(m, w + P_X) || read_u16(m, e + P_Y) != read_u16(m, w + P_Y) || dz > 0x80
        || dz < -0x80 {
        write_u8(m, e + P_STATE, S_GOTO_WEAPON);
        write_u8(m, e + P_DESIRED, S_PICKUP_WEAPON);
        return;
    }
    if (read_u8(m, w + P_FLAGS_A) & 1) != 0 {
        new_state_person(m, e);
        return;
    }
    let done = animate_model(m, frames, e);
    if done == 0 {
        return;
    }
    take_weapon(m, w);
    carry_weapon(m, e, w);
    new_state_person(m, e);
}

/// The memory after the drop state of the person at `e`: it plays the drop
/// animation, and when that ends it faces the weapon angle and moves on.
pub open spec fn dropped(m: Seq<u8>, frames: Seq<u8>, e: int) -> Seq<u8> {
    let m1 = put_u8(m, e + P_ANIM_DONE, 0);
    let m2 = animated(m1, frames, e);
    if animation_ends(frames, u16_at(m1, e + P_FRAME)) != 0 {
        after_new_state(put_u8(m2, e + P_ANGLE, WEAPON_DONE_ANGLE), e)
    } else {
        m2
    }
}

/// The drop state of the person at `e`, once its weapon is put down: it
/// plays the drop animation, and when that ends it faces the weapon angle
/// and moves on.
pub fn fn_s_person_drop_weapon(m: &mut Vec<u8>, frames: &Vec<u8>, e: usize)
    requires
        record_in(old(m)@, e as int),
        frames_hold(frames@, u16_at(old(m)@, e + P_FRAME)),
    ensures
        final(m)@ == dropped(old(m)@, frames@, e as int),
{
    let _len = m.len();
    write_u8(m, e + P_ANIM_DONE, 0);
    let done = animate_model(m, frames, e);
    if done != 0 {
        write_u8(m, e + P_ANGLE, WEAPON_DONE_ANGLE);
        new_state_person(m, e);
    }
}

} // verus!
