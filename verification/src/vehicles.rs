//! Persons and vehicles: boarding a vehicle and riding in it.
use vstd::prelude::*;
use crate::mem::{u16_at, i16_at, put_u8, put_u16, read_u8, read_u16, read_i16, write_u8, write_u16};
use crate::chains::{chain_finite, chain_ends, chain_last, last_in_chain, link};
use crate::motion::{chess_dist, getdist};
use crate::persons::{
    record_in, after_new_state, new_state_person, P_ANIM_DONE, P_FOLLOW, P_VEHICLE, P_STATE, P_DESIRED,
    P_TARGET, P_X, P_Y, P_Z, P_TYPE, P_ANGLE, P_FLAGS_A, P_FLAGS_B, P_EFFECTS, P_NEXT_PASSENGER, P_CMD_SAVED, V_FIRST_PASSENGER,
};

verus! {

/// Where a passenger keeps the position of the vehicle it boarded.
pub const P_SEAT_X: usize = 0x34;
pub const P_SEAT_Y: usize = 0x36;
/// The command a vehicle carries out.
pub const V_COMMAND: usize = 0x28;

/// States and wishes of the boarding.
pub const S_GOTO_VEHICLE: u8 = 5;
pub const S_MOVE_INTO_VEHICLE: u8 = 6;
pub const S_IN_VEHICLE: u8 = 8;
/// States of a vehicle that lets passengers in and out.
pub const V_S_LOADING: u8 = 9;
pub const V_S_UNLOADING: u8 = 10;

/// The memory after the person at `e` gives up what it was doing and moves
/// on to its next state.
pub open spec fn given_up(m: Seq<u8>, e: int) -> Seq<u8> {
    after_new_state(put_u8(m, e + P_DESIRED, m[e + P_STATE]), e)
}

/// The memory once the cleared animation flag is set at the start of the
/// boarding.
pub open spec fn boarding_start(m: Seq<u8>, e: int) -> Seq<u8> {
    put_u8(m, e + P_ANIM_DONE, 0)
}

/// The person at `e` cannot board: the person it follows is in a vehicle,
/// or it is in one itself.
pub open spec fn boarding_refused(m1: Seq<u8>, e: int) -> bool {
    let follow = u16_at(m1, e + P_FOLLOW) as int;
    (follow != 0 && u16_at(m1, follow + P_VEHICLE) != 0) || u16_at(m1, e + P_VEHICLE) != 0
}

/// The vehicle is out of reach: 128 units or more away across the map, or
/// more than 128 above or below.
pub open spec fn vehicle_out_of_reach(m1: Seq<u8>, e: int, v: int) -> bool {
    let dx = (i16_at(m1, v + P_X) - i16_at(m1, e + P_X)) as i16;
    let dy = (i16_at(m1, v + P_Y) - i16_at(m1, e + P_Y)) as i16;
    let dz = i16_at(m1, e + P_Z) - i16_at(m1, v + P_Z);
    chess_dist(dx, dy) >= 0x80 || dz > 0x80 || -dz > 0x80
}

/// The memory once the person at `e` has taken its seat in the vehicle at
/// `v`, before the seat's position is recorded: at the end of the passenger
/// chain, or as the first passenger, riding at once when the vehicle lets
/// passengers in, else taking up the vehicle's command.
#[verifier::opaque]
pub open spec fn seated(m2: Seq<u8>, e: int, v: int) -> Seq<u8> {
    let first = u16_at(m2, v + V_FIRST_PASSENGER) as int;
    if first != 0 {
        let last = chain_last(m2, first, P_NEXT_PASSENGER as int);
        let a = put_u16(m2, e + P_VEHICLE, (last % 65536) as u16);
        let b = put_u16(a, last + P_NEXT_PASSENGER, (e % 65536) as u16);
        let c = put_u16(b, e + P_NEXT_PASSENGER, 0);
        let d = put_u8(c, e + P_FLAGS_A, c[e + P_FLAGS_A] | 8);
        put_u8(d, e + P_STATE, S_IN_VEHICLE)
    } else {
        let a = put_u16(m2, e + P_VEHICLE, (v % 65536) as u16);
        let b = put_u16(a, e + P_NEXT_PASSENGER, 0);
        let c = put_u16(b, v + V_FIRST_PASSENGER, (e % 65536) as u16);
        let d = put_u16(c, e + P_NEXT_PASSENGER, 0);
        let dl = d[v + P_STATE];
        if dl == V_S_LOADING || dl == V_S_UNLOADING {
            let f = put_u8(d, e + P_FLAGS_A, d[e + P_FLAGS_A] | 8);
            put_u8(f, e + P_STATE, S_IN_VEHICLE)
        } else {
            after_new_state(put_u8(d, e + P_CMD_SAVED, d[v + V_COMMAND]), e)
        }
    }
}

/// The memory once the boarding person at `e` is marked riding and the
/// position of the vehicle at `v` is recorded as its seat.
pub open spec fn on_board(m3: Seq<u8>, e: int, v: int) -> Seq<u8> {
    let f1 = put_u8(m3, e + P_FLAGS_A, m3[e + P_FLAGS_A] | 1);
    let f2 = put_u8(f1, e + P_ANIM_DONE, 0);
    let f3 = put_u16(f2, e + P_SEAT_X, u16_at(f2, v + P_X));
    put_u16(f3, e + P_SEAT_Y, u16_at(f3, v + P_Y))
}

/// The memory before the person takes its seat: its effects cleared.
pub open spec fn before_seat(m1: Seq<u8>, e: int) -> Seq<u8> {
    put_u16(m1, e + P_EFFECTS, 0)
}

/// The move-into-vehicle state of the person at `e`, which wants to board
/// the vehicle it targets: the memory afterwards, and where the person is
/// to be put on the map when it boards (over the vehicle, at its own
/// height).
pub open spec fn into_vehicle(m: Seq<u8>, e: int) -> (Seq<u8>, Option<(i16, i16, i16)>) {
    let m1 = boarding_start(m, e);
    let v = u16_at(m1, e + P_TARGET) as int;
    if boarding_refused(m1, e) {
        (given_up(m1, e), None)
    } else if vehicle_out_of_reach(m1, e, v) {
        (put_u8(put_u8(m1, e + P_STATE, S_GOTO_VEHICLE), e + P_DESIRED, S_MOVE_INTO_VEHICLE), None)
    } else if m1[v + P_FLAGS_B] & 1 != 0 {
        (given_up(m1, e), None)
    } else {
        let f = on_board(seated(before_seat(m1, e), e, v), e, v);
        (f, Some((i16_at(f, v + P_X) as i16, i16_at(f, v + P_Y) as i16, i16_at(f, e + P_Z) as i16)))
    }
}

/// The things that the boarding of the person at `e` reads and writes lie in
/// the memory, and the vehicle's passenger chain ends.
pub open spec fn boarding_in_memory(m: Seq<u8>, e: int) -> bool {
    let m1 = boarding_start(m, e);
    let follow = u16_at(m1, e + P_FOLLOW) as int;
    let v = u16_at(m1, e + P_TARGET) as int;
    let m2 = before_seat(m1, e);
    let first = u16_at(m2, v + V_FIRST_PASSENGER) as int;
    &&& record_in(m, e)
    &&& follow != 0 ==> record_in(m, follow)
    &&& !boarding_refused(m1, e) ==> record_in(m, v)
    &&& !boarding_refused(m1, e) && first != 0 ==> chain_finite(m2, first, P_NEXT_PASSENGER as int)
}

fn seat_passenger(m: &mut Vec<u8>, e: usize, v: usize)
    requires
        record_in(old(m)@, e as int),
        record_in(old(m)@, v as int),
        u16_at(old(m)@, v + V_FIRST_PASSENGER) != 0 ==> chain_finite(
            old(m)@,
            u16_at(old(m)@, v + V_FIRST_PASSENGER) as int,
            P_NEXT_PASSENGER as int,
        ),
    ensures
        final(m)@ == seated(old(m)@, e as int, v as int),
        final(m)@.len() == old(m)@.len(),
{
    reveal(seated);
    let _len = m.len();
    let first = read_u16(m, v + V_FIRST_PASSENGER) as usize;
    if first != 0 {
        let last = last_in_chain(m, first, P_NEXT_PASSENGER);
        write_u16(m, e + P_VEHICLE, (last % 65536) as u16);
        write_u16(m, last + P_NEXT_PASSENGER, (e % 65536) as u16);
        write_u16(m, e + P_NEXT_PASSENGER, 0);
        let fa = read_u8(m, e + P_FLAGS_A) | 8;
        write_u8(m, e + P_FLAGS_A, fa);
        write_u8(m, e + P_STATE, S_IN_VEHICLE);
    } else {
        write_u16(m, e + P_VEHICLE, (v % 65536) as u16);
        write_u16(m, e + P_NEXT_PASSENGER, 0);
        write_u16(m, v + V_FIRST_PASSENGER, (e % 65536) as u16);
        write_u16(m, e + P_NEXT_PASSENGER, 0);
        let dl = read_u8(m, v + P_STATE);
        if dl == V_S_LOADING || dl == V_S_UNLOADING {
            let fa = read_u8(m, e + P_FLAGS_A) | 8;
            write_u8(m, e + P_FLAGS_A, fa);
            write_u8(m, e + P_STATE, S_IN_VEHICLE);
        } else {
            let cmd = read_u8(m, v + V_COMMAND);
            write_u8(m, e + P_CMD_SAVED, cmd);
            new_state_person(m, e);
        }
    }
}

fn take_seat(m: &mut Vec<u8>, e: usize, v: usize) -> (pos: (i16, i16, i16))
    requires
        record_in(old(m)@, e as int),
        record_in(old(m)@, v as int),
    ensures
        final(m)@ == on_board(old(m)@, e as int, v as int),
        pos == (i16_at(final(m)@, v + P_X) as i16, i16_at(final(m)@, v + P_Y) as i16, i16_at(final(m)@, e + P_Z) as i16),
{
    reveal(on_board);
    let _len = m.len();
    let fa = read_u8(m, e + P_FLAGS_A) | 1;
    write_u8(m, e + P_FLAGS_A, fa);
    write_u8(m, e + P_ANIM_DONE, 0);
    let vx = read_u16(m, v + P_X);
    write_u16(m, e + P_SEAT_X, vx);
    let vy = read_u16(m, v + P_Y);
    write_u16(m, e + P_SEAT_Y, vy);
    (read_i16(m, v + P_X), read_i16(m, v + P_Y), read_i16(m, e + P_Z))
}

/// The move-into-vehicle state: the person at `e` boards the vehicle it
/// targets when it is within reach and not destroyed, and gives up when it
/// or the person it follows is already in a vehicle; out of reach, it goes
/// to the vehicle first. Returns where the person is to be put on the map
/// when it boards.
pub fn fn_s_person_move_into_vehicle(m: &mut Vec<u8>, e: usize) -> (pos: Option<(i16, i16, i16)>)
    requires
        boarding_in_memory(old(m)@, e as int),
    ensures
        (final(m)@, pos) == into_vehicle(old(m)@, e as int),
{
    let len = m.len();
    write_u8(m, e + P_ANIM_DONE, 0);
    let ghost m1 = m@;
    let follow = read_u16(m, e + P_FOLLOW) as usize;
    let refused = (follow != 0 && read_u16(m, follow + P_VEHICLE) != 0) || read_u16(m, e + P_VEHICLE) != 0;
    if refused {
        let st = read_u8(m, e + P_STATE);
        write_u8(m, e + P_DESIRED, st);
        new_state_person(m, e);
        return None;
    }
    let v = read_u16(m, e + P_TARGET) as usize;
    let dx = (read_i16(m, v + P_X) as i32 - read_i16(m, e + P_X) as i32) as i16;
    let dy = (read_i16(m, v + P_Y) as i32 - read_i16(m, e + P_Y) as i32) as i16;
    let dist = getdist(dx, dy);
    let dz = read_i16(m, e + P_Z) as i32 - read_i16(m, v + P_Z) as i32;
    if dist >= 0x80 || dz > 0x80 || -dz > 0x80 {
        write_u8(m, e + P_STATE, S_GOTO_VEHICLE);
        write_u8(m, e + P_DESIRED, S_MOVE_INTO_VEHICLE);
        return None;
    }
    if (read_u8(m, v + P_FLAGS_B) & 1) != 0 {
        let st = read_u8(m, e + P_STATE);
        write_u8(m, e + P_DESIRED, st);
        new_state_person(m, e);
        return None;
    }
    write_u16(m, e + P_EFFECTS, 0);
    seat_passenger(m, e, v);
    let pos = take_seat(m, e, v);
    Some(pos)
}

/// The wish of a passenger that steps off where no vehicle can take it.
pub const S_STEPPED_OFF: u8 = 7;
/// The link from a vehicle to the vehicle it follows.
pub const V_LEAD: usize = 0x20;

/// The map cell under the person at `e`: its row from y (taken modulo
/// 0x6000), its column from the high byte of x.
pub open spec fn map_tile(m: Seq<u8>, e: int) -> int {
    (i16_at(m, e + P_Y) % 0x6000) / 256 * 128 + u16_at(m, e + P_X) as int / 256
}

/// The passenger's companion has left the vehicles and the ground under the
/// passenger is not road (its cell's low byte is not 2).
pub open spec fn steps_off(m2: Seq<u8>, e: int, map: Seq<u32>) -> bool {
    let follow = u16_at(m2, e + P_FOLLOW) as int;
    &&& follow != 0
    &&& u16_at(m2, follow + P_VEHICLE) == 0
    &&& map.len() > 0
    &&& map[map_tile(m2, e)] % 256 != 2
}

/// The memory after the passenger at `e` steps off: it wants to follow, no
/// longer counted as riding.
pub open spec fn stepped_off(m2: Seq<u8>, e: int) -> Seq<u8> {
    let a = put_u8(m2, e + P_STATE, S_STEPPED_OFF);
    let b = put_u8(a, e + P_FLAGS_A, a[e + P_FLAGS_A] & 0xf7);
    put_u8(b, e + P_DESIRED, 0x1e)
}

/// The vehicle at `veh` lets passengers in and out.
pub open spec fn vehicle_halted(m2: Seq<u8>, veh: int) -> bool {
    m2[veh + P_TYPE] == 2 && (m2[veh + P_STATE] == V_S_LOADING || m2[veh + P_STATE] == V_S_UNLOADING)
}

/// The vehicle at `veh` runs: it does not let passengers in or out.
pub open spec fn vehicle_running(m2: Seq<u8>, veh: int) -> bool {
    m2[veh + P_TYPE] == 2 && !(m2[veh + P_STATE] == V_S_LOADING || m2[veh + P_STATE] == V_S_UNLOADING)
}

/// The vehicle moved since the passenger at `e` took its seat.
pub open spec fn seat_moved(m2: Seq<u8>, e: int, veh: int) -> bool {
    u16_at(m2, e + P_SEAT_X) != u16_at(m2, veh + P_X) || u16_at(m2, e + P_SEAT_Y) != u16_at(m2, veh + P_Y)
}

/// The passenger at `e` gets off the halted vehicle `veh`, which moved since
/// it boarded, when the first passenger of the convoy's last vehicle is
/// done with its animation.
pub open spec fn gets_off(m2: Seq<u8>, e: int, veh: int) -> bool {
    let tail = chain_last(m2, veh, V_LEAD as int);
    let fp = u16_at(m2, tail + V_FIRST_PASSENGER) as int;
    vehicle_halted(m2, veh) && seat_moved(m2, e, veh) && fp != 0 && m2[fp + P_ANIM_DONE] == 0
}

/// The memory after the passenger at `e` gets off: it faces across the
/// convoy's last vehicle (a quarter turn from it when that one faces a
/// cardinal direction along x) and moves on.
pub open spec fn got_off(m2: Seq<u8>, e: int, veh: int) -> Seq<u8> {
    let tail = chain_last(m2, veh, V_LEAD as int);
    let bl = m2[tail + P_ANGLE];
    let a = put_u8(m2, e + P_ANGLE, if bl == 0 || bl == 0x80 { 0x40u8 } else { 0u8 });
    after_new_state(put_u8(a, e + P_DESIRED, S_STEPPED_OFF), e)
}

/// The memory after the passenger at `e` of the running vehicle `veh` takes
/// up the vehicle's command and moves on.
pub open spec fn dismissed(m2: Seq<u8>, e: int, veh: int) -> Seq<u8> {
    let a = put_u8(m2, e + P_CMD_SAVED, m2[veh + V_COMMAND]);
    let b = put_u8(a, e + P_FLAGS_A, a[e + P_FLAGS_A] & 0xf7);
    after_new_state(put_u8(b, e + P_DESIRED, b[e + P_STATE]), e)
}

/// The thing reached from `x` through the vehicle links after at most `n`
/// links, stopping at the first vehicle.
pub open spec fn carrier_within(m: Seq<u8>, x: int, n: nat) -> int
    decreases n,
{
    if n == 0 || m[x + P_TYPE] == 2 || link(m, x, P_VEHICLE as int) == 0 {
        x
    } else {
        carrier_within(m, link(m, x, P_VEHICLE as int), (n - 1) as nat)
    }
}

/// The vehicle that carries the passenger sitting in `veh`: the first
/// vehicle along the vehicle links from it, or the last thing of that
/// chain; the thing at offset 0 when `veh` is 0.
pub open spec fn carrier(m: Seq<u8>, veh: int) -> int {
    if veh == 0 {
        0
    } else {
        carrier_within(m, veh, choose|n: nat| chain_ends(m, veh, P_VEHICLE as int, n))
    }
}

/// The memory of a passenger's turn before it decides: animation flag and
/// effects cleared.
pub open spec fn passenger_start(m: Seq<u8>, e: int) -> Seq<u8> {
    put_u16(put_u8(m, e + P_ANIM_DONE, 0), e + P_EFFECTS, 0)
}

/// The passenger state of the person at `e`, with the map's cells `map`
/// (none when the map is not loaded): the memory afterwards, and where the
/// person is to be put on the map when it rides on.
pub open spec fn passenger(m: Seq<u8>, e: int, map: Seq<u32>) -> (Seq<u8>, Option<(i16, i16, i16)>) {
    let m2 = passenger_start(m, e);
    let veh = u16_at(m2, e + P_VEHICLE) as int;
    if steps_off(m2, e, map) {
        (stepped_off(m2, e), None)
    } else if gets_off(m2, e, veh) {
        (got_off(m2, e, veh), None)
    } else if vehicle_running(m2, veh) {
        (dismissed(m2, e, veh), None)
    } else {
        let c = carrier(m2, veh);
        (m2, Some((i16_at(m2, c + P_X) as i16, i16_at(m2, c + P_Y) as i16, i16_at(m2, c + P_Z) as i16)))
    }
}

/// The things that the passenger's turn reads and writes lie in the memory
/// and the map, and the chains it follows end.
pub open spec fn passenger_in_memory(m: Seq<u8>, e: int, map: Seq<u32>) -> bool {
    let m2 = passenger_start(m, e);
    let veh = u16_at(m2, e + P_VEHICLE) as int;
    let follow = u16_at(m2, e + P_FOLLOW) as int;
    &&& record_in(m, e)
    &&& record_in(m, veh)
    &&& follow != 0 ==> record_in(m, follow)
    &&& follow != 0 && u16_at(m2, follow + P_VEHICLE) == 0 && map.len() > 0 ==> map_tile(m2, e) < map.len()
    &&& vehicle_halted(m2, veh) && seat_moved(m2, e, veh) ==> {
        &&& chain_finite(m2, veh, V_LEAD as int)
        &&& u16_at(m2, chain_last(m2, veh, V_LEAD as int) + V_FIRST_PASSENGER) != 0 ==> record_in(
            m2,
            u16_at(m2, chain_last(m2, veh, V_LEAD as int) + V_FIRST_PASSENGER) as int,
        )
    }
    &&& veh != 0 ==> chain_finite(m2, veh, P_VEHICLE as int)
}

proof fn lemma_carrier_within(m: Seq<u8>, x: int, n: nat)
    requires
        chain_ends(m, x, P_VEHICLE as int, n),
    ensures
        0 <= carrier_within(m, x, n),
        carrier_within(m, x, n) + P_VEHICLE + 2 <= m.len(),
    decreases n,
{
    if !(n == 0 || m[x + P_TYPE] == 2 || link(m, x, P_VEHICLE as int) == 0) {
        lemma_carrier_within(m, link(m, x, P_VEHICLE as int), (n - 1) as nat);
    }
}

/// Finds the vehicle that carries a passenger sitting in `veh`.
fn find_carrier(m: &Vec<u8>, veh: usize) -> (r: usize)
    requires
        veh != 0 ==> chain_finite(m@, veh as int, P_VEHICLE as int),
        veh == 0 ==> record_in(m@, 0),
    ensures
        r as int == carrier(m@, veh as int),
        r + 0x26 <= m@.len(),
{
    if veh == 0 {
        return 0;
    }
    let ghost n = choose|n: nat| chain_ends(m@, veh as int, P_VEHICLE as int, n);
    proof {
        lemma_carrier_within(m@, veh as int, n);
    }
    let len = m.len();
    let mut cur = veh;
    let ghost mut k = n;
    loop
        invariant
            len == m@.len(),
            chain_ends(m@, cur as int, P_VEHICLE as int, k),
            carrier_within(m@, veh as int, n) == carrier_within(m@, cur as int, k),
            carrier(m@, veh as int) == carrier_within(m@, veh as int, n),
            veh != 0,
        decreases k,
    {
        if read_u8(m, cur + P_TYPE) == 2 {
            proof {
                lemma_carrier_within(m@, cur as int, k);
            }
            return cur;
        }
        let nx = read_u16(m, cur + P_VEHICLE);
        if nx == 0 {
            return cur;
        }
        cur = nx as usize;
        proof {
            k = (k - 1) as nat;
        }
    }
}

/// The map cell under the person at `e`.
fn tile_under(m: &Vec<u8>, e: usize) -> (r: usize)
    requires
        record_in(m@, e as int),
    ensures
        r as int == map_tile(m@, e as int),
{
    let _len = m.len();
    let y = read_i16(m, e + P_Y) as i32;
    let row = ((y + 0xc000) as u32 % 0x6000) / 256;
    assert(((y + 0xc000) as int) % 0x6000 == (y as int) % 0x6000);
    let col = read_u16(m, e + P_X) / 256;
    (row as usize) * 128 + col as usize
}

/// Whether the passenger at `e` steps off, its companion out of the
/// vehicles and no road under it.
fn check_steps_off(m: &Vec<u8>, e: usize, map: &Vec<u32>) -> (r: bool)
    requires
        record_in(m@, e as int),
        u16_at(m@, e + P_FOLLOW) != 0 ==> record_in(m@, u16_at(m@, e + P_FOLLOW) as int),
        u16_at(m@, e + P_FOLLOW) != 0 && u16_at(m@, u16_at(m@, e + P_FOLLOW) + P_VEHICLE) == 0 && map@.len() > 0
            ==> map_tile(m@, e as int) < map@.len(),
    ensures
        r == steps_off(m@, e as int, map@),
{
    let _len = m.len();
    let follow = read_u16(m, e + P_FOLLOW) as usize;
    if follow == 0 || read_u16(m, follow + P_VEHICLE) != 0 || map.len() == 0 {
        return false;
    }
    let t = tile_under(m, e);
    map[t] % 256 != 2
}

/// Whether the passenger at `e` gets off the halted vehicle `veh`, and the
/// last vehicle of its convoy.
fn check_gets_off(m: &Vec<u8>, e: usize, veh: usize) -> (r: (bool, usize))
    requires
        record_in(m@, e as int),
        record_in(m@, veh as int),
        vehicle_halted(m@, veh as int) && seat_moved(m@, e as int, veh as int) ==> {
            &&& chain_finite(m@, veh as int, V_LEAD as int)
            &&& u16_at(m@, chain_last(m@, veh as int, V_LEAD as int) + V_FIRST_PASSENGER) != 0 ==> record_in(
                m@,
                u16_at(m@, chain_last(m@, veh as int, V_LEAD as int) + V_FIRST_PASSENGER) as int,
            )
        },
    ensures
        r.0 == gets_off(m@, e as int, veh as int),
        r.0 ==> r.1 as int == chain_last(m@, veh as int, V_LEAD as int) && r.1 + 0x22 <= m@.len(),
{
    let _len = m.len();
    let vtype = read_u8(m, veh + P_TYPE);
    let vstate = read_u8(m, veh + P_STATE);
    if vtype != 2 || !(vstate == V_S_LOADING || vstate == V_S_UNLOADING) {
        return (false, 0);
    }
    if read_u16(m, e + P_SEAT_X) == read_u16(m, veh + P_X) && read_u16(m, e + P_SEAT_Y) == read_u16(m, veh + P_Y) {
        return (false, 0);
    }
    let tail = last_in_chain(m, veh, V_LEAD);
    let fp = read_u16(m, tail + V_FIRST_PASSENGER) as usize;
    if fp == 0 {
        return (false, 0);
    }
    (read_u8(m, fp + P_ANIM_DONE) == 0, tail)
}

/// The passenger state: the person at `e` rides on with the vehicle that
/// carries it, steps off where no vehicle can take it once its companion
/// left the vehicles, gets off a halted vehicle that moved since it
/// boarded, and takes up the command of its vehicle when that one runs.
/// Returns where the person is to be put on the map when it rides on.
pub fn fn_s_person_passenger(m: &mut Vec<u8>, e: usize, map: &Vec<u32>) -> (pos: Option<(i16, i16, i16)>)
    requires
        passenger_in_memory(old(m)@, e as int, map@),
    ensures
        (final(m)@, pos) == passenger(old(m)@, e as int, map@),
{
    let _len = m.len();
    write_u8(m, e + P_ANIM_DONE, 0);
    write_u16(m, e + P_EFFECTS, 0);
    assert(m@ == passenger_start(old(m)@, e as int));
    let veh = read_u16(m, e + P_VEHICLE) as usize;
    if check_steps_off(m, e, map) {
        write_u8(m, e + P_STATE, S_STEPPED_OFF);
        let fa = read_u8(m, e + P_FLAGS_A) & 0xf7;
        write_u8(m, e + P_FLAGS_A, fa);
        write_u8(m, e + P_DESIRED, 0x1e);
        return None;
    }
    let (off, tail) = check_gets_off(m, e, veh);
    if off {
        let bl = read_u8(m, tail + P_ANGLE);
        write_u8(m, e + P_ANGLE, if bl == 0 || bl == 0x80 { 0x40 } else { 0 });
        write_u8(m, e + P_DESIRED, S_STEPPED_OFF);
        new_state_person(m, e);
        return None;
    }
    let vtype = read_u8(m, veh + P_TYPE);
    let vstate = read_u8(m, veh + P_STATE);
    if vtype == 2 && !(vstate == V_S_LOADING || vstate == V_S_UNLOADING) {
        let cmd = read_u8(m, veh + V_COMMAND);
        write_u8(m, e + P_CMD_SAVED, cmd);
        let fa = read_u8(m, e + P_FLAGS_A) & 0xf7;
        write_u8(m, e + P_FLAGS_A, fa);
        let st = read_u8(m, e + P_STATE);
        write_u8(m, e + P_DESIRED, st);
        new_state_person(m, e);
        return None;
    }
    let c = find_carrier(m, veh);
    Some((read_i16(m, c + P_X), read_i16(m, c + P_Y), read_i16(m, c + P_Z)))
}

} // verus!
