//! Persons on their way: to a point, or to a structure or vehicle.
//! The path finding and the collision tests stand outside this code: the
//! state handlers say which way a person moves, and the step that follows
//! the walk is done here.
use vstd::prelude::*;
use crate::mem::{u16_at, i16_at, put_u8, put_u16, read_u8, read_u16, read_i16, write_u8, write_u16};
use crate::motion::{chess_dist, getdist};
use crate::persons::{
    record_in, after_new_state, new_state_person, affect, affect_person, animated, animate_model, frames_hold,
    P_STATE, P_DESIRED, P_TARGET, P_X, P_Y, P_Z, P_TYPE, P_FLAGS_B, P_FOLLOW, P_VEHICLE, P_FRAME, P_GOTO_X, P_GOTO_Y,
    P_GOTO_Z,
};

verus! {

/// How a person on its way moves this turn.
#[derive(PartialEq, Eq, Structural, Clone, Copy, Debug)]
pub enum GotoStep {
    /// It has arrived or given up, and moved on to its next state.
    Done,
    /// It drives the vehicle at this offset.
    InVehicle(usize),
    /// It walks.
    OnFoot,
}

/// The person at `e` sits in a vehicle that drives (its type is 2).
pub open spec fn driving(m: Seq<u8>, e: int) -> bool {
    let veh = u16_at(m, e + P_VEHICLE) as int;
    veh != 0 && m[veh + P_TYPE] == 2
}

/// How the person at `e` goes to a point: in its vehicle when it drives
/// one, else on foot.
pub open spec fn goto_point_step(m: Seq<u8>, e: int) -> GotoStep {
    if driving(m, e) {
        GotoStep::InVehicle(u16_at(m, e + P_VEHICLE) as usize)
    } else {
        GotoStep::OnFoot
    }
}

/// The go-to-point state of the person at `e`: it drives there in its
/// vehicle, or walks.
pub fn fn_s_person_goto_point(m: &Vec<u8>, e: usize) -> (r: GotoStep)
    requires
        record_in(m@, e as int),
        u16_at(m@, e + P_VEHICLE) != 0 ==> record_in(m@, u16_at(m@, e + P_VEHICLE) as int),
    ensures
        r == goto_point_step(m@, e as int),
{
    let _len = m.len();
    let veh = read_u16(m, e + P_VEHICLE) as usize;
    if veh != 0 && read_u8(m, veh + P_TYPE) == 2 {
        GotoStep::InVehicle(veh)
    } else {
        GotoStep::OnFoot
    }
}

/// The memory after a walking step of the person at `e`: the effects on it
/// are applied and give its state, and it steps to its next frame.
pub open spec fn walked(m: Seq<u8>, frames: Seq<u8>, e: int, persuaded: bool) -> Seq<u8> {
    let a = affect(m, e, persuaded);
    animated(put_u8(a.0, e + P_STATE, a.1 as u8), frames, e)
}

/// Ends a walking step of the person at `e`, once it moved: the effects on
/// it are applied (`persuaded`: whether a pending persuasion wins it over)
/// and give its state, and it steps to its next frame.
pub fn walk_on(m: &mut Vec<u8>, frames: &Vec<u8>, e: usize, persuaded: bool)
    requires
        record_in(old(m)@, e as int),
        frames_hold(frames@, u16_at(old(m)@, e + P_FRAME)),
    ensures
        final(m)@ == walked(old(m)@, frames@, e as int, persuaded),
{
    let _len = m.len();
    let st = affect_person(m, e, persuaded);
    write_u8(m, e + P_STATE, st as u8);
    animate_model(m, frames, e);
}

/// The memory once the person at `e` heads for the thing it targets: the
/// thing's position becomes its destination.
pub open spec fn heading_for_target(m: Seq<u8>, e: int) -> Seq<u8> {
    let t = u16_at(m, e + P_TARGET) as int;
    let a = put_u16(m, e + P_GOTO_X, u16_at(m, t + P_X));
    let b = put_u16(a, e + P_GOTO_Y, u16_at(a, t + P_Y));
    put_u16(b, e + P_GOTO_Z, u16_at(b, t + P_Z))
}

/// The person at `e` gives up going to its target: the target is destroyed,
/// or the person it follows in order to board a vehicle has left the
/// vehicles.
pub open spec fn structure_given_up(m: Seq<u8>, e: int) -> bool {
    let t = u16_at(m, e + P_TARGET) as int;
    let follow = u16_at(m, e + P_FOLLOW) as int;
    m[t + P_FLAGS_B] & 1 != 0 || (follow != 0 && m[e + P_DESIRED] == 6 && u16_at(m, follow + P_VEHICLE) == 0)
}

/// The person at `e` has reached the vehicle it targets: its destination is
/// within 128 of the position `(acc_x, acc_y)`.
pub open spec fn vehicle_reached(m1: Seq<u8>, e: int, acc_x: i16, acc_y: i16) -> bool {
    let t = u16_at(m1, e + P_TARGET) as int;
    let dx = (i16_at(m1, e + P_GOTO_X) - acc_x) as i16;
    let dy = (i16_at(m1, e + P_GOTO_Y) - acc_y) as i16;
    m1[t + P_TYPE] == 2 && chess_dist(dx, dy) < 0x80
}

/// The go-to-structure state of the person at `e`, with the movement
/// accumulators at `(acc_x, acc_y)`: the memory afterwards and how the
/// person moves.
pub open spec fn goto_structure(m: Seq<u8>, e: int, acc_x: i16, acc_y: i16) -> (Seq<u8>, GotoStep) {
    if structure_given_up(m, e) {
        (after_new_state(put_u8(m, e + P_DESIRED, m[e + P_STATE]), e), GotoStep::Done)
    } else {
        let m1 = heading_for_target(m, e);
        if vehicle_reached(m1, e, acc_x, acc_y) {
            (after_new_state(m1, e), GotoStep::Done)
        } else {
            (m1, goto_point_step(m1, e))
        }
    }
}

/// The go-to-structure state: the person at `e` heads for the thing it
/// targets, giving up when that is destroyed or when the person it follows
/// to a vehicle has left the vehicles, and moving on once it reached the
/// vehicle it targets; otherwise it drives there in its vehicle, or walks.
pub fn fn_s_person_goto_structure(m: &mut Vec<u8>, e: usize, acc_x: i16, acc_y: i16) -> (r: GotoStep)
    requires
        record_in(old(m)@, e as int),
        record_in(old(m)@, u16_at(old(m)@, e + P_TARGET) as int),
        u16_at(old(m)@, e + P_FOLLOW) != 0 ==> record_in(old(m)@, u16_at(old(m)@, e + P_FOLLOW) as int),
        u16_at(heading_for_target(old(m)@, e as int), e + P_VEHICLE) != 0 ==> record_in(
            old(m)@,
            u16_at(heading_for_target(old(m)@, e as int), e + P_VEHICLE) as int,
        ),
    ensures
        (final(m)@, r) == goto_structure(old(m)@, e as int, acc_x, acc_y),
{
    let _len = m.len();
    let t = read_u16(m, e + P_TARGET) as usize;
    let follow = read_u16(m, e + P_FOLLOW) as usize;
    if (read_u8(m, t + P_FLAGS_B) & 1) != 0 || (follow != 0 && read_u8(m, e + P_DESIRED) == 6 && read_u16(
        m,
        follow + P_VEHICLE,
    ) == 0) {
        let st = read_u8(m, e + P_STATE);
        write_u8(m, e + P_DESIRED, st);
        new_state_person(m, e);
        return GotoStep::Done;
    }
    let tx = read_u16(m, t + P_X);
    write_u16(m, e + P_GOTO_X, tx);
    let ty = read_u16(m, t + P_Y);
    write_u16(m, e + P_GOTO_Y, ty);
    let tz = read_u16(m, t + P_Z);
    write_u16(m, e + P_GOTO_Z, tz);
    if read_u8(m, t + P_TYPE) == 2 {
        let dx = (read_i16(m, e + P_GOTO_X) as i32 - acc_x as i32) as i16;
        let dy = (read_i16(m, e + P_GOTO_Y) as i32 - acc_y as i32) as i16;
        if getdist(dx, dy) < 0x80 {
            new_state_person(m, e);
            return GotoStep::Done;
        }
    }
    fn_s_person_goto_point(m, e)
}

} // verus!
