//! The persons' state machine: each handler reads and writes a person's
//! record in the level memory. Links between things are offsets in that memory.
use vstd::prelude::*;
use crate::mem::{u16_at, i16_at, put_u8, put_u16, signed16, word_of, read_u8, read_u16, read_i16, write_u8, write_u16, write_i16};
use crate::level::{rdist, getrdist, level_failed, level_complete, mission_over, mission_ended, SMP_MISSION_FAILED, SMP_MISSION_COMPLETE};
use crate::state::{GameState, MISSION_FAILED, MISSION_COMPLETE, PLAYER_SLOTS, AGENT_TABLE_SIZE, PERSON_SIZE};

verus! {

/// Offsets of the fields of a person record.
pub const P_FLAGS_A: usize = 0x0a;
pub const P_FLAGS_B: usize = 0x0b;
pub const P_EFFECTS: usize = 0x0c;
pub const P_FRAME: usize = 0x10;
pub const P_PERSUADER: usize = 0x16;
pub const P_TYPE: usize = 0x18;
pub const P_STATE: usize = 0x19;
pub const P_ANGLE: usize = 0x1a;
pub const P_FLAGS_1C: usize = 0x1c;
pub const P_HUG_DIST: usize = 0x1e;
pub const P_FOLLOW: usize = 0x20;
pub const P_VEHICLE: usize = 0x24;
pub const P_COMMAND: usize = 0x26;
pub const P_COMMANDS_START: usize = 0x28;
pub const P_TARGET: usize = 0x2c;
pub const P_GOTO_X: usize = 0x2e;
pub const P_GOTO_Y: usize = 0x30;
pub const P_GOTO_Z: usize = 0x32;
pub const P_SPEED_TIER: usize = 0x3c;
pub const P_HUG_REF: usize = 0x42;
pub const P_WEAPON: usize = 0x44;
pub const P_WEAPON_B: usize = 0x46;
pub const P_ADRENALIN: usize = 0x48;
pub const P_INTELLIGENCE: usize = 0x4c;
pub const P_PERCEPTION: usize = 0x50;
pub const P_ANIM_DONE: usize = 0x54;
pub const P_DESIRED: usize = 0x58;
pub const P_HUG_STEPS: usize = 0x59;
pub const P_HUG_ANGLE: usize = 0x5a;
pub const P_X: usize = 0x04;
pub const P_Y: usize = 0x06;
pub const P_Z: usize = 0x08;
/// Size of a person record.
pub const PERSON_RECORD: usize = 0x5c;

/// States of the person state machine.
pub const S_STAND: u8 = 0x00;
pub const S_GOTO_POINT: u8 = 0x01;
pub const S_GUARD: u8 = 0x1d;
pub const S_FOLLOW: u8 = 0x1e;

/// The person record at `e` lies in the memory `m`.
pub open spec fn record_in(m: Seq<u8>, e: int) -> bool {
    0 <= e && e + PERSON_RECORD <= m.len()
}

/// The state a person falls back to when it has no other wish: following,
/// guarding, walking its commands, or standing.
pub open spec fn default_state(m: Seq<u8>, e: int) -> u8 {
    if u16_at(m, e + P_FOLLOW) != 0 {
        S_FOLLOW
    } else if m[e + P_FLAGS_B] & 0x10 != 0 {
        S_GUARD
    } else if u16_at(m, e + P_COMMANDS_START) != 0 {
        S_GOTO_POINT
    } else {
        S_STAND
    }
}

/// The state `new_state_person` chooses: the wished state when there is one
/// that differs from the current state, the default state otherwise.
pub open spec fn next_state(m: Seq<u8>, e: int) -> u8 {
    let cur = m[e + P_STATE];
    let want = m[e + P_DESIRED];
    if cur == want || want == 0 {
        default_state(m, e)
    } else {
        want
    }
}

/// The memory after `new_state_person`: the chosen state becomes both the
/// wished and the current state.
pub open spec fn after_new_state(m: Seq<u8>, e: int) -> Seq<u8> {
    put_u8(put_u8(m, e + P_DESIRED, next_state(m, e)), e + P_STATE, next_state(m, e))
}

/// Moves the person at `e` to its next state.
pub fn new_state_person(m: &mut Vec<u8>, e: usize)
    requires
        record_in(old(m)@, e as int),
    ensures
        final(m)@ == after_new_state(old(m)@, e as int),
{
    let _len = m.len();
    let cur = read_u8(m, e + P_STATE);
    let want = read_u8(m, e + P_DESIRED);
    if cur == want || want == 0 {
        let st: u8 = if read_u16(m, e + P_FOLLOW) != 0 {
            S_FOLLOW
        } else if (read_u8(m, e + P_FLAGS_B) & 0x10) != 0 {
            S_GUARD
        } else if read_u16(m, e + P_COMMANDS_START) != 0 {
            S_GOTO_POINT
        } else {
            S_STAND
        };
        write_u8(m, e + P_DESIRED, st);
    } else {
        assert(old(m)@ =~= put_u8(old(m)@, e + P_DESIRED, want));
    }
    let v = read_u8(m, e + P_DESIRED);
    write_u8(m, e + P_STATE, v);
}

/// `a` divided by `d` (positive), rounded toward zero as the processor does.
pub open spec fn trunc_div(a: int, d: int) -> int {
    if a >= 0 {
        a / d
    } else {
        -((-a) / d)
    }
}

/// Signed division of `a` by the positive `d`, rounded toward zero.
pub fn div_toward_zero(a: i32, d: i32) -> (r: i32)
    requires
        d > 0,
    ensures
        r as int == trunc_div(a as int, d as int),
{
    let ua: u64 = if a >= 0 { a as u64 } else { (-(a as i64)) as u64 };
    let q: u64 = ua / d as u64;
    assert(q <= 0x8000_0000) by (nonlinear_arith)
        requires
            q == ua / d as u64,
            ua <= 0x8000_0000,
            d > 0,
    ;
    if a >= 0 {
        q as i32
    } else {
        (-(q as i64)) as i32
    }
}

/// The modifier a stat gives: its excess over the base, scaled by `modifier`,
/// over the room the base leaves (the base itself below it, 255 minus the base
/// above it).
pub open spec fn stat_modifier(base: u8, current: u8, modifier: i32) -> int {
    let diff = current as int - base as int;
    if diff == 0 {
        0
    } else if diff < 0 {
        trunc_div((diff * modifier as int) as i32 as int, base as int)
    } else {
        trunc_div((diff * modifier as int) as i32 as int, 255 - base as int)
    }
}

/// A stat's modifier, from its base and current value.
pub fn stat_scaled(base: u8, current: u8, modifier: i32) -> (r: i32)
    ensures
        r as int == stat_modifier(base, current, modifier),
{
    let diff: i32 = current as i32 - base as i32;
    if diff == 0 {
        return 0;
    }
    assert(-0x80_0000_0000 <= diff as i64 * modifier as i64 <= 0x80_0000_0000) by (nonlinear_arith)
        requires
            -255 <= diff <= 255,
            i32::MIN <= modifier <= i32::MAX,
    ;
    let num: i32 = (diff as i64 * modifier as i64) as i32;
    if diff < 0 {
        div_toward_zero(num, base as i32)
    } else {
        div_toward_zero(num, 0xff - base as i32)
    }
}

/// The perception modifier of the person at `e`.
pub fn get_person_perception(m: &Vec<u8>, e: usize, modifier: i32) -> (r: i32)
    requires
        record_in(m@, e as int),
    ensures
        r as int == stat_modifier(m@[e + P_PERCEPTION], m@[e + P_PERCEPTION + 1], modifier),
{
    let _len = m.len();
    stat_scaled(read_u8(m, e + P_PERCEPTION), read_u8(m, e + P_PERCEPTION + 1), modifier)
}

/// The intelligence modifier of the person at `e`.
pub fn get_person_intelligence(m: &Vec<u8>, e: usize, modifier: i32) -> (r: i32)
    requires
        record_in(m@, e as int),
    ensures
        r as int == stat_modifier(m@[e + P_INTELLIGENCE], m@[e + P_INTELLIGENCE + 1], modifier),
{
    let _len = m.len();
    stat_scaled(read_u8(m, e + P_INTELLIGENCE), read_u8(m, e + P_INTELLIGENCE + 1), modifier)
}

/// The adrenalin modifier of the person at `e`.
pub fn get_person_adrenlin(m: &Vec<u8>, e: usize, modifier: i32) -> (r: i32)
    requires
        record_in(m@, e as int),
    ensures
        r as int == stat_modifier(m@[e + P_ADRENALIN], m@[e + P_ADRENALIN + 1], modifier),
{
    let _len = m.len();
    stat_scaled(read_u8(m, e + P_ADRENALIN), read_u8(m, e + P_ADRENALIN + 1), modifier)
}

/// The adrenalin modifier of the person at `e` for `modifier`.
pub open spec fn adrenalin(m: Seq<u8>, e: int, modifier: i32) -> int {
    stat_modifier(m[e + P_ADRENALIN], m[e + P_ADRENALIN + 1], modifier)
}

/// The walking speed before the load: 1000 plus 625 per speed tier.
pub open spec fn base_speed(m: Seq<u8>, e: int) -> int {
    ((m[e + P_SPEED_TIER] & 0x18) / 8) as int * 625 + 1000
}

/// The speed left to an overloaded person: `modifier` scaled by what is left
/// of 1000 after the overload, and at least 0x10.
pub open spec fn overloaded_speed(over: int, modifier: i32) -> int {
    let q = trunc_div((1000 - over) * modifier as int, 1000);
    if q < 0x10 {
        0x10
    } else {
        q
    }
}

/// The speed of a person carrying `weight`: in a vehicle the adrenalin
/// modifier (at least 0x0c); on foot the base speed less the weight, through
/// the adrenalin modifier (at least 0x10).
pub open spec fn person_speed(m: Seq<u8>, e: int, modifier: i32, weight: i32) -> int {
    if u16_at(m, e + P_FLAGS_1C) & 0x1002 != 0 {
        let r = adrenalin(m, e, modifier);
        if r < 0x0c {
            0x0c
        } else {
            r
        }
    } else {
        let edi = base_speed(m, e) - weight as int;
        let speed = if edi < 0 {
            overloaded_speed(-edi, modifier)
        } else {
            adrenalin(m, e, edi as i32)
        };
        let r = adrenalin(m, e, speed as i32);
        if r < 0x10 {
            0x10
        } else {
            r
        }
    }
}

/// The speed of the person at `e`, given the weight of the weapons it carries.
pub fn get_person_speed(m: &Vec<u8>, e: usize, modifier: i32, weight: i32) -> (r: i32)
    requires
        record_in(m@, e as int),
        i32::MIN < base_speed(m@, e as int) - weight <= i32::MAX,
        base_speed(m@, e as int) - weight < 0 ==> i32::MIN <= (1000 + (base_speed(m@, e as int) - weight)) * modifier
            <= i32::MAX,
    ensures
        r as int == person_speed(m@, e as int, modifier, weight),
{
    let _len = m.len();
    let f1c = read_u16(m, e + P_FLAGS_1C);
    if (f1c & 0x1002) != 0 {
        let r = get_person_adrenlin(m, e, modifier);
        return if r < 0x0c { 0x0c } else { r };
    }
    let tier = read_u8(m, e + P_SPEED_TIER);
    let v: i32 = ((tier & 0x18) / 8) as i32;
    let base: i32 = v * 625 + 1000;
    let edi: i32 = base - weight;
    let speed: i32 = if edi < 0 {
        let over: i32 = -edi;
        let num: i32 = (1000 - over) * modifier;
        let q = div_toward_zero(num, 1000);
        if q < 0x10 { 0x10 } else { q }
    } else {
        get_person_adrenlin(m, e, edi)
    };
    let r = get_person_adrenlin(m, e, speed);
    if r < 0x10 { 0x10 } else { r }
}

/// What `affect_person` does to the memory, and the state it returns. The
/// pending effects are cleared; the first of burning, burning again,
/// irradiation, a shock or a hit makes the person move and gives that
/// reaction; a persuasion that succeeds (`persuaded`) makes it follow its
/// persuader; otherwise the current state is kept.
pub open spec fn affect(m: Seq<u8>, e: int, persuaded: bool) -> (Seq<u8>, u32) {
    let fx = u16_at(m, e + P_EFFECTS);
    if fx == 0 {
        (m, m[e + P_STATE] as u32)
    } else {
        let m1 = put_u16(m, e + P_EFFECTS, 0);
        let dl = (fx % 256) as u8;
        let dh = (fx / 256) as u8;
        let moved = put_u8(m1, e + P_FLAGS_A, m1[e + P_FLAGS_A] | 8);
        if dl & 0x80 != 0 {
            (moved, 0x15)
        } else if dl & 0x08 != 0 {
            (moved, 0x14)
        } else if dl & 0x40 != 0 {
            (moved, 0x12)
        } else if dl & 0x01 != 0 {
            (moved, 0x13)
        } else if dl & 0x10 != 0 {
            (moved, 0x11)
        } else if dh & 0x04 != 0 && persuaded {
            let m2 = put_u8(moved, e + P_DESIRED, S_FOLLOW);
            (put_u16(m2, e + P_FOLLOW, u16_at(m2, e + P_PERSUADER)), 0x2c)
        } else {
            (m1, m1[e + P_STATE] as u32)
        }
    }
}

/// Applies the effects pending on the person at `e` and returns the state it
/// reacts with. `persuaded` is whether its persuader wins it over; it is
/// consulted only when a persuasion is pending.
pub fn affect_person(m: &mut Vec<u8>, e: usize, persuaded: bool) -> (r: u32)
    requires
        record_in(old(m)@, e as int),
    ensures
        (final(m)@, r) == affect(old(m)@, e as int, persuaded),
{
    let _len = m.len();
    let fx = read_u16(m, e + P_EFFECTS);
    if fx == 0 {
        return read_u8(m, e + P_STATE) as u32;
    }
    write_u16(m, e + P_EFFECTS, 0);
    let dl: u8 = (fx % 256) as u8;
    let dh: u8 = (fx / 256) as u8;
    let code: u32 = if (dl & 0x80) != 0 {
        0x15
    } else if (dl & 0x08) != 0 {
        0x14
    } else if (dl & 0x40) != 0 {
        0x12
    } else if (dl & 0x01) != 0 {
        0x13
    } else if (dl & 0x10) != 0 {
        0x11
    } else if (dh & 0x04) != 0 && persuaded {
        0x2c
    } else {
        0
    };
    if code == 0 {
        return read_u8(m, e + P_STATE) as u32;
    }
    let a = read_u8(m, e + P_FLAGS_A);
    write_u8(m, e + P_FLAGS_A, a | 8);
    if code == 0x2c {
        write_u8(m, e + P_DESIRED, S_FOLLOW);
        let link = read_u16(m, e + P_PERSUADER);
        write_u16(m, e + P_FOLLOW, link);
    }
    code
}

/// The animation frame after `f`, from the frame table.
pub open spec fn next_frame(frames: Seq<u8>, f: u16) -> u16 {
    u16_at(frames, f as int * 8 + 6)
}

/// The frame table holds frame `f` and the frame after it.
pub open spec fn frames_hold(frames: Seq<u8>, f: u16) -> bool {
    &&& f as int * 8 + 8 <= frames.len()
    &&& next_frame(frames, f) as int * 8 + 8 <= frames.len()
}

/// The memory after the person at `e` steps to its next animation frame.
pub open spec fn animated(m: Seq<u8>, frames: Seq<u8>, e: int) -> Seq<u8> {
    put_u16(m, e + P_FRAME, next_frame(frames, u16_at(m, e + P_FRAME)))
}

/// Whether the frame after `f` ends its animation.
pub open spec fn animation_ends(frames: Seq<u8>, f: u16) -> u8 {
    frames[next_frame(frames, f) as int * 8 + 5] & 1
}

/// Steps the person at `e` to its next animation frame; returns whether the
/// new frame ends the animation.
pub fn animate_model(m: &mut Vec<u8>, frames: &Vec<u8>, e: usize) -> (r: u8)
    requires
        record_in(old(m)@, e as int),
        frames_hold(frames@, u16_at(old(m)@, e + P_FRAME)),
    ensures
        final(m)@ == animated(old(m)@, frames@, e as int),
        r == animation_ends(frames@, u16_at(old(m)@, e + P_FRAME)),
{
    let _len = m.len();
    let f = read_u16(m, e + P_FRAME);
    let next = read_u16(frames, f as usize * 8 + 6);
    write_u16(m, e + P_FRAME, next);
    read_u8(frames, next as usize * 8 + 5) & 1
}

/// The memory after the stand handler, given the persuasion's outcome.
pub open spec fn stood(m: Seq<u8>, frames: Seq<u8>, e: int, persuaded: bool) -> Seq<u8> {
    let m1 = put_u8(m, e + P_ANIM_DONE, 0);
    let m2 = put_u8(m1, e + P_FLAGS_A, m1[e + P_FLAGS_A] & !8u8);
    let m3 = animated(m2, frames, e);
    let a = affect(m3, e, persuaded);
    put_u8(a.0, e + P_STATE, a.1 as u8)
}

/// The stand state: the person stops moving, animates, and reacts to what
/// affects it.
pub fn fn_s_person_stand(m: &mut Vec<u8>, frames: &Vec<u8>, e: usize, persuaded: bool)
    requires
        record_in(old(m)@, e as int),
        frames_hold(frames@, u16_at(old(m)@, e + P_FRAME)),
    ensures
        final(m)@ == stood(old(m)@, frames@, e as int, persuaded),
{
    let _len = m.len();
    write_u8(m, e + P_ANIM_DONE, 0);
    let a = read_u8(m, e + P_FLAGS_A);
    write_u8(m, e + P_FLAGS_A, a & !8u8);
    animate_model(m, frames, e);
    let st = affect_person(m, e, persuaded);
    write_u8(m, e + P_STATE, st as u8);
}

/// The select-weapon state: the target weapon becomes the selected one, and
/// the person moves on.
pub fn fn_s_person_select_weapon(m: &mut Vec<u8>, e: usize)
    requires
        record_in(old(m)@, e as int),
    ensures
        final(m)@ == after_new_state(put_u16(old(m)@, e + P_WEAPON, u16_at(old(m)@, e + P_TARGET)), e as int),
{
    let _len = m.len();
    let w = read_u16(m, e + P_TARGET);
    write_u16(m, e + P_WEAPON, w);
    new_state_person(m, e);
}

/// The memory after the wait-for-time handler: the countdown in the target
/// field runs down; when it has run out (or holds more than 500) the selected
/// weapon is dropped from the hands and the person moves on.
pub open spec fn waited(m: Seq<u8>, e: int, persuaded: bool) -> Seq<u8> {
    let dx = u16_at(m, e + P_TARGET);
    let m1 = put_u8(m, e + P_ANIM_DONE, 0);
    let m2 = if dx == 0 || dx > 500 {
        after_new_state(put_u8(put_u16(m1, e + P_WEAPON, 0), e + P_WEAPON_B, 0), e)
    } else {
        put_u16(m1, e + P_TARGET, (dx - 1) as u16)
    };
    let a = affect(m2, e, persuaded);
    put_u8(a.0, e + P_STATE, a.1 as u8)
}

/// The wait-for-time state.
pub fn fn_s_person_wait_for_time(m: &mut Vec<u8>, e: usize, persuaded: bool)
    requires
        record_in(old(m)@, e as int),
    ensures
        final(m)@ == waited(old(m)@, e as int, persuaded),
{
    let _len = m.len();
    let dx = read_u16(m, e + P_TARGET);
    write_u8(m, e + P_ANIM_DONE, 0);
    if dx == 0 || dx > 500 {
        write_u16(m, e + P_WEAPON, 0);
        write_u8(m, e + P_WEAPON_B, 0);
        new_state_person(m, e);
    } else {
        write_u16(m, e + P_TARGET, dx - 1);
    }
    let st = affect_person(m, e, persuaded);
    write_u8(m, e + P_STATE, st as u8);
}

/// The map tile a coordinate lies in.
pub open spec fn tile_of(v: int) -> int {
    v / 256
}

/// The memory after the wait-for-model handler: once the person stands on the
/// tile of the thing it waits for, it turns to state 0x0d with 0x14 in its
/// target field; then it reacts to what affects it.
pub open spec fn waited_for_model(m: Seq<u8>, e: int, persuaded: bool) -> Seq<u8> {
    let t = u16_at(m, e + P_TARGET) as int;
    let m1 = put_u8(m, e + P_ANIM_DONE, 0);
    let m2 = if tile_of(i16_at(m1, e + P_X)) == tile_of(i16_at(m1, t + P_X)) && tile_of(i16_at(m1, e + P_Y)) == tile_of(
        i16_at(m1, t + P_Y),
    ) {
        put_u16(put_u8(m1, e + P_STATE, 0x0d), e + P_TARGET, 0x14)
    } else {
        m1
    };
    let a = affect(m2, e, persuaded);
    put_u8(a.0, e + P_STATE, a.1 as u8)
}

/// The wait-for-model state.
pub fn fn_s_person_wait_for_model(m: &mut Vec<u8>, e: usize, persuaded: bool)
    requires
        record_in(old(m)@, e as int),
        u16_at(old(m)@, e + P_TARGET) as int + P_Y + 2 <= old(m)@.len(),
    ensures
        final(m)@ == waited_for_model(old(m)@, e as int, persuaded),
{
    let _len = m.len();
    let t = read_u16(m, e + P_TARGET) as usize;
    write_u8(m, e + P_ANIM_DONE, 0);
    let ex = crate::motion::shift_down8(read_i16(m, e + P_X) as i32);
    let tx = crate::motion::shift_down8(read_i16(m, t + P_X) as i32);
    let ey = crate::motion::shift_down8(read_i16(m, e + P_Y) as i32);
    let ty = crate::motion::shift_down8(read_i16(m, t + P_Y) as i32);
    if ex == tx && ey == ty {
        write_u8(m, e + P_STATE, 0x0d);
        write_u16(m, e + P_TARGET, 0x14);
    }
    let st = affect_person(m, e, persuaded);
    write_u8(m, e + P_STATE, st as u8);
}

/// The command types of a command list entry, less one.
pub const CMD_GOTO_POINT: u8 = 0;
pub const CMD_BOARD_VEHICLE: u8 = 1;
pub const CMD_GUARD: u8 = 2;
pub const CMD_ENTER_VEHICLE: u8 = 3;
pub const CMD_EXIT_VEHICLE: u8 = 4;
pub const CMD_GOTO_STRUCTURE: u8 = 5;
pub const CMD_MISSION_FAILED: u8 = 6;
pub const CMD_GOTO_POINT_PRECISE: u8 = 7;
pub const CMD_GUARD_AREA: u8 = 8;
pub const CMD_RESEARCH_PICKUP: u8 = 9;
pub const CMD_MISSION_COMPLETE: u8 = 10;

/// The memory after the person at `e` takes on the command at `c` of the
/// command list `cmds` (before the list advances).
pub open spec fn command_taken(m: Seq<u8>, cmds: Seq<u8>, e: int, c: int) -> Seq<u8> {
    let t = ((cmds[c + 7] as int - 1) % 256) as u8;
    let set_states = |a: u8, b: u8| put_u8(put_u8(m, e + P_STATE, a), e + P_DESIRED, b);
    let target = u16_at(cmds, c + 2);
    if t == CMD_GOTO_POINT {
        let m1 = set_states(3, 3);
        let m2 = put_u16(m1, e + P_GOTO_X, (cmds[c + 4] as int * 128 + 64) as u16);
        let m3 = put_u16(m2, e + P_GOTO_Y, (cmds[c + 5] as int * 128 + 64) as u16);
        put_u16(m3, e + P_GOTO_Z, (cmds[c + 6] as int * 128) as u16)
    } else if t == CMD_BOARD_VEHICLE {
        if u16_at(m, e + P_VEHICLE) == 0 {
            put_u16(set_states(5, 6), e + P_TARGET, target)
        } else {
            m
        }
    } else if t == CMD_GUARD {
        set_states(7, 7)
    } else if t == CMD_ENTER_VEHICLE {
        put_u16(set_states(0xc, 0xc), e + P_TARGET, target)
    } else if t == CMD_EXIT_VEHICLE {
        put_u16(set_states(0xd, 0xd), e + P_TARGET, target)
    } else if t == CMD_GOTO_STRUCTURE {
        put_u16(set_states(5, 5), e + P_TARGET, target)
    } else if t == CMD_MISSION_FAILED || t == CMD_MISSION_COMPLETE {
        set_states(0, 0)
    } else if t == CMD_GOTO_POINT_PRECISE {
        let m1 = set_states(0x28, 0x28);
        let m2 = put_u16(m1, e + P_GOTO_X, word_of(cmds[c + 4] as int / 2));
        let m3 = put_u16(m2, e + P_GOTO_Y, word_of(cmds[c + 5] as int / 2));
        put_u16(m3, e + P_GOTO_Z, (cmds[c + 6] as int * 128) as u16)
    } else if t == CMD_GUARD_AREA {
        put_u8(put_u16(m, e + P_COMMAND, 0), e + P_STATE, S_GUARD)
    } else if t == CMD_RESEARCH_PICKUP {
        put_u8(put_u16(m, e + P_TARGET, 0x32), e + P_STATE, 0x2a)
    } else {
        m
    }
}

/// The memory after the next-command handler: the command is taken on and the
/// person's list advances to the next command, or back to its first command
/// at the end of the list.
pub open spec fn command_advanced(m: Seq<u8>, cmds: Seq<u8>, e: int) -> Seq<u8> {
    let c = u16_at(m, e + P_COMMAND) as int;
    let m1 = command_taken(m, cmds, e, c);
    let next = u16_at(cmds, c);
    put_u16(m1, e + P_COMMAND, if next != 0 { next } else { u16_at(m1, e + P_COMMANDS_START) })
}

/// The command type (less one) of the person's current command.
pub open spec fn current_command_type(s: GameState, e: int) -> u8 {
    ((s.commands@[u16_at(s.things@, e + P_COMMAND) + 7] as int - 1) % 256) as u8
}

/// Takes on the command at `link`; returns the command type when it ends the
/// mission, 0 otherwise.
fn take_command(m: &mut Vec<u8>, cmds: &Vec<u8>, e: usize, link: usize) -> (ending: u8)
    requires
        record_in(old(m)@, e as int),
        link + 8 <= cmds@.len(),
    ensures
        final(m)@ == command_taken(old(m)@, cmds@, e as int, link as int),
        ending == if ((cmds@[link + 7] as int - 1) % 256) as u8 == CMD_MISSION_FAILED || ((cmds@[link + 7] as int - 1) % 256) as u8 == CMD_MISSION_COMPLETE {
            ((cmds@[link + 7] as int - 1) % 256) as u8
        } else {
            0
        },
        final(m)@.len() == old(m)@.len(),
{
    let _len = m.len();
    let _clen = cmds.len();
    let t = read_u8(cmds, link + 7).wrapping_sub(1);
    let target = read_u16(cmds, link + 2);
    let mut ending: u8 = 0;
    if t == CMD_GOTO_POINT {
        write_u8(m, e + P_STATE, 3);
        write_u8(m, e + P_DESIRED, 3);
        let tx: u16 = read_u8(cmds, link + 4) as u16 * 128 + 64;
        let ty: u16 = read_u8(cmds, link + 5) as u16 * 128 + 64;
        let tz: u16 = read_u8(cmds, link + 6) as u16 * 128;
        write_u16(m, e + P_GOTO_X, tx);
        write_u16(m, e + P_GOTO_Y, ty);
        write_u16(m, e + P_GOTO_Z, tz);
    } else if t == CMD_BOARD_VEHICLE {
        if read_u16(m, e + P_VEHICLE) == 0 {
            write_u8(m, e + P_STATE, 5);
            write_u8(m, e + P_DESIRED, 6);
            write_u16(m, e + P_TARGET, target);
        }
    } else if t == CMD_GUARD {
        write_u8(m, e + P_STATE, 7);
        write_u8(m, e + P_DESIRED, 7);
    } else if t == CMD_ENTER_VEHICLE {
        write_u8(m, e + P_STATE, 0xc);
        write_u8(m, e + P_DESIRED, 0xc);
        write_u16(m, e + P_TARGET, target);
    } else if t == CMD_EXIT_VEHICLE {
        write_u8(m, e + P_STATE, 0xd);
        write_u8(m, e + P_DESIRED, 0xd);
        write_u16(m, e + P_TARGET, target);
    } else if t == CMD_GOTO_STRUCTURE {
        write_u8(m, e + P_STATE, 5);
        write_u8(m, e + P_DESIRED, 5);
        write_u16(m, e + P_TARGET, target);
    } else if t == CMD_MISSION_FAILED || t == CMD_MISSION_COMPLETE {
        write_u8(m, e + P_STATE, 0);
        write_u8(m, e + P_DESIRED, 0);
        ending = t;
    } else if t == CMD_GOTO_POINT_PRECISE {
        write_u8(m, e + P_STATE, 0x28);
        write_u8(m, e + P_DESIRED, 0x28);
        let tx: i16 = (read_u8(cmds, link + 4) / 2) as i16;
        let ty: i16 = (read_u8(cmds, link + 5) / 2) as i16;
        let tz: u16 = read_u8(cmds, link + 6) as u16 * 128;
        write_i16(m, e + P_GOTO_X, tx);
        write_i16(m, e + P_GOTO_Y, ty);
        write_u16(m, e + P_GOTO_Z, tz);
    } else if t == CMD_GUARD_AREA {
        write_u16(m, e + P_COMMAND, 0);
        write_u8(m, e + P_STATE, S_GUARD);
    } else if t == CMD_RESEARCH_PICKUP {
        write_u16(m, e + P_TARGET, 0x32);
        write_u8(m, e + P_STATE, 0x2a);
    }
    ending
}

/// The next-command state: the person takes on the next command of its list,
/// unless it has none or commands are paused. A command may end the mission.
pub fn fn_s_person_next_command(s: &mut GameState, e: usize)
    requires
        old(s).wf(),
        record_in(old(s).things@, e as int),
        u16_at(old(s).things@, e + P_COMMAND) != 0 && old(s).data_60b4e == 0 ==> u16_at(old(s).things@, e + P_COMMAND) as int
            + 8 <= old(s).commands@.len(),
    ensures
        final(s).wf(),
        ({
            let m1 = put_u8(old(s).things@, e + P_ANIM_DONE, 0);
            let c = u16_at(old(s).things@, e + P_COMMAND);
            if c == 0 || old(s).data_60b4e != 0 {
                *final(s) == (GameState { things: final(s).things, ..*old(s) }) && final(s).things@ == m1
            } else {
                let mid = GameState { things: final(s).things, ..*old(s) };
                let t = current_command_type(*old(s), e as int);
                &&& final(s).things@ == command_advanced(m1, old(s).commands@, e as int)
                &&& if t == CMD_MISSION_FAILED && !mission_over(old(s).byte_60afc) {
                    mission_ended(mid, *final(s), MISSION_FAILED, SMP_MISSION_FAILED as int)
                } else if t == CMD_MISSION_COMPLETE && !mission_over(old(s).byte_60afc) {
                    mission_ended(mid, *final(s), MISSION_COMPLETE, SMP_MISSION_COMPLETE as int)
                } else {
                    *final(s) == mid
                }
            }
        }),
{
    let _len = s.things.len();
    write_u8(&mut s.things, e + P_ANIM_DONE, 0);
    let link = read_u16(&s.things, e + P_COMMAND) as usize;
    if link == 0 || s.data_60b4e != 0 {
        return;
    }
    let ending = take_command(&mut s.things, &s.commands, e, link);
    let next = read_u16(&s.commands, link);
    if next != 0 {
        write_u16(&mut s.things, e + P_COMMAND, next);
    } else {
        let first = read_u16(&s.things, e + P_COMMANDS_START);
        write_u16(&mut s.things, e + P_COMMAND, first);
    }
    if ending == CMD_MISSION_FAILED {
        level_failed(s);
    } else if ending == CMD_MISSION_COMPLETE {
        level_complete(s);
    }
}

/// Increments a tally, wrapping at 256.
pub open spec fn inc8(v: u8) -> u8 {
    ((v as int + 1) % 256) as u8
}

/// The local player's four lead persons, as offsets `[start, end)`.
pub open spec fn own_squad_start(s: GameState) -> int {
    s.people + s.data_5e551@[s.network_slot as int * 1047] as int * PERSON_SIZE
}

pub open spec fn own_squad_end(s: GameState) -> int {
    own_squad_start(s) + 4 * PERSON_SIZE
}

/// Records who shot the person at `v`. When the shooter is one of the local
/// player's squad, the tally matching the victim's kind counts up. A shooter
/// that is an agent, an enemy or a civilian turns hostile: toward the police
/// when it shot one of them and is not police itself, toward everyone
/// otherwise.
pub fn who_shot_me(s: &mut GameState, v: usize)
    requires
        old(s).wf(),
        record_in(old(s).things@, v as int),
        0 <= old(s).network_slot && old(s).network_slot as int * 1047 < AGENT_TABLE_SIZE,
        u16_at(old(s).things@, v + P_PERSUADER) != 0 ==> record_in(
            old(s).things@,
            u16_at(old(s).things@, v + P_PERSUADER) as int,
        ),
    ensures
        final(s).wf(),
        ({
            let m = old(s).things@;
            let a = u16_at(m, v + P_PERSUADER) as int;
            let vf = m[v + P_FLAGS_1C];
            let cl = m[a + P_FLAGS_1C];
            let ours = own_squad_start(*old(s)) <= a < own_squad_end(*old(s));
            let victim_ours = own_squad_start(*old(s)) <= v < own_squad_end(*old(s));
            if a == 0 {
                *final(s) == *old(s)
            } else {
                &&& final(s).things@ == if cl & 0x1 != 0 || cl & 0x2 != 0 || cl & 0x10 != 0 {
                    if vf & 4 != 0 && cl & 4 == 0 {
                        put_u8(m, a + 0x1d, m[a + 0x1d] | 2)
                    } else {
                        put_u8(m, a + P_FLAGS_1C, cl | 0x40)
                    }
                } else {
                    m
                }
                &&& *final(s) == (GameState {
                    things: final(s).things,
                    data_60af4: if ours && vf & 1 != 0 { inc8(old(s).data_60af4) } else { old(s).data_60af4 },
                    data_60afa: if ours && vf & 1 == 0 && vf & 2 != 0 && victim_ours {
                        inc8(old(s).data_60afa)
                    } else {
                        old(s).data_60afa
                    },
                    data_60af8: if ours && vf & 1 == 0 && vf & 2 != 0 && !victim_ours {
                        inc8(old(s).data_60af8)
                    } else {
                        old(s).data_60af8
                    },
                    data_60af7: if ours && vf & 3 == 0 && vf & 0x10 != 0 {
                        inc8(old(s).data_60af7)
                    } else {
                        old(s).data_60af7
                    },
                    data_60af5: if ours && vf & 3 == 0 && vf & 0x10 == 0 && vf & 4 != 0 {
                        inc8(old(s).data_60af5)
                    } else {
                        old(s).data_60af5
                    },
                    data_60af6: if ours && vf & 3 == 0 && vf & 0x10 == 0 && vf & 4 == 0 && vf & 8 != 0 {
                        inc8(old(s).data_60af6)
                    } else {
                        old(s).data_60af6
                    },
                    ..*old(s)
                })
            }
        }),
{
    let _len = s.things.len();
    let a = read_u16(&s.things, v + P_PERSUADER) as usize;
    if a == 0 {
        return;
    }
    let start_n = s.data_5e551[s.network_slot as usize * 1047] as usize;
    let ps: u128 = s.people as u128 + start_n as u128 * PERSON_SIZE as u128;
    let pe: u128 = ps + 4 * PERSON_SIZE as u128;
    let vf = read_u8(&s.things, v + P_FLAGS_1C);
    if ps <= a as u128 && (a as u128) < pe {
        if (vf & 0x1) != 0 {
            s.data_60af4 = s.data_60af4.wrapping_add(1);
        } else if (vf & 0x2) != 0 {
            if ps <= v as u128 && (v as u128) < pe {
                s.data_60afa = s.data_60afa.wrapping_add(1);
            } else {
                s.data_60af8 = s.data_60af8.wrapping_add(1);
            }
        } else if (vf & 0x10) != 0 {
            s.data_60af7 = s.data_60af7.wrapping_add(1);
        } else if (vf & 0x4) != 0 {
            s.data_60af5 = s.data_60af5.wrapping_add(1);
        } else if (vf & 0x8) != 0 {
            s.data_60af6 = s.data_60af6.wrapping_add(1);
        }
        assert(vf & 3 == 0 <==> (vf & 1 == 0 && vf & 2 == 0)) by (bit_vector);
    }
    let cl = read_u8(&s.things, a + P_FLAGS_1C);
    if (cl & 0x1) != 0 || (cl & 0x2) != 0 || (cl & 0x10) != 0 {
        if (vf & 0x4) != 0 && (cl & 0x4) == 0 {
            let f = read_u8(&s.things, a + 0x1d);
            write_u8(&mut s.things, a + 0x1d, f | 2);
        } else {
            write_u8(&mut s.things, a + P_FLAGS_1C, cl | 0x40);
        }
    }
}

pub const P_NEXT_PASSENGER: usize = 0x22;
pub const P_CMD_SAVED: usize = 0x55;
pub const P_CMD_KEPT: usize = 0x56;
pub const V_FIRST_PASSENGER: usize = 0x1c;

/// The memory once the person at `e` is unlinked from its vehicle's passenger
/// chain: the next passenger takes its place in the chain, and its saved
/// command is restored.
pub open spec fn unlinked_from_vehicle(m: Seq<u8>, e: int) -> Seq<u8> {
    let veh = u16_at(m, e + P_VEHICLE) as int;
    let m2 = put_u16(put_u8(m, e + P_ANIM_DONE, 0), e + P_EFFECTS, 0);
    let nxt = u16_at(m2, e + P_NEXT_PASSENGER) as int;
    let m3 = if nxt != 0 {
        put_u16(m2, nxt + P_VEHICLE, u16_at(m2, e + P_VEHICLE))
    } else {
        m2
    };
    let link_field = if m2[veh + P_TYPE] == 2 { V_FIRST_PASSENGER } else { P_NEXT_PASSENGER };
    let m4 = put_u16(m3, veh + link_field, u16_at(m3, e + P_NEXT_PASSENGER));
    put_u8(m4, e + P_CMD_SAVED, m4[e + P_CMD_KEPT])
}

/// The memory after the person at `e` leaves its vehicle, before it moves on
/// (a person outside any vehicle just moves on).
pub open spec fn left_vehicle(m: Seq<u8>, e: int) -> Seq<u8> {
    if u16_at(m, e + P_VEHICLE) == 0 {
        let m1 = put_u8(m, e + P_ANIM_DONE, 0);
        put_u8(m1, e + P_DESIRED, m1[e + P_STATE])
    } else {
        let m5 = unlinked_from_vehicle(m, e);
        let m6 = put_u16(m5, e + P_VEHICLE, 0);
        let m7 = put_u16(m6, e + P_NEXT_PASSENGER, 0);
        let m8 = put_u8(m7, e + P_ANIM_DONE, 0);
        put_u8(m8, e + P_FLAGS_A, m8[e + P_FLAGS_A] & 0xfe)
    }
}

/// Where the person at `e` is put down when it leaves its vehicle: one unit
/// across in x and y from where it sat.
pub open spec fn exit_position(m: Seq<u8>, e: int) -> Option<(i16, i16, i16)> {
    if u16_at(m, e + P_VEHICLE) == 0 {
        None
    } else {
        let m5 = unlinked_from_vehicle(m, e);
        Some(((i16_at(m5, e + P_X) + 1) as i16, (i16_at(m5, e + P_Y) + 1) as i16, i16_at(m5, e + P_Z) as i16))
    }
}

/// The move-out-of-vehicle state: the person is unlinked from its vehicle's
/// passenger chain and moves on. Returns where the person is to be put on the
/// map, when it was in a vehicle.
pub fn fn_s_person_move_out_of_vehicle(m: &mut Vec<u8>, e: usize) -> (pos: Option<(i16, i16, i16)>)
    requires
        record_in(old(m)@, e as int),
        u16_at(old(m)@, e + P_VEHICLE) != 0 ==> record_in(old(m)@, u16_at(old(m)@, e + P_VEHICLE) as int),
        u16_at(old(m)@, e + P_VEHICLE) != 0 && u16_at(old(m)@, e + P_NEXT_PASSENGER) != 0 ==> record_in(
            old(m)@,
            u16_at(old(m)@, e + P_NEXT_PASSENGER) as int,
        ),
    ensures
        final(m)@ == after_new_state(left_vehicle(old(m)@, e as int), e as int),
        pos == exit_position(old(m)@, e as int),
{
    let _len = m.len();
    let veh = read_u16(m, e + P_VEHICLE) as usize;
    write_u8(m, e + P_ANIM_DONE, 0);
    if veh == 0 {
        let st = read_u8(m, e + P_STATE);
        write_u8(m, e + P_DESIRED, st);
        new_state_person(m, e);
        return None;
    }
    write_u16(m, e + P_EFFECTS, 0);
    let nxt = read_u16(m, e + P_NEXT_PASSENGER) as usize;
    let vtype = read_u8(m, veh + P_TYPE);
    if nxt != 0 {
        let v = read_u16(m, e + P_VEHICLE);
        write_u16(m, nxt + P_VEHICLE, v);
    }
    let link = read_u16(m, e + P_NEXT_PASSENGER);
    if vtype == 2 {
        write_u16(m, veh + V_FIRST_PASSENGER, link);
    } else {
        write_u16(m, veh + P_NEXT_PASSENGER, link);
    }
    let kept = read_u8(m, e + P_CMD_KEPT);
    write_u8(m, e + P_CMD_SAVED, kept);
    assert(m@ == unlinked_from_vehicle(old(m)@, e as int));
    let pos = (
        (read_i16(m, e + P_X) as i32 + 1) as i16,
        (read_i16(m, e + P_Y) as i32 + 1) as i16,
        read_i16(m, e + P_Z),
    );
    write_u16(m, e + P_VEHICLE, 0);
    write_u16(m, e + P_NEXT_PASSENGER, 0);
    let fa = read_u8(m, e + P_FLAGS_A) & 0xfe;
    write_u8(m, e + P_ANIM_DONE, 0);
    write_u8(m, e + P_FLAGS_A, fa);
    new_state_person(m, e);
    Some(pos)
}

/// Whether the direction `angle` (a multiple of a quarter turn) is marked
/// blocked in `blocked`, bit `angle / 64`.
pub open spec fn direction_blocked(blocked: u8, angle: u8) -> bool {
    (blocked >> (angle / 64)) & 1 != 0
}

/// The direction the hug search settles on: the first of the four quarter
/// turns from `start` (turning by +64) that is blocked, or `start` if none is.
pub open spec fn hug_direction(start: u8, blocked: u8, k: int) -> u8
    decreases 4 - k,
{
    if k >= 4 {
        start
    } else if direction_blocked(blocked, ((start as int + k * 64) % 256) as u8) {
        ((start as int + k * 64) % 256) as u8
    } else {
        hug_direction(start, blocked, k + 1)
    }
}

/// The quarter turn before the one nearest to `angle`.
pub open spec fn hug_start(angle: u8) -> u8 {
    (((((angle as int + 0x20) % 256) as u8 & 0xc0) as int - 0x40 + 256) % 256) as u8
}

/// The memory after the quick hug decision for the person at `e`; the
/// distance kept is the one from the person to its hug target.
pub open spec fn hugged(m: Seq<u8>, e: int, arg2: u32, blocked: u8) -> Seq<u8> {
    let a = m[e + P_ANGLE];
    let t = hug_direction(hug_start(a), blocked, 0);
    let dx = (i16_at(m, e + P_GOTO_X) - i16_at(m, e + P_X)) as i16;
    let dz = (i16_at(m, e + P_GOTO_Y) - i16_at(m, e + P_Y)) as i16;
    let m1 = put_u8(m, e + P_HUG_STEPS, 4);
    let m2 = put_u16(m1, e + P_HUG_DIST, rdist(dx, dz) as u16);
    let m3 = put_u8(m2, e + P_HUG_ANGLE, t);
    let m4 = put_u16(m3, e + P_HUG_REF, arg2 as u16);
    if (t as int) < (a as int) {
        put_u8(put_u8(m4, e + P_STATE, 0x0e), e + P_ANGLE, ((t as int + 0x40) % 256) as u8)
    } else {
        put_u8(put_u8(m4, e + P_STATE, 0x0f), e + P_ANGLE, ((t as int - 0x40 + 256) % 256) as u8)
    }
}

/// Searches the four quarter turns from `start` for a blocked direction.
fn hug_search(start: u8, blocked: u8) -> (t: u8)
    ensures
        t == hug_direction(start, blocked, 0),
{
    let mut t: u8 = start;
    let mut k: usize = 0;
    while k < 4
        invariant
            k <= 4,
            t == ((start as int + k * 64) % 256) as u8,
            hug_direction(start, blocked, 0) == hug_direction(start, blocked, k as int),
        ensures
            t == hug_direction(start, blocked, 0),
        decreases 4 - k,
    {
        if ((blocked >> (t / 64)) & 1) != 0 {
            assert(direction_blocked(blocked, t));
            break;
        }
        t = t.wrapping_add(0x40);
        k = k + 1;
    }
    t
}

/// Decides which way the person at `e` hugs a wall: from the quarter turn
/// before its heading it turns by quarter turns until a direction is blocked
/// (`blocked` marks the blocked quarter turns), then walks along that wall,
/// to the left when the wall's direction is less than its heading, to the
/// right otherwise. It keeps the distance from the person to its hug target
/// and the reference value `arg2`.
pub fn quick_decide_on_hug_direction(m: &mut Vec<u8>, e: usize, arg2: u32, blocked: u8)
    requires
        record_in(old(m)@, e as int),
    ensures
        final(m)@ == hugged(old(m)@, e as int, arg2, blocked),
{
    let _len = m.len();
    let raw = read_u8(m, e + P_ANGLE);
    let rounded: u8 = (((raw as u16 + 0x20) % 256) as u8) & 0xc0;
    let start: u8 = ((rounded as u16 + 256 - 0x40) % 256) as u8;
    let t = hug_search(start, blocked);
    let tx = read_i16(m, e + P_GOTO_X);
    let tz = read_i16(m, e + P_GOTO_Y);
    let cx = read_i16(m, e + P_X);
    let cz = read_i16(m, e + P_Y);
    let dist = getrdist((tx as i32 - cx as i32) as i16, (tz as i32 - cz as i32) as i16) as u16;
    write_u8(m, e + P_HUG_STEPS, 4);
    write_u16(m, e + P_HUG_DIST, dist);
    write_u8(m, e + P_HUG_ANGLE, t);
    write_u16(m, e + P_HUG_REF, arg2 as u16);
    if (t as i32) - (raw as i32) < 0 {
        write_u8(m, e + P_STATE, 0x0e);
        write_u8(m, e + P_ANGLE, ((t as u16 + 0x40) % 256) as u8);
    } else {
        write_u8(m, e + P_STATE, 0x0f);
        write_u8(m, e + P_ANGLE, ((t as u16 + 256 - 0x40) % 256) as u8);
    }
}

/// Records on the person at `shooter` that the thing at `entity` shot it,
/// when that thing is linked to another (its word at 0x1c is not 0): the
/// thing's offset, cut to 16 bits, goes into the shooter's word at 0x16.
pub fn set_who_shot_me(m: &mut Vec<u8>, entity: usize, shooter: usize)
    requires
        entity + P_FLAGS_1C + 2 <= old(m)@.len(),
        shooter + P_PERSUADER + 2 <= old(m)@.len(),
    ensures
        u16_at(old(m)@, entity + P_FLAGS_1C) == 0 ==> final(m)@ == old(m)@,
        u16_at(old(m)@, entity + P_FLAGS_1C) != 0 ==> final(m)@ == put_u16(
            old(m)@,
            shooter + P_PERSUADER,
            (entity % 65536) as u16,
        ),
{
    let len = m.len();
    assert(entity + P_FLAGS_1C + 2 <= len && shooter + P_PERSUADER + 2 <= len);
    let link = read_u16(m, entity + P_FLAGS_1C);
    if link == 0 {
        return;
    }
    write_u16(m, shooter + P_PERSUADER, (entity % 65536) as u16);
}

} // verus!
