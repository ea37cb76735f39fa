//! Mission rules: the level's random numbers, failing and completing a
//! mission, the music that danger calls for, and the end-of-level checks.
use vstd::prelude::*;
use crate::mem::{u16_at, i16_at, read_u8, read_u16, read_i16, write_u8, write_u16, put_u8, put_u16};
use crate::state::{GameState, MISSION_COMPLETE, MISSION_FAILED, MISSION_ABORTED, MISSION_RUNNING, PERSON_SIZE, PLAYER_SLOTS, OBJECTIVE_COUNT, AGENT_TABLE_SIZE, MISSION_STATS_SIZE};
use crate::sound::{SetBFSampleStatus, status_after_request};
use crate::audio::{BFMidiStartMusic, BFMidiIsMusicPlaying, song_after_start, AudioState};

verus! {

/// The remainder of `a` divided by `d` as the processor's signed division
/// gives it: its sign is that of `a`.
pub open spec fn trunc_rem(a: int, d: int) -> int {
    let ad = if d < 0 { -d } else { d };
    if a >= 0 {
        a % ad
    } else {
        -((-a) % ad)
    }
}

/// The level seed after one step of the generator.
pub open spec fn next_seed(seed: u16) -> u16 {
    ((seed as int * 0x24a1 + 0x24df) % 65536) as u16
}

/// The value `random(n)` returns from `seed`: the new seed, read as a signed
/// 16-bit number, modulo `n` taken as a signed 32-bit number.
pub open spec fn random_value(seed: u16, n: u32) -> u32 {
    trunc_rem(crate::mem::signed16(next_seed(seed)), n as i32 as int) as u32
}

/// Steps the level's random number generator and returns the new seed modulo `n`.
pub fn random(s: &mut GameState, n: u32) -> (r: u32)
    requires
        n as i32 != 0,
    ensures
        r == random_value(old(s).level_seed, n),
        *final(s) == (GameState { level_seed: next_seed(old(s).level_seed), ..*old(s) }),
{
    let seed: u32 = ((s.level_seed as u32) * 0x24a1 + 0x24df) % 65536;
    s.level_seed = seed as u16;
    let a: i64 = if seed < 32768 { seed as i64 } else { seed as i64 - 65536 };
    let d: i64 = n as i32 as i64;
    let ad: u64 = if d < 0 { (-d) as u64 } else { d as u64 };
    let ua: u64 = if a >= 0 { a as u64 } else { (-a) as u64 };
    let m: u64 = ua % ad;
    let res: i64 = if a >= 0 { m as i64 } else { -(m as i64) };
    res as u32
}

/// Marks the mission as complete.
pub fn set_mission_complete(s: &mut GameState)
    ensures
        *final(s) == (GameState { byte_60afc: old(s).byte_60afc | MISSION_COMPLETE, ..*old(s) }),
{
    s.byte_60afc = s.byte_60afc | MISSION_COMPLETE;
}

/// The mission is over: complete or failed.
pub open spec fn mission_over(afc: u8) -> bool {
    afc & (MISSION_COMPLETE | MISSION_FAILED) != 0
}

/// The state after the mission ends with the flag `flag` and the sample
/// `sample` requested at full loudness.
pub open spec fn mission_ended(s: GameState, fs: GameState, flag: u8, sample: int) -> bool {
    &&& fs == (GameState {
        sound: fs.sound,
        byte_60afc: s.byte_60afc | flag,
        data_5532c: 0x10,
        data_5c34c: s.debug_k,
        data_5c354: 1,
        ..s
    })
    &&& fs.sound.smptable@ == s.sound.smptable@
    &&& fs.sound.smpdata == s.sound.smpdata
    &&& fs.sound.byte_5bbe8 == s.sound.byte_5bbe8
    &&& fs.sound.byte_5bbe9 == s.sound.byte_5bbe9
    &&& fs.sound.sample_status@ == s.sound.sample_status@.update(
        sample,
        status_after_request(s.sound.smptable@[sample], s.sound.sample_status@[sample], 0x7f),
    )
}

pub const SMP_MISSION_FAILED: u8 = 0x18;
pub const SMP_MISSION_COMPLETE: u8 = 0x17;

/// Fails the mission, unless it is already over: sets the failed flag, asks
/// for a full redraw, requests the failure sample and the end music.
pub fn level_failed(s: &mut GameState)
    requires
        old(s).wf(),
    ensures
        final(s).wf(),
        mission_over(old(s).byte_60afc) ==> *final(s) == *old(s),
        !mission_over(old(s).byte_60afc) ==> mission_ended(*old(s), *final(s), MISSION_FAILED, SMP_MISSION_FAILED as int),
{
    let ah = s.byte_60afc;
    if (ah & (MISSION_COMPLETE | MISSION_FAILED)) != 0 {
        return;
    }
    s.data_5532c = 0x10;
    let dl = ah | MISSION_FAILED;
    SetBFSampleStatus(&mut s.sound, SMP_MISSION_FAILED, 0x7f);
    s.byte_60afc = dl;
    s.data_5c34c = s.debug_k;
    s.data_5c354 = 1;
}

/// Completes the mission, unless it is already over: sets the complete flag,
/// asks for a full redraw, requests the success sample and the end music.
pub fn level_complete(s: &mut GameState)
    requires
        old(s).wf(),
    ensures
        final(s).wf(),
        mission_over(old(s).byte_60afc) ==> *final(s) == *old(s),
        !mission_over(old(s).byte_60afc) ==> mission_ended(*old(s), *final(s), MISSION_COMPLETE, SMP_MISSION_COMPLETE as int),
{
    let afc = s.byte_60afc;
    if (afc & (MISSION_COMPLETE | MISSION_FAILED)) != 0 {
        return;
    }
    assert((afc | 2u8) | 2u8 == afc | 2u8) by (bit_vector);
    set_mission_complete(s);
    s.data_5532c = 0x10;
    s.byte_60afc = s.byte_60afc | MISSION_COMPLETE;
    SetBFSampleStatus(&mut s.sound, SMP_MISSION_COMPLETE, 0x7f);
    s.data_5c34c = s.debug_k;
    s.data_5c354 = 1;
}

/// The magnitude of a 16-bit signed value.
pub open spec fn abs16(v: i16) -> int {
    if v < 0 {
        -(v as int)
    } else {
        v as int
    }
}

/// The distance the game uses for proximity: the sum of the magnitudes of the
/// two deltas.
pub open spec fn rdist(dx: i16, dz: i16) -> int {
    abs16(dx) + abs16(dz)
}

/// Distance for proximity checks between points `dx` and `dz` apart.
pub fn getrdist(dx: i16, dz: i16) -> (r: u32)
    ensures
        r as int == rdist(dx, dz),
{
    let x: u32 = if dx < 0 { (-(dx as i32)) as u32 } else { dx as u32 };
    let z: u32 = if dz < 0 { (-(dz as i32)) as u32 } else { dz as u32 };
    x + z
}

/// Offsets of fields of a person record.
pub const P_X: usize = 0x04;
pub const P_Y: usize = 0x06;
pub const P_Z: usize = 0x08;
pub const P_FLAGS_B: usize = 0x0b;
pub const P_FLAGS_1C: usize = 0x1c;
pub const P_FLAGS_1D: usize = 0x1d;
pub const P_VEHICLE: usize = 0x20;

/// Index, in the agent tables, of the first agent of `slot`.
pub open spec fn agent_table_index(slot: i16) -> int {
    ((slot as i32 as u32) as int * 92) % 0x1_0000_0000
}

/// The person index of the local player's lead agent.
pub open spec fn own_agent(s: GameState) -> int {
    let i = agent_table_index(s.network_slot);
    if i < AGENT_TABLE_SIZE {
        s.data_5e552@[i] as int + s.data_5e551@[i] as int
    } else {
        0
    }
}

/// The first person index of player `e`'s agents.
pub open spec fn first_agent_of(s: GameState, e: int) -> int {
    s.data_5e551@[e * 92] as int
}

/// Person `k` is on the map and alive.
pub open spec fn person_active(s: GameState, k: int) -> bool {
    let p = s.person_offset(k);
    &&& s.things@[p + P_FLAGS_1D] & 4 != 0
    &&& s.things@[p + P_FLAGS_B] & 1 == 0
}

/// Person `k` of another player is active, on foot, and within 0x1000 of the
/// local player's lead agent `own`.
pub open spec fn person_threatens(s: GameState, own: int, k: int) -> bool {
    let m = s.things@;
    let o = s.person_offset(own);
    let p = s.person_offset(k);
    &&& person_active(s, k)
    &&& u16_at(m, p + P_VEHICLE) == 0
    &&& rdist(
        (i16_at(m, o + P_X) - i16_at(m, p + P_X)) as i16,
        (i16_at(m, o + P_Y) - i16_at(m, p + P_Y)) as i16,
    ) < 0x1000
}

/// Person `k`, one of the eight persons of player `e`, threatens the lead
/// agent `own`.
pub open spec fn threat_by(s: GameState, own: int, e: int, k: int) -> bool {
    &&& e != s.network_slot
    &&& first_agent_of(s, e) <= k < first_agent_of(s, e) + 8
    &&& person_threatens(s, own, k)
}

/// An agent of another player threatens the local player's lead agent.
pub open spec fn danger_near(s: GameState) -> bool {
    exists|e: int, k: int| 0 <= e < PLAYER_SLOTS && #[trigger] threat_by(s, own_agent(s), e, k)
}

/// The song the danger check asks for: the combat song when the local lead
/// agent is active and threatened, the calm song otherwise.
pub open spec fn danger_song(s: GameState) -> u16 {
    if person_active(s, own_agent(s)) && danger_near(s) {
        2
    } else {
        1
    }
}

/// The mission has ended and its end music is requested.
pub open spec fn end_music_pending(s: GameState) -> bool {
    (s.byte_60afc & MISSION_FAILED != 0 || s.byte_60afc & MISSION_COMPLETE != 0) && s.data_5c354 == 1
}

/// The end music that is requested: failure music takes precedence.
pub open spec fn end_song(s: GameState) -> u16 {
    if s.byte_60afc & MISSION_FAILED != 0 && s.data_5c354 == 1 {
        4
    } else {
        5
    }
}

/// The persons the danger check reads lie inside the level memory (the lead
/// agent's index may be below 0, and its record lie before the persons).
pub open spec fn danger_check_in_memory(s: GameState) -> bool {
    &&& s.record_fits(s.person_offset(own_agent(s)))
    &&& forall|e: int| 0 <= e < PLAYER_SLOTS ==> #[trigger] s.person_in_memory(first_agent_of(s, e) + 7)
}

/// Whether person `k` lies wholly inside the level memory.
pub fn person_fits(s: &GameState, k: i64) -> (r: bool)
    ensures
        r == s.person_in_memory(k as int),
{
    if k < 0 {
        return false;
    }
    assert((k as int) * (PERSON_SIZE as int) <= 0x8000_0000_0000_0000 * 0x5c) by (nonlinear_arith)
        requires
            0 <= k <= 0x7fff_ffff_ffff_ffff,
    ;
    (s.people as i128) + (k as i128) * (PERSON_SIZE as i128) + (PERSON_SIZE as i128) <= s.things.len() as i128
}

/// Whether the persons the danger check reads lie in the level memory.
pub fn danger_check_fits(s: &GameState) -> (r: bool)
    requires
        s.wf(),
    ensures
        r == danger_check_in_memory(*s),
{
    let slot_idx: u32 = ((s.network_slot as i32 as u32) as u64 * 92 % 0x1_0000_0000) as u32;
    let own: i64 = if (slot_idx as usize) < AGENT_TABLE_SIZE {
        s.data_5e552[slot_idx as usize] as i64 + s.data_5e551[slot_idx as usize] as i64
    } else {
        0
    };
    let lead: i128 = (s.people as i128) + (own as i128) * (PERSON_SIZE as i128);
    if lead < 0 || lead + (PERSON_SIZE as i128) > s.things.len() as i128 {
        return false;
    }
    let mut e: usize = 0;
    while e < PLAYER_SLOTS
        invariant
            s.wf(),
            e <= PLAYER_SLOTS,
            forall|j: int| 0 <= j < e ==> #[trigger] s.person_in_memory(first_agent_of(*s, j) + 7),
        decreases PLAYER_SLOTS - e,
    {
        if !person_fits(s, s.data_5e551[e * 92] as i64 + 7) {
            assert(!s.person_in_memory(first_agent_of(*s, e as int) + 7));
            return false;
        }
        e = e + 1;
    }
    true
}

/// Chooses the music: once the mission has ended, its end music (the request
/// is dropped when the song does not start); otherwise the combat song when an
/// agent of another player is near the local lead agent, else the calm song.
pub fn check_for_danger(s: &mut GameState)
    requires
        old(s).wf(),
        !end_music_pending(*old(s)) ==> danger_check_in_memory(*old(s)),
    ensures
        end_music_pending(*old(s)) ==> {
            let song = song_after_start(old(s).audio, end_song(*old(s)));
            &&& *final(s) == (GameState {
                audio: AudioState { song_currently_playing: song, ..old(s).audio },
                data_5c354: if song > 0 { old(s).data_5c354 } else { 0 },
                ..*old(s)
            })
        },
        !end_music_pending(*old(s)) ==> *final(s) == (GameState {
            audio: AudioState { song_currently_playing: song_after_start(old(s).audio, danger_song(*old(s))), ..old(s).audio },
            ..*old(s)
        }),
{
    if (s.byte_60afc & MISSION_FAILED) != 0 && s.data_5c354 == 1 {
        BFMidiStartMusic(&mut s.audio, 4);
        if !BFMidiIsMusicPlaying(&s.audio) {
            s.data_5c354 = 0;
        }
        return;
    }
    if (s.byte_60afc & MISSION_COMPLETE) != 0 && s.data_5c354 == 1 {
        BFMidiStartMusic(&mut s.audio, 5);
        if !BFMidiIsMusicPlaying(&s.audio) {
            s.data_5c354 = 0;
        }
        return;
    }
    let ghost s0 = *s;
    let mut danger = false;
    let slot_idx: u32 = ((s.network_slot as i32 as u32) as u64 * 92 % 0x1_0000_0000) as u32;
    let own: i64 = if (slot_idx as usize) < AGENT_TABLE_SIZE {
        let v = s.data_5e552[slot_idx as usize];
        let a = s.data_5e551[slot_idx as usize];
        v as i64 + a as i64
    } else {
        0
    };
    let tl = s.things.len();
    assert(s0.record_fits(s0.person_offset(own as int)));
    let o: usize = if own >= 0 {
        s.people + (own as usize) * PERSON_SIZE
    } else {
        s.people - ((-own) as usize) * PERSON_SIZE
    };
    assert(o + PERSON_SIZE <= tl);
    if (read_u8(&s.things, o + P_FLAGS_1D) & 4) != 0 && (read_u8(&s.things, o + P_FLAGS_B) & 1) == 0 {
        let ox = read_i16(&s.things, o + P_X);
        let oy = read_i16(&s.things, o + P_Y);
        let mut e: usize = 0;
        while e < PLAYER_SLOTS
            invariant
                *s == s0,
                s0.wf(),
                danger_check_in_memory(s0),
                own == own_agent(s0),
                o == s0.person_offset(own as int),
                ox as int == i16_at(s0.things@, o + P_X),
                oy as int == i16_at(s0.things@, o + P_Y),
                tl == s0.things@.len(),
                e <= PLAYER_SLOTS,
                danger == exists|e2: int, k: int| 0 <= e2 < e && #[trigger] threat_by(s0, own as int, e2, k),
            decreases PLAYER_SLOTS - e,
        {
            if e as i32 != s.network_slot as i32 {
                let base = s.data_5e551[e * 92] as usize;
                assert(s0.person_in_memory(first_agent_of(s0, e as int) + 7));
                let mut k: usize = base;
                let mut found = false;
                while k < base + 8
                    invariant_except_break
                        !found,
                    invariant
                        *s == s0,
                        s0.wf(),
                        own == own_agent(s0),
                        o == s0.person_offset(own as int),
                        ox as int == i16_at(s0.things@, o + P_X),
                        oy as int == i16_at(s0.things@, o + P_Y),
                        e < PLAYER_SLOTS,
                        base == first_agent_of(s0, e as int),
                        e != s0.network_slot,
                        s0.person_in_memory(base + 7),
                        tl == s0.things@.len(),
                        base <= k <= base + 8,
                        forall|k2: int| base <= k2 < k ==> !#[trigger] person_threatens(s0, own as int, k2),
                    ensures
                        found ==> threat_by(s0, own as int, e as int, k as int),
                        !found ==> forall|k2: int| base <= k2 < base + 8 ==> !#[trigger] person_threatens(s0, own as int, k2),
                    decreases base + 8 - k,
                {
                    assert(s0.person_in_memory(k as int)) by {
                        assert(s0.person_offset(k as int) <= s0.person_offset(base + 7));
                    }
                    let p = s.people + k * PERSON_SIZE;
                    assert(p + PERSON_SIZE <= tl);
                    if (read_u8(&s.things, p + P_FLAGS_1D) & 4) != 0 && (read_u8(&s.things, p + P_FLAGS_B) & 1) == 0
                        && read_u16(&s.things, p + P_VEHICLE) == 0 {
                        let dy: i32 = oy as i32 - read_i16(&s.things, p + P_Y) as i32;
                        let dx: i32 = ox as i32 - read_i16(&s.things, p + P_X) as i32;
                        let dist = getrdist(dx as i16, dy as i16);
                        if dist < 0x1000 {
                            assert(person_active(s0, k as int));
                            assert(person_threatens(s0, own as int, k as int));
                            assert(threat_by(s0, own as int, e as int, k as int));
                            found = true;
                            break;
                        }
                    }
                    k = k + 1;
                }
                if found {
                    danger = true;
                } else {
                    assert forall|k2: int| !#[trigger] threat_by(s0, own as int, e as int, k2) by {
                        if base <= k2 < base + 8 {
                            assert(!person_threatens(s0, own as int, k2));
                        }
                    }
                }
            }
            e = e + 1;
        }
        assert(danger == danger_near(s0));
    }
    if danger {
        BFMidiStartMusic(&mut s.audio, 2);
    } else {
        BFMidiStartMusic(&mut s.audio, 1);
    }
}

/// Number of the persons `0..n` whose byte at `field` has a bit of `mask` set.
pub open spec fn count_persons_with(s: GameState, n: int, field: int, mask: u8) -> int
    decreases n,
{
    if n <= 0 {
        0
    } else {
        count_persons_with(s, n - 1, field, mask) + if s.things@[s.person_offset(n - 1) + field] & mask != 0 {
            1int
        } else {
            0int
        }
    }
}

/// Number of the local player's persons that the end-of-level check counts:
/// its agent count (from the agent table, 0 when the slot is out of range) plus four.
pub open spec fn own_person_count(s: GameState) -> int {
    let slot = s.network_slot as int;
    (if 0 <= slot < AGENT_TABLE_SIZE { s.data_5e551@[slot] as int } else { 0int }) + 4
}

pub const OBJ_PROTECT: u16 = 1;
pub const OBJ_KILL: u16 = 2;

/// Offset in the level memory of the target of objective `i`.
pub open spec fn objective_target(s: GameState, i: int) -> int {
    s.data_9be40@[i] as int
}

/// The level memory once the targets of the kill objectives before `i` are
/// marked as objectives.
pub open spec fn objectives_marked(s: GameState, i: int) -> Seq<u8>
    decreases i,
{
    if i <= 0 {
        s.things@
    } else {
        let m = objectives_marked(s, i - 1);
        if s.data_9be3e@[i - 1] == OBJ_KILL {
            let o = objective_target(s, i - 1) + P_FLAGS_1C;
            m.update(o, m[o] | 0x20)
        } else {
            m
        }
    }
}

/// The target of a kill objective before `i` was found dead when it was checked.
pub open spec fn kill_target_lost(s: GameState, i: int) -> bool {
    exists|j: int|
        0 <= j < i && s.data_9be3e@[j] == OBJ_KILL && #[trigger] objectives_marked(s, j)[objective_target(s, j) + P_FLAGS_B] & 1 != 0
}

/// The objective table after the check: protect objectives read 1, kill
/// objectives 0, the others are left.
pub open spec fn objective_after_check(t: u16, v: u32) -> u32 {
    if t == OBJ_PROTECT {
        1
    } else if t == OBJ_KILL {
        0
    } else {
        v
    }
}

/// The records of the local player's persons and of the kill targets lie in
/// the level memory.
pub open spec fn end_check_in_memory(s: GameState) -> bool {
    &&& forall|k: int| 0 <= k < own_person_count(s) ==> #[trigger] s.person_in_memory(k)
    &&& forall|i: int|
        0 <= i < OBJECTIVE_COUNT && s.data_9be3e@[i] == OBJ_KILL ==> objective_target(s, i) + P_FLAGS_1D
            <= #[trigger] s.things@.len()
}

/// Whether the persons and objective targets the end-of-level check reads lie
/// in the level memory.
pub fn end_check_fits(s: &GameState) -> (r: bool)
    requires
        s.wf(),
    ensures
        r == end_check_in_memory(*s),
{
    let slot = s.network_slot;
    let count: i64 = (if 0 <= slot && (slot as usize) < AGENT_TABLE_SIZE { s.data_5e551[slot as usize] as i64 } else { 0 }) + 4;
    let mut k: i64 = 0;
    while k < count
        invariant
            0 <= k <= count,
            count == own_person_count(*s),
            forall|j: int| 0 <= j < k ==> #[trigger] s.person_in_memory(j),
        decreases count - k,
    {
        if !person_fits(s, k) {
            return false;
        }
        k = k + 1;
    }
    let mut i: usize = 0;
    while i < OBJECTIVE_COUNT
        invariant
            s.wf(),
            i <= OBJECTIVE_COUNT,
            forall|j: int| 0 <= j < own_person_count(*s) ==> #[trigger] s.person_in_memory(j),
            forall|j: int|
                0 <= j < i && s.data_9be3e@[j] == OBJ_KILL ==> objective_target(*s, j) + P_FLAGS_1D <= #[trigger] s.things@.len(),
        decreases OBJECTIVE_COUNT - i,
    {
        if s.data_9be3e[i] == OBJ_KILL && s.data_9be40[i] as usize + P_FLAGS_1D > s.things.len() {
            return false;
        }
        i = i + 1;
    }
    true
}

/// The end-of-level check, once the pause key is released. In a network game
/// a lone player's slot is marked finished. In a single game: a mission over
/// stays as it is; the escape key aborts it; when all the local player's
/// persons on the map are dead the mission fails; otherwise the objectives are
/// checked, and a dead kill target fails the mission.
pub fn check_end_level(s: &mut GameState, key_on: &[u8])
    requires
        old(s).wf(),
        key_on@.len() == 256,
        old(s).is_multiplayer_game == 0 && !mission_over(old(s).byte_60afc) && key_on@[1] == 0 ==> end_check_in_memory(*old(s)),
    ensures
        final(s).wf(),
        old(s).is_multiplayer_game != 0 ==> *final(s) == (GameState {
            data_605e1: final(s).data_605e1,
            ..*old(s)
        }) && final(s).data_605e1@ == if old(s).network_number_of_slots <= 1 && 0 <= old(s).network_slot < PLAYER_SLOTS {
            old(s).data_605e1@.update(old(s).network_slot as int, 2)
        } else {
            old(s).data_605e1@
        },
        old(s).is_multiplayer_game == 0 && mission_over(old(s).byte_60afc) ==> *final(s) == *old(s),
        old(s).is_multiplayer_game == 0 && !mission_over(old(s).byte_60afc) && key_on@[1] != 0 ==> *final(s) == (
        GameState { byte_60afc: (old(s).byte_60afc | MISSION_ABORTED) & !MISSION_RUNNING, ..*old(s) }),
        old(s).is_multiplayer_game == 0 && !mission_over(old(s).byte_60afc) && key_on@[1] == 0 ==> {
            let n = own_person_count(*old(s));
            if count_persons_with(*old(s), n, P_FLAGS_1D as int, 4) == count_persons_with(*old(s), n, P_FLAGS_B as int, 1) {
                mission_ended(*old(s), *final(s), MISSION_FAILED, SMP_MISSION_FAILED as int)
            } else {
                let mid = GameState {
                    things: final(s).things,
                    level_objectives: final(s).level_objectives,
                    ..*old(s)
                };
                &&& final(s).things@ == objectives_marked(*old(s), OBJECTIVE_COUNT as int)
                &&& final(s).level_objectives@.len() == OBJECTIVE_COUNT
                &&& forall|i: int|
                    0 <= i < OBJECTIVE_COUNT ==> #[trigger] final(s).level_objectives@[i] == objective_after_check(
                        old(s).data_9be3e@[i],
                        old(s).level_objectives@[i],
                    )
                &&& if kill_target_lost(*old(s), OBJECTIVE_COUNT as int) {
                    mission_ended(mid, *final(s), MISSION_FAILED, SMP_MISSION_FAILED as int)
                } else {
                    *final(s) == mid
                }
            }
        },
{
    if s.is_multiplayer_game != 0 {
        if s.network_number_of_slots <= 1 {
            if 0 <= s.network_slot && (s.network_slot as usize) < PLAYER_SLOTS {
                let slot = s.network_slot as usize;
                s.data_605e1.set(slot, 2);
            }
        }
        return;
    }
    let afc = s.byte_60afc;
    if (afc & (MISSION_COMPLETE | MISSION_FAILED)) != 0 {
        return;
    }
    if key_on[1] != 0 {
        s.byte_60afc = (afc | MISSION_ABORTED) & !MISSION_RUNNING;
        return;
    }
    let ghost s0 = *s;
    let tl = s.things.len();
    let agent_count: usize = if 0 <= s.network_slot && (s.network_slot as usize) < AGENT_TABLE_SIZE {
        s.data_5e551[s.network_slot as usize] as usize
    } else {
        0
    };
    let n = agent_count + 4;
    let mut alive: usize = 0;
    let mut dead: usize = 0;
    let mut k: usize = 0;
    while k < n
        invariant
            *s == s0,
            s0.wf(),
            end_check_in_memory(s0),
            n == own_person_count(s0),
            tl == s0.things@.len(),
            k <= n,
            alive as int == count_persons_with(s0, k as int, P_FLAGS_1D as int, 4),
            dead as int == count_persons_with(s0, k as int, P_FLAGS_B as int, 1),
            alive <= k,
            dead <= k,
        decreases n - k,
    {
        assert(s0.person_in_memory(k as int));
        let p = s.people + k * PERSON_SIZE;
        if (read_u8(&s.things, p + P_FLAGS_1D) & 4) != 0 {
            alive = alive + 1;
        }
        if (read_u8(&s.things, p + P_FLAGS_B) & 1) != 0 {
            dead = dead + 1;
        }
        k = k + 1;
    }
    if alive == dead {
        level_failed(s);
        return;
    }
    let mut failed = false;
    let mut i: usize = 0;
    while i < OBJECTIVE_COUNT
        invariant
            s0.wf(),
            s.wf(),
            end_check_in_memory(s0),
            i <= OBJECTIVE_COUNT,
            s.things@ == objectives_marked(s0, i as int),
            s.things@.len() == s0.things@.len(),
            forall|j: int|
                0 <= j < i ==> #[trigger] s.level_objectives@[j] == objective_after_check(s0.data_9be3e@[j], s0.level_objectives@[j]),
            forall|j: int| i <= j < OBJECTIVE_COUNT ==> #[trigger] s.level_objectives@[j] == s0.level_objectives@[j],
            failed == kill_target_lost(s0, i as int),
            *s == (GameState { things: s.things, level_objectives: s.level_objectives, ..s0 }),
        decreases OBJECTIVE_COUNT - i,
    {
        let t = s.data_9be3e[i];
        if t == OBJ_PROTECT {
            s.level_objectives.set(i, 1);
        } else if t == OBJ_KILL {
            let target = s.data_9be40[i] as usize;
            let f = read_u8(&s.things, target + P_FLAGS_1C);
            write_u8(&mut s.things, target + P_FLAGS_1C, f | 0x20);
            if (read_u8(&s.things, target + P_FLAGS_B) & 1) != 0 {
                failed = true;
            }
            s.level_objectives.set(i, 0);
        }
        proof {
            if !failed {
                assert forall|j: int| 0 <= j < i + 1 && s0.data_9be3e@[j] == OBJ_KILL implies !(#[trigger] objectives_marked(s0, j)[objective_target(s0, j) + P_FLAGS_B] & 1 != 0) by {
                    if j < i {
                        assert(!kill_target_lost(s0, i as int));
                    }
                }
            } else if !kill_target_lost(s0, i as int) {
                assert(objectives_marked(s0, i as int + 1)[objective_target(s0, i as int) + P_FLAGS_B] & 1 != 0);
            }
        }
        i = i + 1;
    }
    assert(s.level_objectives@.len() == OBJECTIVE_COUNT);
    if failed {
        level_failed(s);
    }
}

/// Clears the tallies of the mission and puts the player's options back to
/// their defaults, with the mission running.
pub fn reset_mission_info(s: &mut GameState)
    requires
        old(s).wf(),
    ensures
        final(s).wf(),
        *final(s) == (GameState {
            data_60a7c: final(s).data_60a7c,
            data_60674: final(s).data_60674,
            data_60af0: 0,
            data_60af4: 0,
            data_60af5: 0,
            data_60af6: 0,
            data_60af7: 0,
            data_60af8: 0,
            data_60af9: 0,
            data_60afa: 0,
            byte_60afc: MISSION_RUNNING,
            data_60afd: 0,
            data_60afe: 0,
            a11: 0,
            data_60b06: 0,
            data_60afb: 0,
            sound_active: 1,
            music_active: 1,
            scanner_pulse: 1,
            game_speed: 7,
            data_60b32: 0,
            data_5532c: 0x10,
            data_5532e: 0,
            data_60ae8: 0,
            ..*old(s)
        }),
        forall|i: int| 0 <= i < PLAYER_SLOTS ==> #[trigger] final(s).data_60a7c@[i] == 0,
        forall|i: int| 0 <= i < MISSION_STATS_SIZE ==> #[trigger] final(s).data_60674@[i] == 0,
{
    s.data_60af0 = 0;
    s.data_60af4 = 0;
    s.data_60af5 = 0;
    s.data_60af6 = 0;
    s.data_60af7 = 0;
    s.data_60af8 = 0;
    s.data_60af9 = 0;
    s.data_60afa = 0;
    s.byte_60afc = MISSION_RUNNING;
    s.data_60afd = 0;
    s.data_60afe = 0;
    s.a11 = 0;
    s.data_60b06 = 0;
    s.data_60afb = 0;
    s.sound_active = 1;
    s.music_active = 1;
    s.scanner_pulse = 1;
    s.game_speed = 7;
    s.data_60b32 = 0;
    s.data_5532c = 0x10;
    s.data_5532e = 0;
    s.data_60a7c = vec![0u32; PLAYER_SLOTS];
    s.data_60674 = vec![0u8; MISSION_STATS_SIZE];
    s.data_60ae8 = 0;
}

/// The credits an agent brings back, from its type flags; `None` when it
/// brings none.
pub open spec fn agent_bonus(m: Seq<u8>, p: int) -> Option<u32> {
    let ch = m[p + P_FLAGS_1C];
    if ch & 0x01 != 0 {
        Some(0x32)
    } else if ch & 0x08 != 0 {
        Some(0x96)
    } else if ch & 0x04 != 0 {
        Some(0x96)
    } else if ch & 0x10 != 0 {
        Some(0x12c)
    } else if ch & 0x02 != 0 {
        let v = i16_at(m, p + P_ENERGY);
        Some(if v >= 0 { v as u32 } else { 0 })
    } else {
        None
    }
}

pub const P_ENERGY: usize = 0x14;

/// The person whose team slot `j` of player `slot` names, when it is not empty.
pub open spec fn team_person(s: GameState, slot: int, j: int) -> int {
    s.data_5e551@[slot] as int + s.data_5e5c0@[slot * 92 + j] as int - 1
}

/// The level memory, credits and tally after the first `j` team slots of
/// player `slot` are carried back: each living agent in a vehicle pays its
/// bonus and leaves the vehicle.
pub open spec fn transfer_fold(s: GameState, slot: int, j: int) -> (Seq<u8>, u32, u8)
    decreases j,
{
    if j <= 0 {
        (s.things@, s.players@[slot], s.data_60afd)
    } else {
        let prev = transfer_fold(s, slot, j - 1);
        let m = prev.0;
        let p = s.person_offset(team_person(s, slot, j - 1));
        if s.data_5e5c0@[slot * 92 + j - 1] == 0 || m[p + P_FLAGS_B] & 1 != 0 || u16_at(m, p + P_VEHICLE) == 0 {
            prev
        } else {
            match agent_bonus(m, p) {
                None => prev,
                Some(b) => (
                    put_u16(m, p + P_VEHICLE, 0),
                    ((prev.1 as int + b as int) % 0x1_0000_0000) as u32,
                    ((prev.2 as int + 1) % 256) as u8,
                ),
            }
        }
    }
}

/// Number of team slots of player `slot` that the transfer goes through: its
/// agent count, cut where the team table ends.
pub open spec fn transfer_count(s: GameState, slot: int) -> int {
    let c = s.data_5e551@[slot] as int;
    let lim = 512 - slot * 92;
    if lim < 0 {
        0
    } else if c < lim {
        c
    } else {
        lim
    }
}

/// The persons the transfer reads lie in the level memory.
pub open spec fn transfer_in_memory(s: GameState, slot: int) -> bool {
    forall|j: int|
        0 <= j < transfer_count(s, slot) && s.data_5e5c0@[slot * 92 + j] != 0 ==> #[trigger] s.person_in_memory(
            team_person(s, slot, j),
        )
}

/// Whether the persons the transfer of `slot`'s agents reads lie in the level
/// memory.
pub fn transfer_fits(s: &GameState, slot: usize) -> (r: bool)
    requires
        s.wf(),
        slot < PLAYER_SLOTS,
    ensures
        r == transfer_in_memory(*s, slot as int),
{
    let c = s.data_5e551[slot] as usize;
    let n: usize = if slot * 92 >= 512 {
        0
    } else {
        let lim: usize = 512 - slot * 92;
        if c < lim { c } else { lim }
    };
    let mut j: usize = 0;
    while j < n
        invariant
            s.wf(),
            slot < PLAYER_SLOTS,
            n == transfer_count(*s, slot as int),
            n > 0 ==> slot * 92 + n <= 512,
            j <= n,
            forall|i: int|
                0 <= i < j && s.data_5e5c0@[slot * 92 + i] != 0 ==> #[trigger] s.person_in_memory(team_person(*s, slot as int, i)),
        decreases n - j,
    {
        let t = s.data_5e5c0[slot * 92 + j];
        if t != 0 && !person_fits(s, s.data_5e551[slot] as i64 + t as i64 - 1) {
            assert(!s.person_in_memory(team_person(*s, slot as int, j as int)));
            return false;
        }
        j = j + 1;
    }
    true
}

/// `n` is `o` after the agents of `slot` are carried back into the player's
/// roster: in a single-player game with a slot in range, the level memory,
/// the slot's credits and the tally become what the transfer gives;
/// otherwise nothing changes.
pub open spec fn people_transferred(o: GameState, n: GameState, slot: i16) -> bool {
    if o.is_multiplayer_game != 0 || slot < 0 || slot >= PLAYER_SLOTS {
        n == o
    } else {
        let r = transfer_fold(o, slot as int, transfer_count(o, slot as int));
        &&& n.things@ == r.0
        &&& n.players@ == o.players@.update(slot as int, r.1)
        &&& n == (GameState { things: n.things, players: n.players, data_60afd: r.2, ..o })
    }
}

/// After a single-player mission, carries the agents of `slot` that sit in
/// vehicles back into the player's roster, paying each one's bonus.
pub fn transfer_people_into_player(s: &mut GameState, slot: i16)
    requires
        old(s).wf(),
        old(s).is_multiplayer_game == 0 && 0 <= slot < PLAYER_SLOTS ==> transfer_in_memory(*old(s), slot as int),
    ensures
        final(s).wf(),
        old(s).is_multiplayer_game != 0 || slot < 0 || slot >= PLAYER_SLOTS ==> *final(s) == *old(s),
        old(s).is_multiplayer_game == 0 && 0 <= slot < PLAYER_SLOTS ==> {
            let r = transfer_fold(*old(s), slot as int, transfer_count(*old(s), slot as int));
            &&& final(s).things@ == r.0
            &&& final(s).players@ == old(s).players@.update(slot as int, r.1)
            &&& *final(s) == (GameState {
                things: final(s).things,
                players: final(s).players,
                data_60afd: r.2,
                ..*old(s)
            })
        },
        people_transferred(*old(s), *final(s), slot),
{
    if s.is_multiplayer_game != 0 {
        return;
    }
    if slot < 0 || slot as usize >= PLAYER_SLOTS {
        return;
    }
    let si = slot as usize;
    let ghost s0 = *s;
    let count = s.data_5e551[si] as usize;
    let n: usize = if si * 92 >= 512 {
        0
    } else {
        let lim: usize = 512 - si * 92;
        if count < lim { count } else { lim }
    };
    let mut things: Vec<u8> = Vec::new();
    std::mem::swap(&mut things, &mut s.things);
    let mut credit = s.players[si];
    let mut tally = s.data_60afd;
    let tl = things.len();
    let mut j: usize = 0;
    while j < n
        invariant
            s0.wf(),
            *s == (GameState { things: s.things, ..s0 }),
            0 <= si < PLAYER_SLOTS,
            n == transfer_count(s0, si as int),
            transfer_in_memory(s0, si as int),
            tl == s0.things@.len(),
            tl == things@.len(),
            j <= n,
            (things@, credit, tally) == transfer_fold(s0, si as int, j as int),
        decreases n - j,
    {
        transfer_step(s, Ghost(s0), si, j, &mut things, &mut credit, &mut tally);
        j = j + 1;
    }
    s.things = things;
    s.players.set(si, credit);
    s.data_60afd = tally;
    assert(s.players@ =~= s0.players@.update(si as int, credit));
}

/// One step of `transfer_fold`, on the level memory, the credits and the tally.
#[verifier::spinoff_prover]
#[verifier::rlimit(40)]
fn transfer_step(
    st: &GameState,
    Ghost(s0): Ghost<GameState>,
    si: usize,
    j: usize,
    things: &mut Vec<u8>,
    credit: &mut u32,
    tally: &mut u8,
)
    requires
        s0.wf(),
        *st == (GameState { things: st.things, ..s0 }),
        0 <= si < PLAYER_SLOTS,
        j < transfer_count(s0, si as int),
        transfer_in_memory(s0, si as int),
        old(things)@.len() == s0.things@.len(),
        (old(things)@, *old(credit), *old(tally)) == transfer_fold(s0, si as int, j as int),
    ensures
        final(things)@.len() == s0.things@.len(),
        (final(things)@, *final(credit), *final(tally)) == transfer_fold(s0, si as int, j + 1),
{
    let tl = things.len();
    let team = st.data_5e5c0[si * 92 + j];
    if team == 0 {
        return;
    }
    assert(s0.person_in_memory(team_person(s0, si as int, j as int)));
    let k: usize = st.data_5e551[si] as usize + team as usize - 1;
    let p = st.people + k * PERSON_SIZE;
    assert(p + PERSON_SIZE <= tl);
    if (read_u8(things, p + P_FLAGS_B) & 1) != 0 || read_u16(things, p + P_VEHICLE) == 0 {
        return;
    }
    let ch = read_u8(things, p + P_FLAGS_1C);
    let bonus: Option<u32> = if (ch & 0x01) != 0 {
        Some(0x32)
    } else if (ch & 0x08) != 0 {
        Some(0x96)
    } else if (ch & 0x04) != 0 {
        Some(0x96)
    } else if (ch & 0x10) != 0 {
        Some(0x12c)
    } else if (ch & 0x02) != 0 {
        let v = read_i16(things, p + P_ENERGY);
        Some(if v >= 0 { v as u32 } else { 0 })
    } else {
        None
    };
    assert(bonus == agent_bonus(old(things)@, p as int));
    if let Some(b) = bonus {
        *credit = credit.wrapping_add(b);
        write_u16(things, p + P_VEHICLE, 0);
        *tally = tally.wrapping_add(1);
    }
}

/// Keys that change the player's options during a mission.
pub const KC_F1: usize = 0x3b;
pub const KC_F2: usize = 0x3c;
pub const KC_F3: usize = 0x3d;
pub const KC_F4: usize = 0x3e;
pub const KC_F5: usize = 0x3f;

/// The game speed after the speed keys: F3 slows down to 0, F4 speeds up to 12.
pub open spec fn speed_after_keys(keys: Seq<u8>, speed: u32) -> u32 {
    let a = if keys[KC_F3 as int] != 0 && speed > 0 { (speed - 1) as u32 } else { speed };
    if keys[KC_F4 as int] != 0 && a < 0xc { (a + 1) as u32 } else { a }
}

/// A switch after its key: flipped when the key is down.
pub open spec fn toggled(key: u8, v: u8) -> u8 {
    if key != 0 { v ^ 1 } else { v }
}

/// The day of the research calendar that a day counter of `count` is in.
pub open spec fn research_day(count: u32, ticks: u32) -> u8 {
    let divisor = if ticks == 0 { 1 } else { ticks / 0x18 };
    (if divisor == 0 { 0 } else { count / divisor }) as u8
}

/// Ticks in a day, as the day counter starts.
pub const DAY_TICKS: u32 = 0x17a3;
/// Days in a year.
pub const YEAR_DAYS: u16 = 0x16d;

/// The speed throttle of a single game holds the turn: at a speed of 3 or
/// more (after the speed keys), once some ticks are counted in `data_60b50`
/// and fewer than the speed, the turn waits for the count to reach the speed.
/// Nothing in the game counts those ticks, so such a wait never ends.
pub open spec fn throttle_holds(s: GameState, keys: Seq<u8>) -> bool {
    let speed = speed_after_keys(keys, s.game_speed);
    &&& s.is_multiplayer_game == 0
    &&& speed >= 3
    &&& s.data_60b50 != 0
    &&& (s.data_60b50 as u32) < speed
}

/// Whether the speed throttle holds the calendar's turn, so that the turn
/// cannot go on.
pub fn speed_throttle_holds(s: &GameState, key_on: &[u8]) -> (r: bool)
    requires
        key_on@.len() == 256,
    ensures
        r == throttle_holds(*s, key_on@),
{
    let mut speed = s.game_speed;
    if key_on[KC_F3] != 0 && speed > 0 {
        speed = speed - 1;
    }
    if key_on[KC_F4] != 0 && speed < 0xc {
        speed = speed + 1;
    }
    s.is_multiplayer_game == 0 && speed >= 3 && s.data_60b50 != 0 && (s.data_60b50 as u32) < speed
}

/// The calendar after the local player's day counter counts down once:
/// `data` is the state before, `ticks` the length of a day.
pub open spec fn calendar_counted(o: GameState, n: GameState, ticks: u32, research_result: u8, r: u8) -> bool {
    let si = o.network_slot as int;
    let count = o.data_5e4a0@[si];
    let day = research_day(count, ticks);
    let new_day = day != o.data_53ee8;
    let crossed = ticks == 0 || count < ticks - 1;
    let days = ((o.data_5e4a4@[si] as int + 1) % 65536) as u16;
    &&& r == if crossed { 1u8 } else { 0u8 }
    &&& n == (GameState {
        data_60b50: 0,
        data_53ee8: day,
        research: if new_day && (o.research == 0 || o.research == 3) {
            research_result
        } else {
            o.research
        },
        data_5e4a0: n.data_5e4a0,
        data_5e4a4: n.data_5e4a4,
        data_5e4a6: n.data_5e4a6,
        ..o
    })
    &&& n.data_5e4a0@ == o.data_5e4a0@.update(
        si,
        if crossed { DAY_TICKS } else { ((count as int - 1) % 0x1_0000_0000) as u32 },
    )
    &&& n.data_5e4a4@ == if crossed {
        o.data_5e4a4@.update(si, if days > YEAR_DAYS { 1u16 } else { days })
    } else {
        o.data_5e4a4@
    }
    &&& n.data_5e4a6@ == if crossed && days > YEAR_DAYS {
        o.data_5e4a6@.update(si, ((o.data_5e4a6@[si] as int + 1) % 65536) as u16)
    } else {
        o.data_5e4a6@
    }
}

/// The single game's part of the calendar's turn, once the throttle is
/// passed: the tick count is cleared and the day counter counts down.
fn count_day(s: &mut GameState, ticks: u32, research_result: u8) -> (r: u8)
    requires
        old(s).wf(),
        0 <= old(s).network_slot < PLAYER_SLOTS,
    ensures
        final(s).wf(),
        calendar_counted(*old(s), *final(s), ticks, research_result, r),
{
    s.data_60b50 = 0;
    let si = s.network_slot as usize;
    let count = s.data_5e4a0[si];
    let divisor: u32 = if ticks == 0 { 1 } else { ticks / 0x18 };
    let day: u32 = if divisor == 0 { 0 } else { count / divisor };
    if day as u8 != s.data_53ee8 {
        s.data_53ee8 = day as u8;
        if s.research == 0 || s.research == 3 {
            s.research = research_result;
        }
    }
    if ticks == 0 || count < ticks - 1 {
        s.data_5e4a0.set(si, DAY_TICKS);
        let new_days = s.data_5e4a4[si].wrapping_add(1);
        s.data_5e4a4.set(si, new_days);
        if new_days > YEAR_DAYS {
            s.data_5e4a4.set(si, 1);
            let y = s.data_5e4a6[si];
            s.data_5e4a6.set(si, y.wrapping_add(1));
        }
        assert(s.data_5e4a4@ =~= old(s).data_5e4a4@.update(si as int, if new_days > YEAR_DAYS { 1u16 } else { new_days }));
        return 1;
    } else {
        s.data_5e4a0.set(si, count.wrapping_sub(1));
    }
    0
}

/// One game turn of the calendar. The option keys (already released by the
/// caller) switch sound, music and the scanner and change the speed. In a
/// single game the speed throttle is passed (the turn is not held by it; see
/// `throttle_holds`) and its tick count cleared; the local player's day
/// counter counts down; when it runs out a new day (and maybe a new year)
/// begins and 1 is returned; when the research day changes and no research
/// is under way, `research_result` becomes the research under way.
pub fn process_day(s: &mut GameState, key_on: &[u8], ticks: u32, research_result: u8) -> (r: u8)
    requires
        old(s).wf(),
        key_on@.len() == 256,
        old(s).is_multiplayer_game == 0 ==> 0 <= old(s).network_slot < PLAYER_SLOTS,
        !throttle_holds(*old(s), key_on@),
    ensures
        final(s).wf(),
        ({
            let keyed = GameState {
                sound_active: toggled(key_on@[KC_F1 as int], old(s).sound_active),
                music_active: toggled(key_on@[KC_F2 as int], old(s).music_active),
                scanner_pulse: toggled(key_on@[KC_F5 as int], old(s).scanner_pulse),
                game_speed: speed_after_keys(key_on@, old(s).game_speed),
                ..*old(s)
            };
            &&& old(s).is_multiplayer_game != 0 ==> r == 0 && *final(s) == keyed
            &&& old(s).is_multiplayer_game == 0 ==> calendar_counted(keyed, *final(s), ticks, research_result, r)
        }),
{
    let mut game_spd = s.game_speed;
    if key_on[KC_F1] != 0 {
        s.sound_active = s.sound_active ^ 1;
    }
    if key_on[KC_F2] != 0 {
        s.music_active = s.music_active ^ 1;
    }
    if key_on[KC_F3] != 0 && game_spd > 0 {
        game_spd = game_spd - 1;
    }
    if key_on[KC_F4] != 0 && game_spd < 0xc {
        game_spd = game_spd + 1;
    }
    if key_on[KC_F5] != 0 {
        s.scanner_pulse = s.scanner_pulse ^ 1;
    }
    s.game_speed = game_spd;
    if s.is_multiplayer_game != 0 {
        return 0;
    }
    // The throttle lets the turn go on: no tick is counted, or the count has
    // reached the speed.
    assert(game_spd < 3 || s.data_60b50 == 0 || s.data_60b50 as u32 >= game_spd);
    count_day(s, ticks, research_result)
}

} // verus!
