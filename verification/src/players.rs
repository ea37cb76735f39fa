//! The players: their default set-up at the start of a campaign, the
//! computer players' timer, and the player's turn on the panels.
use vstd::prelude::*;
use crate::level::{next_seed, random_value, random};
use crate::state::{GameState, PLAYER_SLOTS, AGENT_TABLE_SIZE, DRW_F_SCREEN_MCGA, MISSION_RUNNING, MISSION_COMPLETE, MISSION_FAILED, MISSION_ABORTED, MISSION_DEBRIEFED};
use crate::audio::{GetSoundAble, GetMusicAble, BFMidiStopMusic, AudioState};
use crate::level::{transfer_people_into_player, transfer_in_memory, people_transferred};
use crate::sound::{sound_bank_setup, bank_set_up};
use crate::view::{set_all_changes, all_changed};

verus! {

/// Agents of a slot that get a name, a gender and a start state.
pub const NAMED_AGENTS: usize = 18;
/// Agent records kept per slot.
pub const AGENT_RECORDS: usize = 0x32;
/// Distance between two slots' rows in the agent tables.
pub const AGENT_STRIDE: usize = 0x5c;
/// The part of the agent tables that the default set-up reaches.
pub const AGENT_LIMIT: usize = 512;
/// Names drawn by the default set-up: those of the slots whose rows start
/// below the limit.
pub const DEFAULT_NAMES: usize = 108;
/// Credits of a player at the start, and with the credits cheat.
pub const START_CREDITS: u32 = 0x7530;
pub const CHEAT_START_CREDITS: u32 = 0x5f5e100;

/// The level seed after `n` steps of the generator.
pub open spec fn seed_after(seed: u16, n: nat) -> u16
    decreases n,
{
    if n == 0 {
        seed
    } else {
        next_seed(seed_after(seed, (n - 1) as nat))
    }
}

/// Entry `i` of an agent table lies in the row of a slot below `slots`,
/// inside the part that the default set-up reaches.
pub open spec fn agent_set_up(i: int, slots: int) -> bool {
    0 <= i < AGENT_LIMIT && i / 92 < slots
}

/// A cleared agent entry: zero for the first 50 agents of a row.
pub open spec fn cleared_agent(old: Seq<u8>, i: int) -> u8 {
    if i % 92 < 50 { 0 } else { old[i] }
}

/// An agent's state: 0x10 for a named agent, 0xffff for an unused record.
pub open spec fn default_agent_state(old: Seq<u16>, i: int) -> u16 {
    if i % 92 < 18 {
        0x10
    } else if i % 92 < 50 {
        0xffff
    } else {
        old[i]
    }
}

/// An agent's gender: the low bit of `random(3)` drawn for it, from the
/// seed at the start of the set-up.
pub open spec fn default_agent_gender(old: Seq<u16>, seed: u16, i: int) -> u16 {
    if i % 92 < 18 {
        (random_value(seed_after(seed, (18 * (i / 92) + i % 92) as nat), 3) & 1) as u16
    } else if i % 92 < 50 {
        0
    } else {
        old[i]
    }
}

/// An agent's name: the next of the names drawn, 0xff for an unused record.
pub open spec fn default_agent_name(old: Seq<u8>, names: Seq<u8>, i: int) -> u8 {
    if i % 92 < 18 {
        names[18 * (i / 92) + i % 92]
    } else if i % 92 < 50 {
        0xff
    } else {
        old[i]
    }
}

/// An agent's team: teams 1 to 4 for the first four, none for the next four.
pub open spec fn default_agent_team(old: Seq<u8>, i: int) -> u8 {
    if i % 92 < 4 {
        (i % 92 + 1) as u8
    } else if i % 92 < 8 {
        0
    } else {
        old[i]
    }
}

/// Entry `i` of an agent table after the rows of the slots below `slots`
/// were set up with `target`.
pub open spec fn after_rows<T>(old: Seq<T>, i: int, slots: int, target: T) -> T {
    if agent_set_up(i, slots) { target } else { old[i] }
}

/// The agent tables of `s` agree with those of `o` set up for the slots
/// below `slots`, with the seed `seed` and the names `names`.
pub open spec fn agents_set_up(o: GameState, s: GameState, seed: u16, names: Seq<u8>, slots: int) -> bool {
    &&& forall|i: int| 0 <= i < AGENT_TABLE_SIZE ==> #[trigger] s.data_5e555@[i] == after_rows(o.data_5e555@, i, slots, cleared_agent(o.data_5e555@, i))
    &&& forall|i: int| 0 <= i < AGENT_TABLE_SIZE ==> #[trigger] s.data_5e587@[i] == after_rows(o.data_5e587@, i, slots, cleared_agent(o.data_5e587@, i))
    &&& forall|i: int| 0 <= i < AGENT_TABLE_SIZE ==> #[trigger] s.data_5e5ba@[i] == after_rows(o.data_5e5ba@, i, slots, default_agent_state(o.data_5e5ba@, i))
    &&& forall|i: int| 0 <= i < AGENT_TABLE_SIZE ==> #[trigger] s.data_5e5bc@[i] == after_rows(o.data_5e5bc@, i, slots, default_agent_gender(o.data_5e5bc@, seed, i))
    &&& forall|i: int| 0 <= i < AGENT_TABLE_SIZE ==> #[trigger] s.data_5e5b9@[i] == after_rows(o.data_5e5b9@, i, slots, default_agent_name(o.data_5e5b9@, names, i))
    &&& forall|i: int| 0 <= i < AGENT_TABLE_SIZE ==> #[trigger] s.data_5e5c0@[i] == after_rows(o.data_5e5c0@, i, slots, default_agent_team(o.data_5e5c0@, i))
}

/// The fields of `s` that the set-up of one slot's agents leaves alone are
/// those of `o`.
pub open spec fn same_but_agents(o: GameState, s: GameState) -> bool {
    s == (GameState {
        data_5e555: s.data_5e555,
        data_5e587: s.data_5e587,
        data_5e5ba: s.data_5e5ba,
        data_5e5bc: s.data_5e5bc,
        data_5e5b9: s.data_5e5b9,
        data_5e5c0: s.data_5e5c0,
        selected_team: s.selected_team,
        level_seed: s.level_seed,
        ..o
    })
}

proof fn lemma_row_bounds(si: int, a: int)
    requires
        0 <= si,
        0 <= a < 92,
    ensures
        (si * 92 + a) / 92 == si,
        (si * 92 + a) % 92 == a,
{
    assert((si * 92 + a) / 92 == si) by (nonlinear_arith)
        requires
            0 <= si,
            0 <= a < 92,
    ;
    assert((si * 92 + a) % 92 == a) by (nonlinear_arith)
        requires
            0 <= si,
            0 <= a < 92,
    ;
}

proof fn lemma_row_of(i: int, si: int)
    requires
        0 <= si,
        si * 92 <= i < si * 92 + 92,
    ensures
        i / 92 == si,
        i % 92 == i - si * 92,
{
    lemma_row_bounds(si, i - si * 92);
}

/// Sets up the agents of slot `si`: clears its first 50 records, draws a
/// gender and a name for each of its 18 named agents, marks the other
/// records unused and puts the first four agents in teams 1 to 4.
fn set_default_agents(s: &mut GameState, si: usize, names: &[u8], Ghost(o): Ghost<GameState>, Ghost(seed): Ghost<u16>)
    requires
        old(s).wf(),
        si < PLAYER_SLOTS,
        names@.len() >= DEFAULT_NAMES,
        old(s).level_seed == seed_after(seed, (18 * si) as nat),
        agents_set_up(o, *old(s), seed, names@, si as int),
        o.data_5e555@.len() == AGENT_TABLE_SIZE,
        o.data_5e587@.len() == AGENT_TABLE_SIZE,
        o.data_5e5ba@.len() == AGENT_TABLE_SIZE,
        o.data_5e5bc@.len() == AGENT_TABLE_SIZE,
        o.data_5e5b9@.len() == AGENT_TABLE_SIZE,
        o.data_5e5c0@.len() == AGENT_TABLE_SIZE,
    ensures
        final(s).wf(),
        same_but_agents(*old(s), *final(s)),
        final(s).level_seed == seed_after(seed, (18 * si + 18) as nat),
        agents_set_up(o, *final(s), seed, names@, si as int + 1),
        forall|t: int| 0 <= t < 4 ==> #[trigger] final(s).selected_team@[t] == t + 1,
        forall|t: int| 4 <= t < PLAYER_SLOTS ==> #[trigger] final(s).selected_team@[t] == old(s).selected_team@[t],
{
    let ghost s0 = *s;
    let row = si * AGENT_STRIDE;
    let mut a: usize = 0;
    while a < AGENT_RECORDS
        invariant
            s.wf(),
            same_but_agents(s0, *s),
            row == si * 92,
            si < PLAYER_SLOTS,
            a <= AGENT_RECORDS,
            s.level_seed == s0.level_seed,
            s.selected_team@ == s0.selected_team@,
            s.data_5e5ba@ == s0.data_5e5ba@,
            s.data_5e5bc@ == s0.data_5e5bc@,
            s.data_5e5b9@ == s0.data_5e5b9@,
            s.data_5e5c0@ == s0.data_5e5c0@,
            forall|i: int| 0 <= i < AGENT_TABLE_SIZE ==> #[trigger] s.data_5e555@[i] == if row <= i < row + a && i < AGENT_LIMIT { 0u8 } else { s0.data_5e555@[i] },
            forall|i: int| 0 <= i < AGENT_TABLE_SIZE ==> #[trigger] s.data_5e587@[i] == if row <= i < row + a && i < AGENT_LIMIT { 0u8 } else { s0.data_5e587@[i] },
        decreases AGENT_RECORDS - a,
    {
        let base = row + a;
        if base < AGENT_LIMIT {
            s.data_5e555.set(base, 0);
            s.data_5e587.set(base, 0);
        }
        a = a + 1;
    }
    let ghost s1 = *s;
    let mut a: usize = 0;
    while a < NAMED_AGENTS
        invariant
            s.wf(),
            same_but_agents(s0, *s),
            row == si * 92,
            si < PLAYER_SLOTS,
            a <= NAMED_AGENTS,
            names@.len() >= DEFAULT_NAMES,
            s.level_seed == seed_after(seed, (18 * si + a) as nat),
            s.selected_team@ == s0.selected_team@,
            s.data_5e555@ == s1.data_5e555@,
            s.data_5e587@ == s1.data_5e587@,
            s.data_5e5c0@ == s0.data_5e5c0@,
            forall|i: int| 0 <= i < AGENT_TABLE_SIZE ==> #[trigger] s.data_5e5ba@[i] == if row <= i < row + a && i < AGENT_LIMIT { 0x10u16 } else { s0.data_5e5ba@[i] },
            forall|i: int| 0 <= i < AGENT_TABLE_SIZE ==> #[trigger] s.data_5e5bc@[i] == if row <= i < row + a && i < AGENT_LIMIT {
                (random_value(seed_after(seed, (18 * si + (i - row)) as nat), 3) & 1) as u16
            } else {
                s0.data_5e5bc@[i]
            },
            forall|i: int| 0 <= i < AGENT_TABLE_SIZE ==> #[trigger] s.data_5e5b9@[i] == if row <= i < row + a && i < AGENT_LIMIT { names@[18 * si + (i - row)] } else { s0.data_5e5b9@[i] },
        decreases NAMED_AGENTS - a,
    {
        let ghost seed_here = s.level_seed;
        let r = random(s, 3);
        assert(s.level_seed == seed_after(seed, (18 * si + a + 1) as nat));
        let base = row + a;
        if base < AGENT_LIMIT {
            assert(si <= 5);
            s.data_5e5bc.set(base, (r & 1) as u16);
            s.data_5e5ba.set(base, 0x10);
            s.data_5e5b9.set(base, names[18 * si + a]);
        }
        a = a + 1;
    }
    let ghost s2 = *s;
    let mut a: usize = NAMED_AGENTS;
    while a < AGENT_RECORDS
        invariant
            s.wf(),
            same_but_agents(s0, *s),
            row == si * 92,
            si < PLAYER_SLOTS,
            NAMED_AGENTS <= a <= AGENT_RECORDS,
            s.level_seed == s2.level_seed,
            s.selected_team@ == s0.selected_team@,
            s.data_5e555@ == s1.data_5e555@,
            s.data_5e587@ == s1.data_5e587@,
            s.data_5e5c0@ == s0.data_5e5c0@,
            forall|i: int| 0 <= i < AGENT_TABLE_SIZE ==> #[trigger] s.data_5e5ba@[i] == if row + 18 <= i < row + a && i < AGENT_LIMIT { 0xffffu16 } else { s2.data_5e5ba@[i] },
            forall|i: int| 0 <= i < AGENT_TABLE_SIZE ==> #[trigger] s.data_5e5bc@[i] == if row + 18 <= i < row + a && i < AGENT_LIMIT { 0u16 } else { s2.data_5e5bc@[i] },
            forall|i: int| 0 <= i < AGENT_TABLE_SIZE ==> #[trigger] s.data_5e5b9@[i] == if row + 18 <= i < row + a && i < AGENT_LIMIT { 0xffu8 } else { s2.data_5e5b9@[i] },
        decreases AGENT_RECORDS - a,
    {
        let base = row + a;
        if base < AGENT_LIMIT {
            s.data_5e5ba.set(base, 0xffff);
            s.data_5e5bc.set(base, 0);
            s.data_5e5b9.set(base, 0xff);
        }
        a = a + 1;
    }
    let ghost s3 = *s;
    let mut t: usize = 0;
    while t < 8
        invariant
            s.wf(),
            same_but_agents(s0, *s),
            row == si * 92,
            si < PLAYER_SLOTS,
            t <= 8,
            s.level_seed == s2.level_seed,
            s.data_5e555@ == s1.data_5e555@,
            s.data_5e587@ == s1.data_5e587@,
            s.data_5e5ba@ == s3.data_5e5ba@,
            s.data_5e5bc@ == s3.data_5e5bc@,
            s.data_5e5b9@ == s3.data_5e5b9@,
            forall|i: int| 0 <= i < AGENT_TABLE_SIZE ==> #[trigger] s.data_5e5c0@[i] == if row <= i < row + t && i < AGENT_LIMIT {
                if i - row < 4 { (i - row + 1) as u8 } else { 0u8 }
            } else {
                s0.data_5e5c0@[i]
            },
            forall|k: int| 0 <= k < PLAYER_SLOTS ==> #[trigger] s.selected_team@[k] == if k < t && k < 4 { (k + 1) as u8 } else { s0.selected_team@[k] },
        decreases 8 - t,
    {
        let base = row + t;
        if t < 4 {
            if base < AGENT_LIMIT {
                s.data_5e5c0.set(base, (t + 1) as u8);
            }
            s.selected_team.set(t, (t + 1) as u8);
        } else {
            if base < AGENT_LIMIT {
                s.data_5e5c0.set(base, 0);
            }
        }
        t = t + 1;
    }
    proof {
        assert forall|i: int| 0 <= i < AGENT_TABLE_SIZE implies agent_set_up(i, si as int + 1) == (agent_set_up(i, si as int) || (row <= i < row + 92 && i < AGENT_LIMIT)) by {
            if 0 <= i {
                if i < row {
                    assert(i / 92 < si as int) by (nonlinear_arith)
                        requires
                            0 <= i < row,
                            row == si * 92,
                    ;
                } else if i < row + 92 {
                    lemma_row_of(i, si as int);
                } else {
                    assert(i / 92 > si as int) by (nonlinear_arith)
                        requires
                            i >= row + 92,
                            row == si * 92,
                    ;
                }
            }
        }
        assert forall|i: int| row <= i < row + 92 implies #[trigger] (i % 92) == i - row && i / 92 == si by {
            lemma_row_of(i, si as int);
        }
    }
}

/// The per-player tables of `s` hold the defaults for the slots below `n`,
/// with the seed `seed` at the start, and those of `o` for the others.
pub open spec fn slots_set_up(o: GameState, s: GameState, seed: u16, n: int) -> bool {
    &&& forall|k: int| 0 <= k < PLAYER_SLOTS ==> #[trigger] s.data_605e0@[k] == if k < n { k as u8 } else { o.data_605e0@[k] }
    &&& forall|k: int| 0 <= k < PLAYER_SLOTS ==> #[trigger] s.data_605e1@[k] == if k < n { 0u8 } else { o.data_605e1@[k] }
    &&& forall|k: int| 0 <= k < PLAYER_SLOTS ==> #[trigger] s.data_605de@[k] == if k < n { 0u16 } else { o.data_605de@[k] }
    &&& forall|k: int| 0 <= k < PLAYER_SLOTS ==> #[trigger] s.packets@[k] == if k < n { 0u16 } else { o.packets@[k] }
    &&& forall|k: int| 0 <= k < PLAYER_SLOTS ==> #[trigger] s.data_605d6@[k] == if k < n { 0u16 } else { o.data_605d6@[k] }
    &&& forall|k: int| 0 <= k < PLAYER_SLOTS ==> #[trigger] s.data_605d8@[k] == if k < n { 0u16 } else { o.data_605d8@[k] }
    &&& forall|k: int| 0 <= k < PLAYER_SLOTS ==> #[trigger] s.data_605da@[k] == if k < n { seed_after(seed, (18 * k) as nat) } else { o.data_605da@[k] }
    &&& forall|k: int| 0 <= k < PLAYER_SLOTS ==> #[trigger] s.data_5e4aa@[k] == if k < n { if k == 0 { 1u8 } else { 2u8 } } else { o.data_5e4aa@[k] }
    &&& forall|k: int| 0 <= k < PLAYER_SLOTS ==> #[trigger] s.data_5e4ab@[k] == if k < n { k as u8 } else { o.data_5e4ab@[k] }
    &&& forall|k: int| 0 <= k < PLAYER_SLOTS ==> #[trigger] s.data_5e4ac@[k] == if k < n { k as u8 } else { o.data_5e4ac@[k] }
    &&& forall|k: int| 0 <= k < PLAYER_SLOTS ==> #[trigger] s.data_5e4ad@[k] == if k < n { 0u8 } else { o.data_5e4ad@[k] }
    &&& forall|k: int| 0 <= k < PLAYER_SLOTS ==> #[trigger] s.data_5e4bf@[k] == if k < n { 0u8 } else { o.data_5e4bf@[k] }
    &&& forall|k: int| 0 <= k < PLAYER_SLOTS ==> #[trigger] s.data_5e4a8@[k] == if k < n { 0u16 } else { o.data_5e4a8@[k] }
    &&& forall|k: int| 0 <= k < PLAYER_SLOTS ==> #[trigger] s.data_5e4a0@[k] == if k < n { 0u32 } else { o.data_5e4a0@[k] }
    &&& forall|k: int| 0 <= k < PLAYER_SLOTS ==> #[trigger] s.data_5e4a4@[k] == if k < n { 1u16 } else { o.data_5e4a4@[k] }
    &&& forall|k: int| 0 <= k < PLAYER_SLOTS ==> #[trigger] s.data_5e4a6@[k] == if k < n { 0x55u16 } else { o.data_5e4a6@[k] }
    &&& forall|k: int| 0 <= k < PLAYER_SLOTS ==> #[trigger] s.players@[k] == if k < n {
        if o.cheat_credits != 0 { CHEAT_START_CREDITS } else { START_CREDITS }
    } else {
        o.players@[k]
    }
    &&& forall|k: int| 0 <= k < AGENT_TABLE_SIZE ==> #[trigger] s.data_5e551@[k] == if k < n { (8 * k) as u8 } else { o.data_5e551@[k] }
    &&& forall|k: int| 0 <= k < AGENT_TABLE_SIZE ==> #[trigger] s.data_5e552@[k] == if k < n { 0i8 } else { o.data_5e552@[k] }
}

/// The fields of `s` that the default set-up leaves alone are those of `o`.
pub open spec fn same_but_players(o: GameState, s: GameState) -> bool {
    s == (GameState {
        network_slot: s.network_slot,
        level_seed: s.level_seed,
        data_605e0: s.data_605e0,
        data_605e1: s.data_605e1,
        data_605de: s.data_605de,
        data_605da: s.data_605da,
        data_605d6: s.data_605d6,
        data_605d8: s.data_605d8,
        packets: s.packets,
        data_5e4a8: s.data_5e4a8,
        data_5e4aa: s.data_5e4aa,
        data_5e4ab: s.data_5e4ab,
        data_5e4ac: s.data_5e4ac,
        data_5e4ad: s.data_5e4ad,
        data_5e4bf: s.data_5e4bf,
        data_5e4a0: s.data_5e4a0,
        data_5e4a4: s.data_5e4a4,
        data_5e4a6: s.data_5e4a6,
        players: s.players,
        data_5e551: s.data_5e551,
        data_5e552: s.data_5e552,
        data_5e555: s.data_5e555,
        data_5e587: s.data_5e587,
        data_5e5ba: s.data_5e5ba,
        data_5e5bc: s.data_5e5bc,
        data_5e5b9: s.data_5e5b9,
        data_5e5c0: s.data_5e5c0,
        selected_team: s.selected_team,
        ..o
    })
}

/// Sets up the eight player slots for a new campaign: slot 0 is the human
/// player, the others are computer players; each gets its network entry
/// cleared, the level seed of the moment, the start credits (more with the
/// credits cheat), its calendar, and its agents: 18 named agents with a
/// gender from `random(3)` and a name taken in turn from `names`, the
/// other records of its 50 unused, and the first four in teams 1 to 4.
/// Only the rows that start below the 512th entry of the agent tables are
/// set up. The player's network slot becomes 0.
pub fn set_default_player(s: &mut GameState, names: &[u8])
    requires
        old(s).wf(),
        names@.len() >= DEFAULT_NAMES,
    ensures
        final(s).wf(),
        same_but_players(*old(s), *final(s)),
        final(s).network_slot == 0,
        final(s).level_seed == seed_after(old(s).level_seed, 144),
        slots_set_up(*old(s), *final(s), old(s).level_seed, PLAYER_SLOTS as int),
        agents_set_up(*old(s), *final(s), old(s).level_seed, names@, PLAYER_SLOTS as int),
        forall|t: int| 0 <= t < 4 ==> #[trigger] final(s).selected_team@[t] == t + 1,
        forall|t: int| 4 <= t < PLAYER_SLOTS ==> #[trigger] final(s).selected_team@[t] == old(s).selected_team@[t],
{
    let ghost o = *s;
    let ghost seed = s.level_seed;
    s.network_slot = 0;
    let credits = if s.cheat_credits != 0 { CHEAT_START_CREDITS } else { START_CREDITS };
    let mut si: usize = 0;
    while si < PLAYER_SLOTS
        invariant
            s.wf(),
            si <= PLAYER_SLOTS,
            names@.len() >= DEFAULT_NAMES,
            same_but_players(o, *s),
            s.network_slot == 0,
            credits == if o.cheat_credits != 0 { CHEAT_START_CREDITS } else { START_CREDITS },
            s.level_seed == seed_after(seed, (18 * si) as nat),
            seed == o.level_seed,
            o.wf(),
            slots_set_up(o, *s, seed, si as int),
            agents_set_up(o, *s, seed, names@, si as int),
            forall|t: int| 0 <= t < PLAYER_SLOTS ==> #[trigger] s.selected_team@[t] == if si > 0 && t < 4 { (t + 1) as u8 } else { o.selected_team@[t] },
        decreases PLAYER_SLOTS - si,
    {
        s.data_605e0.set(si, si as u8);
        s.data_605de.set(si, 0);
        s.packets.set(si, 0);
        s.data_605d6.set(si, 0);
        s.data_605d8.set(si, 0);
        s.data_605e1.set(si, 0);
        let seed_now = s.level_seed;
        s.data_605da.set(si, seed_now);
        s.data_5e4aa.set(si, if si == 0 { 1 } else { 2 });
        s.data_5e4ac.set(si, si as u8);
        s.data_5e4ab.set(si, si as u8);
        s.data_5e4a0.set(si, 0);
        s.data_5e4a4.set(si, 1);
        s.data_5e4a6.set(si, 0x55);
        s.players.set(si, credits);
        s.data_5e552.set(si, 0);
        s.data_5e4ad.set(si, 0);
        s.data_5e4bf.set(si, 0);
        s.data_5e4a8.set(si, 0);
        s.data_5e551.set(si, (8 * si) as u8);
        assert(agents_set_up(o, *s, seed, names@, si as int));
        set_default_agents(s, si, names, Ghost(o), Ghost(seed));
        si = si + 1;
    }
}

/// Counts a turn of the computer players; when at least the process
/// interval has passed since they were last processed, this turn is the one
/// they are processed in.
pub fn process_computer_players(s: &mut GameState)
    ensures
        final(s).comp_plyr_process_timer == ((old(s).comp_plyr_process_timer as int + 1) % 0x1_0000_0000) as u32,
        final(s).comp_plyr_last_process_time == if ((final(s).comp_plyr_process_timer as int
            - old(s).comp_plyr_last_process_time as int) % 0x1_0000_0000) >= old(s).comp_plyr_process_interval as int {
            final(s).comp_plyr_process_timer
        } else {
            old(s).comp_plyr_last_process_time
        },
        *final(s) == (GameState {
            comp_plyr_process_timer: final(s).comp_plyr_process_timer,
            comp_plyr_last_process_time: final(s).comp_plyr_last_process_time,
            ..*old(s)
        }),
{
    let timer: u32 = ((s.comp_plyr_process_timer as u64 + 1) % 0x1_0000_0000) as u32;
    s.comp_plyr_process_timer = timer;
    let elapsed: u32 = ((timer as u64 + 0x1_0000_0000 - s.comp_plyr_last_process_time as u64) % 0x1_0000_0000) as u32;
    assert(elapsed as int == (timer as int - old(s).comp_plyr_last_process_time as int) % 0x1_0000_0000);
    if elapsed >= s.comp_plyr_process_interval as u32 {
        s.comp_plyr_last_process_time = timer;
    }
}

/// The sound bank of `f` is that of `o` after its set-up when sound is able
/// and the bank's files were loaded, and is unchanged otherwise.
pub open spec fn bank_after_loading(o: GameState, f: GameState, bank_loaded: bool) -> bool {
    if o.audio.sound_able && bank_loaded {
        bank_set_up(o.audio, o.sound, f.sound)
    } else {
        f.sound == o.sound
    }
}

fn set_up_loaded_bank(s: &mut GameState, bank_loaded: bool)
    ensures
        bank_after_loading(*old(s), *final(s), bank_loaded),
        *final(s) == (GameState { sound: final(s).sound, ..*old(s) }),
{
    if GetSoundAble(&s.audio) && bank_loaded {
        sound_bank_setup(&s.audio, &mut s.sound);
    }
}

/// Enters the menus: the sound bank, once its files were loaded
/// (`bank_loaded`), is set up when sound is able; the screen goes to the
/// low resolution mode and the mouse buttons to their menu setting. The
/// briefing and the map selection are left to the menus: the mission is
/// accepted (0).
pub fn menu_select_impl(s: &mut GameState, bank_loaded: bool) -> (r: u8)
    ensures
        r == 0,
        bank_after_loading(*old(s), *final(s), bank_loaded),
        *final(s) == (GameState {
            sound: final(s).sound,
            draw_flags: DRW_F_SCREEN_MCGA,
            mouse_swap: 1,
            mouse_old_w: 0,
            ..*old(s)
        }),
{
    set_up_loaded_bank(s, bank_loaded);
    s.draw_flags = DRW_F_SCREEN_MCGA;
    s.mouse_swap = 1;
    s.mouse_old_w = 0;
    0
}

/// Enters the menus; see `menu_select_impl`.
pub fn menu_select(s: &mut GameState, bank_loaded: bool) -> (r: u8)
    ensures
        r == 0,
        bank_after_loading(*old(s), *final(s), bank_loaded),
        *final(s) == (GameState {
            sound: final(s).sound,
            draw_flags: DRW_F_SCREEN_MCGA,
            mouse_swap: 1,
            mouse_old_w: 0,
            ..*old(s)
        }),
{
    menu_select_impl(s, bank_loaded)
}

/// Slot `si` has a named agent left: one whose state is not 0, among the
/// entries of its row that lie below the limit of the agent tables.
pub open spec fn slot_has_agents(s: GameState, si: int) -> bool {
    exists|a: int| 0 <= a < 18 && si * 92 + a < AGENT_LIMIT && #[trigger] s.data_5e5ba@[si * 92 + a] > 0
}

/// What a finished mission leaves of the state `o` in `f`; see
/// `level_finished_impl`.
pub open spec fn finished_level(o: GameState, f: GameState, bank_loaded: bool, names: Seq<u8>) -> bool {
    &&& f.wf()
    &&& f.sound_active == 1
    &&& f.music_active == 1
    &&& f.mouse_swap == 1
    &&& f.mouse_old_w == 0
    &&& (o.byte_60afc & MISSION_ABORTED != 0 ==> f == (GameState {
        sound_active: 1,
        music_active: 1,
        mouse_swap: 1,
        mouse_old_w: 0,
        ..o
    }))
    &&& (o.byte_60afc & MISSION_ABORTED == 0 ==> {
        let debriefed = o.byte_60afc & MISSION_COMPLETE != 0 || (o.byte_60afc & MISSION_FAILED != 0
            && !slot_has_agents(o, o.network_slot as int));
        let restart = o.byte_60afc & MISSION_FAILED != 0 && !slot_has_agents(o, o.network_slot as int);
        &&& bank_after_loading(o, f, bank_loaded)
        &&& f.byte_60afc == if debriefed { o.byte_60afc | MISSION_DEBRIEFED } else { o.byte_60afc }
        &&& !restart ==> f == (GameState {
            sound_active: 1,
            music_active: 1,
            mouse_swap: 1,
            mouse_old_w: 0,
            sound: f.sound,
            byte_60afc: f.byte_60afc,
            ..o
        })
        &&& restart ==> {
            let m = GameState {
                sound_active: 1,
                music_active: 1,
                sound: f.sound,
                byte_60afc: o.byte_60afc | MISSION_DEBRIEFED,
                ..o
            };
            &&& same_but_players(m, GameState { mouse_swap: m.mouse_swap, mouse_old_w: m.mouse_old_w, ..f })
            &&& f.network_slot == 0
            &&& f.level_seed == seed_after(o.level_seed, 144)
            &&& slots_set_up(m, f, o.level_seed, PLAYER_SLOTS as int)
            &&& agents_set_up(m, f, o.level_seed, names, PLAYER_SLOTS as int)
            &&& forall|t: int| 0 <= t < 4 ==> #[trigger] f.selected_team@[t] == t + 1
            &&& forall|t: int| 4 <= t < PLAYER_SLOTS ==> #[trigger] f.selected_team@[t] == o.selected_team@[t]
        }
    })
}

/// After a mission: sound and music are switched on and the mouse buttons
/// go back to their menu setting. Unless the mission was aborted, the sound
/// bank (its files loaded: `bank_loaded`) is set up when sound is able, a
/// completed mission is marked debriefed, and a failed one too when the
/// player has no named agent left, in which case the campaign starts over
/// with `set_default_player`, drawing its names from `names`.
pub fn level_finished_impl(s: &mut GameState, bank_loaded: bool, names: &[u8])
    requires
        old(s).wf(),
        names@.len() >= DEFAULT_NAMES,
        old(s).byte_60afc & MISSION_ABORTED == 0 && old(s).byte_60afc & MISSION_FAILED != 0 ==> old(s).network_slot >= 0,
    ensures
        finished_level(*old(s), *final(s), bank_loaded, names@),
{
    s.sound_active = 1;
    s.music_active = 1;
    let afc = s.byte_60afc;
    if (afc & MISSION_ABORTED) != 0 {
        s.mouse_swap = 1;
        s.mouse_old_w = 0;
        return;
    }
    set_up_loaded_bank(s, bank_loaded);
    assert((afc | 16u8) | 16u8 == afc | 16u8) by (bit_vector);
    if (afc & MISSION_COMPLETE) != 0 {
        s.byte_60afc = s.byte_60afc | MISSION_DEBRIEFED;
    }
    if (afc & MISSION_FAILED) != 0 {
        let si = s.network_slot as usize;
        let row = si * AGENT_STRIDE;
        let mut has_agents = false;
        let mut a: usize = 0;
        while a < NAMED_AGENTS
            invariant_except_break
                !has_agents,
                forall|b: int| 0 <= b < a ==> !(si * 92 + b < AGENT_LIMIT && #[trigger] s.data_5e5ba@[si * 92 + b] > 0),
            invariant
                s.wf(),
                a <= NAMED_AGENTS,
                row == si * 92,
                si == old(s).network_slot as int,
                s.data_5e5ba@ == old(s).data_5e5ba@,
            ensures
                has_agents == slot_has_agents(*old(s), si as int),
            decreases NAMED_AGENTS - a,
        {
            let base = row + a;
            if base < AGENT_LIMIT && s.data_5e5ba[base] > 0 {
                has_agents = true;
                break;
            }
            a = a + 1;
        }
        if !has_agents {
            assert(!slot_has_agents(*old(s), old(s).network_slot as int));
            s.byte_60afc = s.byte_60afc | MISSION_DEBRIEFED;
            let ghost m = *s;
            set_default_player(s, names);
            s.mouse_swap = 1;
            s.mouse_old_w = 0;
            assert(same_but_players(m, GameState { mouse_swap: m.mouse_swap, mouse_old_w: m.mouse_old_w, ..*s }));
            return;
        } else {
            assert(slot_has_agents(*old(s), old(s).network_slot as int));
        }
    }
    s.mouse_swap = 1;
    s.mouse_old_w = 0;
}

/// After a mission; see `level_finished_impl`.
pub fn level_finished(s: &mut GameState, bank_loaded: bool, names: &[u8])
    requires
        old(s).wf(),
        names@.len() >= DEFAULT_NAMES,
        old(s).byte_60afc & MISSION_ABORTED == 0 && old(s).byte_60afc & MISSION_FAILED != 0 ==> old(s).network_slot >= 0,
    ensures
        final(s).wf(),
        finished_level(*old(s), *final(s), bank_loaded, names@),
{
    level_finished_impl(s, bank_loaded, names)
}

/// The player's turn on the panels, given what the agents' panel answered
/// (`people_sel`: the agents selected, 0 for no change) and what the main
/// panel answered (`panel_res`: its new mode, 0 for no change) to the left
/// button `left`. The level timer ticks; a new selection is kept, and
/// marked as new unless the left button picked the selection already
/// active; a new panel mode is taken, mode 2 going back to mode 1, and the
/// mode left is remembered.
pub fn process_players_turn(s: &mut GameState, left: u32, people_sel: u16, panel_res: u16)
    ensures
        *final(s) == (GameState {
            level_timer: ((old(s).level_timer as int + 1) % 65536) as u16,
            data_5e122: old(s).data_5e124,
            data_5e124: if people_sel != 0 { people_sel } else { old(s).data_5e124 },
            data_5e112: if people_sel == 0 {
                old(s).data_5e112
            } else if left != 0 && people_sel == old(s).data_5e124 {
                0
            } else {
                1
            },
            a2: if panel_res == 0 { old(s).a2 } else if old(s).a2 == 2 { 1 } else { panel_res },
            data_5e11e: if panel_res == 0 { old(s).data_5e11e } else { old(s).a2 },
            data_5e110: if panel_res == 0 { old(s).data_5e110 } else { 1 },
            ..*old(s)
        }),
{
    s.level_timer = ((s.level_timer as u32 + 1) % 65536) as u16;
    s.data_5e122 = s.data_5e124;
    let active = s.data_5e124;
    if people_sel != 0 {
        s.data_5e112 = 1;
        if left != 0 && people_sel == active {
            s.data_5e112 = 0;
        }
        s.data_5e124 = people_sel;
    }
    if panel_res != 0 {
        let old_a2 = s.a2;
        s.a2 = panel_res;
        if old_a2 == 2 {
            s.data_5e11e = 2;
            s.a2 = 1;
        } else {
            s.data_5e11e = old_a2;
        }
        s.data_5e110 = 1;
    }
}

/// Login results of the network driver from this value on are failures.
pub const LOGIN_FAILED: u32 = 0xfffe;

/// Sets up the player's network slot: slot 0 of one. A network game needs
/// the network driver's login, whose result is `login_result`: the game
/// goes on (true) unless the login failed. A single game stays single.
pub fn initialise_player(s: &mut GameState, login_result: u32) -> (ok: bool)
    ensures
        ok == (old(s).is_multiplayer_game == 0 || login_result < LOGIN_FAILED),
        *final(s) == (GameState { network_slot: 0, network_number_of_slots: 1, ..*old(s) }),
{
    s.network_slot = 0;
    s.network_number_of_slots = 1;
    if s.is_multiplayer_game != 0 {
        login_result < LOGIN_FAILED
    } else {
        s.is_multiplayer_game = 0;
        true
    }
}

/// The network game's bookkeeping for a turn, with `players_count` players
/// in the game: the player's slot records the level seed, the level timer
/// and one more packet, and a player left alone is marked finished (2);
/// then the whole screen is to be redrawn. The packet exchange and the
/// players' actions belong to the network driver and to the action routine.
pub fn multi_play(s: &mut GameState, players_count: u16)
    requires
        old(s).wf(),
        0 <= old(s).network_slot < PLAYER_SLOTS,
    ensures
        final(s).wf(),
        ({
            let k = old(s).network_slot as int;
            let mid = GameState {
                data_605da: final(s).data_605da,
                data_605dc: final(s).data_605dc,
                data_605de: final(s).data_605de,
                data_605e1: final(s).data_605e1,
                ..*old(s)
            };
            &&& final(s).data_605da@ == old(s).data_605da@.update(k, old(s).level_seed)
            &&& final(s).data_605dc@ == old(s).data_605dc@.update(k, old(s).level_timer)
            &&& final(s).data_605de@ == old(s).data_605de@.update(k, ((old(s).data_605de@[k] as int + 1) % 65536) as u16)
            &&& final(s).data_605e1@ == if players_count == 1 {
                old(s).data_605e1@.update(k, 2)
            } else {
                old(s).data_605e1@
            }
            &&& all_changed(*final(s), mid)
        }),
{
    let k = s.network_slot as usize;
    let seed = s.level_seed;
    s.data_605da.set(k, seed);
    let timer = s.level_timer;
    s.data_605dc.set(k, timer);
    let packets = s.data_605de[k];
    s.data_605de.set(k, ((packets as u32 + 1) % 65536) as u16);
    if players_count == 1 {
        s.data_605e1.set(k, 2);
    }
    set_all_changes(s);
}

/// What a turn of the mission loop does.
#[derive(PartialEq, Eq, Structural, Clone, Copy, Debug)]
pub struct TurnPlan {
    /// The player's turn on the panels.
    pub players_turn: bool,
    /// The network game's turn (else the computer players' turn).
    pub network_turn: bool,
    /// The sound's turn: the most urgent sample is played.
    pub sound_turn: bool,
    /// The game's palette is set.
    pub set_palette: bool,
    /// The turn counter after this turn.
    pub next_init_state: u32,
}

/// The plan of a mission turn, from the count of turns so far
/// (`init_state`, which stops at 3): the player's turn from the second
/// turn on, the sound's from the fourth, the palette set on the third; a
/// network game has a network turn, a single game the computer players'.
pub fn syndicate_turn(init_state: u32, is_multiplayer_game: u8) -> (p: TurnPlan)
    ensures
        p == (TurnPlan {
            players_turn: init_state != 0,
            network_turn: is_multiplayer_game != 0,
            sound_turn: init_state > 2,
            set_palette: init_state == 2,
            next_init_state: if init_state < 3 { (init_state + 1) as u32 } else { init_state },
        }),
{
    TurnPlan {
        players_turn: init_state != 0,
        network_turn: is_multiplayer_game != 0,
        sound_turn: init_state > 2,
        set_palette: init_state == 2,
        next_init_state: if init_state < 3 { init_state + 1 } else { init_state },
    }
}

/// The audio once a mission is over: the song stops when music can play.
pub open spec fn audio_after_mission(a: AudioState) -> AudioState {
    if a.music_able {
        AudioState { song_currently_playing: 0, ..a }
    } else {
        a
    }
}

/// What follows the end of a mission, with `quit_key` the state of the quit
/// key: the music stops when it can play; then, unless the quit key is down,
/// the mouse swap is reset and the local player's agents are carried back
/// into the player's roster, and the level is to be finished (`true`). With
/// the quit key down nothing more happens (`false`).
pub fn mission_over_step(s: &mut GameState, quit_key: u8) -> (finish: bool)
    requires
        old(s).wf(),
        quit_key == 0 && old(s).is_multiplayer_game == 0 && 0 <= old(s).network_slot < PLAYER_SLOTS
            ==> transfer_in_memory(*old(s), old(s).network_slot as int),
    ensures
        final(s).wf(),
        finish == (quit_key == 0),
        final(s).audio == audio_after_mission(old(s).audio),
        quit_key != 0 ==> *final(s) == (GameState { audio: final(s).audio, ..*old(s) }),
        quit_key == 0 ==> {
            &&& final(s).mouse_swap == 1
            &&& final(s).mouse_old_w == 0
            &&& people_transferred(
                *old(s),
                GameState {
                    audio: old(s).audio,
                    mouse_swap: old(s).mouse_swap,
                    mouse_old_w: old(s).mouse_old_w,
                    ..*final(s)
                },
                old(s).network_slot,
            )
        },
{
    // The transfer reads neither the audio nor the mouse fields, so it may
    // come first.
    if quit_key == 0 {
        let slot = s.network_slot;
        transfer_people_into_player(s, slot);
        s.mouse_swap = 1;
        s.mouse_old_w = 0;
    }
    if GetMusicAble(&s.audio) {
        BFMidiStopMusic(&mut s.audio);
    }
    quit_key == 0
}

/// The mission loop goes on: the mission runs and the quit key is not down.
pub fn mission_continues(afc: u8, quit_key: u8) -> (r: bool)
    ensures
        r == (afc & MISSION_RUNNING != 0 && quit_key == 0),
{
    (afc & MISSION_RUNNING) != 0 && quit_key == 0
}

} // verus!
