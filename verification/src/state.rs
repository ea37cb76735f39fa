//! The game's global state, gathered in one value: mission flags and tallies,
//! the per-player tables, the map view, the level's byte memory and the sound
//! bank.
use vstd::prelude::*;
use crate::audio::AudioState;
use crate::sound::{SoundBank, BFSample, BFSampleStatus, SAMPLE_COUNT};

verus! {

/// Players (network slots) in a game.
pub const PLAYER_SLOTS: usize = 8;
/// Size of a person record in the level memory.
pub const PERSON_SIZE: usize = 0x5c;
/// Size of the per-player agent tables.
pub const AGENT_TABLE_SIZE: usize = 8448;
/// Size of the mission statistics block cleared at the start of a mission.
pub const MISSION_STATS_SIZE: usize = 0x420;
/// Number of mission objectives.
pub const OBJECTIVE_COUNT: usize = 20;
/// Rows and columns of the grid of screen tiles that need redrawing.
pub const DIRTY_ROWS: usize = 0x19;
pub const DIRTY_COLS: usize = 0x10;

/// Bits of `byte_60afc`, the mission state.
pub const MISSION_RUNNING: u8 = 0x01;
pub const MISSION_COMPLETE: u8 = 0x02;
pub const MISSION_FAILED: u8 = 0x04;
pub const MISSION_ABORTED: u8 = 0x08;
pub const MISSION_DEBRIEFED: u8 = 0x10;

/// Bits of the draw flags.
pub const DRW_F_SCREEN_MCGA: u8 = 0x1;
pub const DRW_F_SCREEN_VRES16: u8 = 0x2;
pub const DRW_F_UNKN04: u8 = 0x4;

pub struct GameState {
    // Game control.
    pub byte_60afc: u8,
    pub is_multiplayer_game: u8,
    pub network_slot: i16,
    pub network_number_of_slots: i16,
    pub draw_flags: u8,
    pub level_seed: u16,
    pub debug_k: i32,
    pub cheat_credits: u8,
    pub mouse_swap: u32,
    pub mouse_old_w: u16,
    // Mouse coordinates scaled to the game's 640x400 view.
    pub mouse_x_640: i16,
    pub mouse_y_400: i16,
    pub mmouse_x_640: i16,
    pub mmouse_y_400: i16,
    // Music and redraw requests.
    pub data_5c354: i32,
    pub data_5c34c: i32,
    pub data_5532c: u16,
    pub data_5532e: u16,
    // Mission tallies.
    pub data_60af0: u32,
    pub data_60af4: u8,
    pub data_60af5: u8,
    pub data_60af6: u8,
    pub data_60af7: u8,
    pub data_60af8: u8,
    pub data_60af9: u8,
    pub data_60afa: u8,
    pub data_60afb: u8,
    pub data_60afd: u8,
    pub data_60afe: u32,
    pub a11: u32,
    pub data_60b06: u32,
    pub data_60b32: u16,
    pub data_60ae8: u32,
    pub data_60a7c: Vec<u32>,
    pub data_60674: Vec<u8>,
    // Player options and the calendar.
    pub sound_active: u8,
    pub music_active: u8,
    pub scanner_pulse: u8,
    pub game_speed: u32,
    pub research: u8,
    pub data_53ee8: u8,
    pub data_60b50: u8,
    // Per-player tables, indexed by slot.
    pub data_605e0: Vec<u8>,
    pub data_605e1: Vec<u8>,
    pub data_605de: Vec<u16>,
    pub data_605da: Vec<u16>,
    pub data_605dc: Vec<u16>,
    pub data_605d6: Vec<u16>,
    pub data_605d8: Vec<u16>,
    pub packets: Vec<u16>,
    pub data_5e4a8: Vec<u16>,
    pub data_5e4aa: Vec<u8>,
    pub data_5e4ab: Vec<u8>,
    pub data_5e4ac: Vec<u8>,
    pub data_5e4ad: Vec<u8>,
    pub data_5e4bf: Vec<u8>,
    pub selected_team: Vec<u8>,
    pub data_5e4a0: Vec<u32>,
    pub data_5e4a4: Vec<u16>,
    pub data_5e4a6: Vec<u16>,
    pub players: Vec<u32>,
    // Per-player agent tables.
    pub data_5e551: Vec<u8>,
    pub data_5e552: Vec<i8>,
    pub data_5e5c0: Vec<u8>,
    pub data_5e555: Vec<u8>,
    pub data_5e587: Vec<u8>,
    pub data_5e5b9: Vec<u8>,
    pub data_5e5ba: Vec<u16>,
    pub data_5e5bc: Vec<u16>,
    // The players' panel.
    pub level_timer: u16,
    pub data_5e110: u16,
    pub data_5e112: u16,
    pub data_5e11e: u16,
    pub data_5e122: u16,
    pub data_5e124: u16,
    pub a2: u16,
    // Computer players.
    pub comp_plyr_process_timer: u32,
    pub comp_plyr_last_process_time: u32,
    pub comp_plyr_process_interval: u8,
    pub comp_plyr_team_size: u8,
    pub computer_players_count: u8,
    // Map view.
    pub player_view_map_x: i16,
    pub player_view_map_y: i16,
    pub destination_x: i32,
    pub destination_y: i32,
    pub level_hi_boundaryx: i16,
    pub level_hi_boundaryy: i16,
    pub level_lo_boundaryx: i16,
    pub level_lo_boundaryy: i16,
    // Map clicks.
    pub data_60b18: u16,
    pub data_60b1c: u16,
    pub data_60b1e: u16,
    pub data_60b20: u16,
    pub data_60b0e: u16,
    pub data_60aac: u32,
    // The map's drawing counters.
    pub data_60b10: u16,
    pub data_60b0a: u16,
    pub data_60b1a: u16,
    pub data_60b12: u16,
    pub data_60b14: u16,
    /// The map's block table: for each map cell, the address of its block (0 for none).
    pub map_cells: Vec<u32>,
    // Mission objectives.
    pub level_objectives: Vec<u32>,
    pub data_9be3e: Vec<u16>,
    pub data_9be40: Vec<u16>,
    // Wind and the movement accumulators.
    pub level_worlds: i16,
    pub data_9bc72: i16,
    pub data_9bc77: u8,
    pub data_9bc78: u8,
    pub data_60b28: i16,
    pub data_60b2a: i16,
    pub data_60b2c: i16,
    // Screen tiles to redraw.
    pub data_5db2c: Vec<u8>,
    pub data_60b4f: u8,
    pub data_60b4e: u8,
    // The level memory: things, with the persons from offset `people` on.
    pub things: Vec<u8>,
    pub people: usize,
    /// The command lists of the level.
    pub commands: Vec<u8>,
    /// The animation frame table.
    pub frames: Vec<u8>,
    // Sound.
    pub audio: AudioState,
    pub sound: SoundBank,
}

impl GameState {
    /// The tables have their sizes.
    pub open spec fn wf(&self) -> bool {
        &&& self.data_60a7c@.len() == PLAYER_SLOTS
        &&& self.data_60674@.len() == MISSION_STATS_SIZE
        &&& self.data_605e0@.len() == PLAYER_SLOTS
        &&& self.data_605e1@.len() == PLAYER_SLOTS
        &&& self.data_605de@.len() == PLAYER_SLOTS
        &&& self.data_605da@.len() == PLAYER_SLOTS
        &&& self.data_605dc@.len() == PLAYER_SLOTS
        &&& self.data_605d6@.len() == PLAYER_SLOTS
        &&& self.data_605d8@.len() == PLAYER_SLOTS
        &&& self.packets@.len() == PLAYER_SLOTS
        &&& self.data_5e4a8@.len() == PLAYER_SLOTS
        &&& self.data_5e4aa@.len() == PLAYER_SLOTS
        &&& self.data_5e4ab@.len() == PLAYER_SLOTS
        &&& self.data_5e4ac@.len() == PLAYER_SLOTS
        &&& self.data_5e4ad@.len() == PLAYER_SLOTS
        &&& self.data_5e4bf@.len() == PLAYER_SLOTS
        &&& self.selected_team@.len() == PLAYER_SLOTS
        &&& self.data_5e4a0@.len() == PLAYER_SLOTS
        &&& self.data_5e4a4@.len() == PLAYER_SLOTS
        &&& self.data_5e4a6@.len() == PLAYER_SLOTS
        &&& self.players@.len() == PLAYER_SLOTS
        &&& self.data_5e551@.len() == AGENT_TABLE_SIZE
        &&& self.data_5e552@.len() == AGENT_TABLE_SIZE
        &&& self.data_5e5c0@.len() == AGENT_TABLE_SIZE
        &&& self.data_5e555@.len() == AGENT_TABLE_SIZE
        &&& self.data_5e587@.len() == AGENT_TABLE_SIZE
        &&& self.data_5e5b9@.len() == AGENT_TABLE_SIZE
        &&& self.data_5e5ba@.len() == AGENT_TABLE_SIZE
        &&& self.data_5e5bc@.len() == AGENT_TABLE_SIZE
        &&& self.level_objectives@.len() == OBJECTIVE_COUNT
        &&& self.data_9be3e@.len() == OBJECTIVE_COUNT
        &&& self.data_9be40@.len() == OBJECTIVE_COUNT
        &&& self.data_5db2c@.len() == DIRTY_ROWS * DIRTY_COLS
        &&& self.sound.wf()
    }

    /// Offset in the level memory of person `k`.
    pub open spec fn person_offset(&self, k: int) -> int {
        self.people + k * PERSON_SIZE
    }

    /// A person record at offset `o` lies wholly inside the level memory.
    pub open spec fn record_fits(&self, o: int) -> bool {
        0 <= o && o + PERSON_SIZE <= self.things@.len()
    }

    /// Person `k` lies wholly inside the level memory.
    pub open spec fn person_in_memory(&self, k: int) -> bool {
        0 <= k && self.person_offset(k) + PERSON_SIZE <= self.things@.len()
    }

    /// The state the game starts in, over a level memory `things` whose
    /// persons begin at offset `people`.
    pub fn new(things: Vec<u8>, people: usize) -> (r: GameState)
        ensures
            r.wf(),
            r.things@ == things@,
            r.people == people,
            r.byte_60afc == 0,
            r.network_slot == 0,
            r.network_number_of_slots == 1,
            r.is_multiplayer_game == 0,
            r.level_seed == 0,
            r.draw_flags == DRW_F_SCREEN_VRES16,
            r.game_speed == 7,
            r.data_9bc77 == 0x10,
            r.audio.song_currently_playing == 0,
    {
        let mut status: Vec<BFSampleStatus> = Vec::new();
        let mut table: Vec<BFSample> = Vec::new();
        let mut i: usize = 0;
        while i < SAMPLE_COUNT
            invariant
                i <= SAMPLE_COUNT,
                status@.len() == i,
                table@.len() == i,
            decreases SAMPLE_COUNT - i,
        {
            status.push(BFSampleStatus { field_0: 0, field_1: 0 });
            table.push(
                BFSample {
                    field_0: 0,
                    field_4: 0,
                    field_8: 0,
                    field_c: 0,
                    data_shifted: 0,
                    data_start: 0,
                    field_16: 0,
                    field_18: 0,
                    field_1c: 0,
                    field_1e: 0,
                    field_1f: 0,
                },
            );
            i = i + 1;
        }
        GameState {
            byte_60afc: 0,
            is_multiplayer_game: 0,
            network_slot: 0,
            network_number_of_slots: 1,
            draw_flags: DRW_F_SCREEN_VRES16,
            level_seed: 0,
            debug_k: 0,
            cheat_credits: 0,
            mouse_swap: 0,
            mouse_old_w: 0,
            mouse_x_640: 0,
            mouse_y_400: 0,
            mmouse_x_640: 0,
            mmouse_y_400: 0,
            data_5c354: 0,
            data_5c34c: 0,
            data_5532c: 0,
            data_5532e: 0,
            data_60af0: 0,
            data_60af4: 0,
            data_60af5: 0,
            data_60af6: 0,
            data_60af7: 0,
            data_60af8: 0,
            data_60af9: 0,
            data_60afa: 0,
            data_60afb: 0,
            data_60afd: 0,
            data_60afe: 0,
            a11: 0,
            data_60b06: 0,
            data_60b32: 0,
            data_60ae8: 0,
            data_60a7c: vec![0u32; PLAYER_SLOTS],
            data_60674: vec![0u8; MISSION_STATS_SIZE],
            sound_active: 1,
            music_active: 1,
            scanner_pulse: 1,
            game_speed: 7,
            research: 0,
            data_53ee8: 0,
            data_60b50: 0,
            data_605e0: vec![0u8; PLAYER_SLOTS],
            data_605e1: vec![0u8; PLAYER_SLOTS],
            data_605de: vec![0u16; PLAYER_SLOTS],
            data_605da: vec![0u16; PLAYER_SLOTS],
            data_605dc: vec![0u16; PLAYER_SLOTS],
            data_605d6: vec![0u16; PLAYER_SLOTS],
            data_605d8: vec![0u16; PLAYER_SLOTS],
            packets: vec![0u16; PLAYER_SLOTS],
            data_5e4a8: vec![0u16; PLAYER_SLOTS],
            data_5e4aa: vec![0u8; PLAYER_SLOTS],
            data_5e4ab: vec![0u8; PLAYER_SLOTS],
            data_5e4ac: vec![0u8; PLAYER_SLOTS],
            data_5e4ad: vec![0u8; PLAYER_SLOTS],
            data_5e4bf: vec![0u8; PLAYER_SLOTS],
            selected_team: vec![0u8; PLAYER_SLOTS],
            data_5e4a0: vec![0u32; PLAYER_SLOTS],
            data_5e4a4: vec![0u16; PLAYER_SLOTS],
            data_5e4a6: vec![0u16; PLAYER_SLOTS],
            players: vec![0u32; PLAYER_SLOTS],
            data_5e551: vec![0u8; AGENT_TABLE_SIZE],
            data_5e552: vec![0i8; AGENT_TABLE_SIZE],
            data_5e5c0: vec![0u8; AGENT_TABLE_SIZE],
            data_5e555: vec![0u8; AGENT_TABLE_SIZE],
            data_5e587: vec![0u8; AGENT_TABLE_SIZE],
            data_5e5b9: vec![0u8; AGENT_TABLE_SIZE],
            data_5e5ba: vec![0u16; AGENT_TABLE_SIZE],
            data_5e5bc: vec![0u16; AGENT_TABLE_SIZE],
            level_timer: 0,
            data_5e110: 0,
            data_5e112: 0,
            data_5e11e: 0,
            data_5e122: 0,
            data_5e124: 0,
            a2: 0,
            comp_plyr_process_timer: 0,
            comp_plyr_last_process_time: 0,
            comp_plyr_process_interval: 1,
            comp_plyr_team_size: 0,
            computer_players_count: 0,
            player_view_map_x: 0,
            player_view_map_y: 0,
            destination_x: 0,
            destination_y: 0,
            level_hi_boundaryx: 0,
            level_hi_boundaryy: 0,
            level_lo_boundaryx: 0,
            level_lo_boundaryy: 0,
            data_60b18: 0,
            data_60b1c: 0,
            data_60b1e: 0,
            data_60b20: 0,
            data_60b0e: 0,
            data_60aac: 0,
            data_60b10: 0,
            data_60b0a: 0,
            data_60b1a: 0,
            data_60b12: 0,
            data_60b14: 0,
            map_cells: Vec::new(),
            level_objectives: vec![0u32; OBJECTIVE_COUNT],
            data_9be3e: vec![0u16; OBJECTIVE_COUNT],
            data_9be40: vec![0u16; OBJECTIVE_COUNT],
            level_worlds: 0,
            data_9bc72: 0,
            data_9bc77: 0x10,
            data_9bc78: 0,
            data_60b28: 0,
            data_60b2a: 0,
            data_60b2c: 0,
            data_5db2c: vec![0u8; DIRTY_ROWS * DIRTY_COLS],
            data_60b4f: 0,
            data_60b4e: 0,
            things,
            people,
            commands: Vec::new(),
            frames: Vec::new(),
            audio: AudioState::new(),
            sound: SoundBank { smptable: table, sample_status: status, smpdata: 0, byte_5bbe8: 0, byte_5bbe9: 0 },
        }
    }
}

} // verus!
