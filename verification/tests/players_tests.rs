use syndicatfx::players::{
    set_default_player, process_computer_players, menu_select, menu_select_impl, level_finished, level_finished_impl,
    process_players_turn, initialise_player, multi_play, syndicate_turn, mission_continues, mission_over_step, TurnPlan,
};
use syndicatfx::state::GameState;

fn next_seed(s: u16) -> u16 {
    ((s as u32 * 0x24a1 + 0x24df) % 65536) as u16
}

fn names() -> Vec<u8> {
    (0..108u32).map(|i| (i * 7 % 251) as u8).collect()
}

#[test]
fn default_player_sets_up_eight_slots() {
    let mut s = GameState::new(vec![0u8; 64], 0);
    s.level_seed = 1234;
    s.network_slot = 3;
    let n = names();
    set_default_player(&mut s, &n);
    assert_eq!(s.network_slot, 0);
    let mut seed = 1234u16;
    for k in 0..8usize {
        assert_eq!(s.data_605e0[k], k as u8);
        assert_eq!(s.data_605da[k], seed);
        assert_eq!(s.data_5e4aa[k], if k == 0 { 1 } else { 2 });
        assert_eq!(s.data_5e4ac[k], k as u8);
        assert_eq!(s.data_5e4a4[k], 1);
        assert_eq!(s.data_5e4a6[k], 0x55);
        assert_eq!(s.players[k], 30000);
        assert_eq!(s.data_5e551[k], 8 * k as u8);
        for a in 0..18usize {
            seed = next_seed(seed);
            let i = k * 92 + a;
            if i < 512 {
                let r = (seed as i16 as i32) % 3;
                assert_eq!(s.data_5e5bc[i], ((r as u32) & 1) as u16);
                assert_eq!(s.data_5e5ba[i], 0x10);
                assert_eq!(s.data_5e5b9[i], n[18 * k + a]);
            } else {
                assert_eq!(s.data_5e5ba[i], 0);
            }
        }
        for a in 18..50usize {
            let i = k * 92 + a;
            if i < 512 {
                assert_eq!(s.data_5e5ba[i], 0xffff);
                assert_eq!(s.data_5e5b9[i], 0xff);
            }
        }
        if k * 92 < 512 {
            assert_eq!(s.data_5e5c0[k * 92], 1);
            assert_eq!(s.data_5e5c0[k * 92 + 3], 4);
            assert_eq!(s.data_5e5c0[k * 92 + 4], 0);
        }
    }
    assert_eq!(s.level_seed, seed);
    assert_eq!(&s.selected_team[..4], &[1, 2, 3, 4]);
}

#[test]
fn default_player_with_credits_cheat() {
    let mut s = GameState::new(vec![0u8; 64], 0);
    s.cheat_credits = 1;
    set_default_player(&mut s, &names());
    assert!(s.players.iter().all(|&c| c == 100_000_000));
}

#[test]
fn computer_players_run_on_their_interval() {
    let mut s = GameState::new(vec![0u8; 64], 0);
    s.comp_plyr_process_interval = 3;
    process_computer_players(&mut s);
    assert_eq!((s.comp_plyr_process_timer, s.comp_plyr_last_process_time), (1, 0));
    process_computer_players(&mut s);
    process_computer_players(&mut s);
    assert_eq!((s.comp_plyr_process_timer, s.comp_plyr_last_process_time), (3, 3));
    s.comp_plyr_process_timer = u32::MAX;
    s.comp_plyr_last_process_time = u32::MAX - 1;
    process_computer_players(&mut s);
    assert_eq!((s.comp_plyr_process_timer, s.comp_plyr_last_process_time), (0, u32::MAX - 1));
}

#[test]
fn menus_use_the_low_resolution_screen() {
    let mut s = GameState::new(vec![0u8; 64], 0);
    s.mouse_swap = 0;
    s.mouse_old_w = 5;
    assert_eq!(menu_select(&mut s, false), 0);
    assert_eq!((s.draw_flags, s.mouse_swap, s.mouse_old_w), (1, 1, 0));
    let mut t = GameState::new(vec![0u8; 64], 0);
    assert_eq!(menu_select_impl(&mut t, true), 0);
    assert_eq!(t.draw_flags, 1);
}

#[test]
fn aborted_mission_leaves_the_campaign() {
    let mut s = GameState::new(vec![0u8; 64], 0);
    s.byte_60afc = 0x08 | 0x04;
    s.sound_active = 0;
    s.players[0] = 5;
    level_finished(&mut s, true, &names());
    assert_eq!(s.byte_60afc, 0x0c);
    assert_eq!((s.sound_active, s.music_active, s.mouse_swap), (1, 1, 1));
    assert_eq!(s.players[0], 5);
}

#[test]
fn completed_mission_is_debriefed() {
    let mut s = GameState::new(vec![0u8; 64], 0);
    s.byte_60afc = 0x02;
    s.players[0] = 5;
    level_finished_impl(&mut s, false, &names());
    assert_eq!(s.byte_60afc, 0x12);
    assert_eq!(s.players[0], 5);
}

#[test]
fn failed_mission_without_agents_restarts_the_campaign() {
    let mut s = GameState::new(vec![0u8; 64], 0);
    s.byte_60afc = 0x04;
    s.players[0] = 5;
    level_finished(&mut s, false, &names());
    assert_eq!(s.byte_60afc, 0x14);
    assert_eq!(s.players[0], 30000);
}

#[test]
fn failed_mission_with_agents_left_goes_on() {
    let mut s = GameState::new(vec![0u8; 64], 0);
    s.byte_60afc = 0x04;
    s.network_slot = 1;
    s.data_5e5ba[92 + 17] = 1;
    s.players[0] = 5;
    level_finished(&mut s, false, &names());
    assert_eq!(s.byte_60afc, 0x04);
    assert_eq!(s.players[0], 5);
}

#[test]
fn players_turn_takes_the_panel_answers() {
    let mut s = GameState::new(vec![0u8; 64], 0);
    s.level_timer = 0xffff;
    s.data_5e124 = 3;
    s.a2 = 2;
    process_players_turn(&mut s, 1, 3, 5);
    assert_eq!(s.level_timer, 0);
    assert_eq!(s.data_5e122, 3);
    assert_eq!(s.data_5e124, 3);
    assert_eq!(s.data_5e112, 0);
    assert_eq!((s.a2, s.data_5e11e, s.data_5e110), (1, 2, 1));
    process_players_turn(&mut s, 0, 4, 0);
    assert_eq!(s.data_5e124, 4);
    assert_eq!(s.data_5e112, 1);
    assert_eq!((s.a2, s.data_5e11e), (1, 2));
    process_players_turn(&mut s, 0, 0, 6);
    assert_eq!((s.a2, s.data_5e11e), (6, 1));
}

#[test]
fn player_slot_is_set_up() {
    let mut s = GameState::new(vec![0u8; 64], 0);
    s.network_slot = 4;
    s.network_number_of_slots = 3;
    assert!(initialise_player(&mut s, 0xffff));
    assert_eq!((s.network_slot, s.network_number_of_slots), (0, 1));
    s.is_multiplayer_game = 1;
    assert!(!initialise_player(&mut s, 0xfffe));
    assert!(initialise_player(&mut s, 3));
}

#[test]
fn network_turn_bookkeeping() {
    let mut s = GameState::new(vec![0u8; 64], 0);
    s.network_slot = 1;
    s.level_seed = 77;
    s.level_timer = 9;
    s.data_605de[1] = 0xffff;
    multi_play(&mut s, 1);
    assert_eq!((s.data_605da[1], s.data_605dc[1], s.data_605de[1], s.data_605e1[1]), (77, 9, 0, 2));
    assert_eq!(s.data_60b4f, 1);
    assert!(s.data_5db2c.iter().all(|&b| b == 1));
    multi_play(&mut s, 3);
    assert_eq!((s.data_605de[1], s.data_605e1[1]), (1, 2));
    assert_eq!(s.data_605da[0], 0);
}

#[test]
fn mission_turns_are_planned() {
    let first = syndicate_turn(0, 0);
    assert_eq!(first, TurnPlan { players_turn: false, network_turn: false, sound_turn: false, set_palette: false, next_init_state: 1 });
    let third = syndicate_turn(2, 1);
    assert_eq!(third, TurnPlan { players_turn: true, network_turn: true, sound_turn: false, set_palette: true, next_init_state: 3 });
    let later = syndicate_turn(3, 0);
    assert_eq!(later, TurnPlan { players_turn: true, network_turn: false, sound_turn: true, set_palette: false, next_init_state: 3 });
    assert!(mission_continues(1, 0));
    assert!(!mission_continues(1, 1));
    assert!(!mission_continues(0x0e, 0));
}

#[test]
fn a_mission_over_stops_the_music_and_brings_the_agents_home() {
    let mut s = GameState::new(vec![0u8; 0x1000], 0);
    s.audio.music_able = true;
    s.audio.song_currently_playing = 3;
    s.mouse_swap = 0;
    s.mouse_old_w = 9;
    assert!(mission_over_step(&mut s, 0));
    assert_eq!(s.audio.song_currently_playing, 0);
    assert_eq!((s.mouse_swap, s.mouse_old_w), (1, 0));

    let mut q = GameState::new(vec![0u8; 0x1000], 0);
    q.audio.song_currently_playing = 3;
    q.mouse_old_w = 9;
    assert!(!mission_over_step(&mut q, 1));
    // music cannot play: the song is left alone; the quit key skips the rest
    assert_eq!(q.audio.song_currently_playing, 3);
    assert_eq!(q.mouse_old_w, 9);
}
