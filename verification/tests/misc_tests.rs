use syndicatfx::audio::AudioState;
use syndicatfx::display::{app_resource_mapping, frame_time_left};
use syndicatfx::game::{get_data_dir, setup_file_names, GetDirectoryUser, GetDirectoryHdd, game_transform_path};
use syndicatfx::keybuf::{KeyBuffer, add_key_to_buffer, next_buffered_key, reset_buffered_keys, init_buffered_keys, k_event_buffered_keys_update, key_event};
use syndicatfx::keyboard::{KeyboardState, lb_keyboard_update, K_ACTN_KEYDOWN, K_ACTN_KEYUP};
use syndicatfx::level::{level_failed, level_complete, random, person_fits, end_check_fits, danger_check_fits, transfer_fits};
use syndicatfx::motion::{sine_lookup, getdist};
use syndicatfx::sound::{BFSoundPause, BFSoundResume};
use syndicatfx::state::GameState;
use syndicatfx::types::CPObjective;
use syndicatfx::memory::{LbMemoryMove, LbMemorySet};

#[test]
fn icon_resource() {
    assert_eq!(app_resource_mapping(1), Some(b"syndicatfx_icon64.png".to_vec()));
    assert_eq!(app_resource_mapping(0), None);
    assert_eq!(app_resource_mapping(2), None);
}

#[test]
fn frame_time_left_at_sixteen_frames_a_second() {
    assert_eq!(frame_time_left(0, 5000), 0);
    assert_eq!(frame_time_left(1000, 1010), 50);
    assert_eq!(frame_time_left(1000, 1060), 0);
    assert_eq!(frame_time_left(1000, 1059), 1);
}

#[test]
fn data_and_user_directories() {
    assert_eq!(get_data_dir(None), b"/usr/share/syndicatfx".to_vec());
    assert_eq!(get_data_dir(Some(b"/opt/g")), b"/opt/g".to_vec());
    let mut user = [0u8; 64];
    let mut hdd = [0u8; 64];
    setup_file_names(&mut user, &mut hdd, None, Some(b"/home/a"), None);
    assert_eq!(&user[..28], b"/home/a/.config/syndicatfx\0\0");
    assert_eq!(&hdd[..22], b"/usr/share/syndicatfx\0");
    GetDirectoryUser(&mut user, Some(b"/x"), None);
    assert_eq!(&user[..8], b"/home/a/");
    let mut other = [0u8; 16];
    GetDirectoryUser(&mut other, Some(b"/x"), Some(b"/h"));
    assert_eq!(&other[..15], b"/x/syndicatfx\0\0");
    let mut none = [0u8; 4];
    GetDirectoryUser(&mut none, None, None);
    assert_eq!(none, [b'.', 0, 0, 0]);
    let mut h = [0u8; 4];
    GetDirectoryHdd(&mut h, Some(b"/opt/g"));
    assert_eq!(h, [b'/', b'o', b'p', 0]);
}

#[test]
fn transform_path_cases() {
    assert_eq!(game_transform_path(b"SAVE/g.dat", b"/u", b"/h"), b"/u/g.dat".to_vec());
    assert_eq!(game_transform_path(b"/abs/x", b"/u", b"/h"), b"/abs/x".to_vec());
    assert_eq!(game_transform_path(b"c:x", b"/u", b"/h"), b"c:x".to_vec());
    assert_eq!(game_transform_path(b"data/x", b"/u", b"/h"), b"/h/data/x".to_vec());
}

#[test]
fn key_buffer_is_first_in_first_out() {
    let mut kb = KeyBuffer::new();
    assert_eq!(next_buffered_key(&mut kb), 0);
    add_key_to_buffer(&mut kb, 30);
    add_key_to_buffer(&mut kb, 31);
    assert_eq!(next_buffered_key(&mut kb), 30);
    assert_eq!(next_buffered_key(&mut kb), 31);
    assert_eq!(next_buffered_key(&mut kb), 0);
}

#[test]
fn key_buffer_full_drops_new_keys() {
    let mut kb = KeyBuffer::new();
    for k in 1..=20u8 {
        add_key_to_buffer(&mut kb, k);
    }
    for k in 1..=15u32 {
        assert_eq!(next_buffered_key(&mut kb), k);
    }
    assert_eq!(next_buffered_key(&mut kb), 0);
    add_key_to_buffer(&mut kb, 9);
    reset_buffered_keys(&mut kb);
    assert_eq!(next_buffered_key(&mut kb), 0);
}

#[test]
fn mission_ends_once() {
    let mut s = GameState::new(vec![0u8; 64], 0);
    s.byte_60afc = 1;
    level_failed(&mut s);
    assert_eq!(s.byte_60afc, 5);
    assert_eq!(s.data_5532c, 0x10);
    assert_eq!(s.data_5c354, 1);
    s.data_5532c = 0;
    level_complete(&mut s);
    level_failed(&mut s);
    assert_eq!(s.byte_60afc, 5);
    assert_eq!(s.data_5532c, 0);
    let mut t = GameState::new(vec![0u8; 64], 0);
    level_complete(&mut t);
    assert_eq!(t.byte_60afc, 2);
}

#[test]
fn random_steps_the_seed() {
    let mut s = GameState::new(vec![0u8; 64], 0);
    s.level_seed = 0;
    let r = random(&mut s, 100);
    assert_eq!(s.level_seed, 0x24df);
    assert_eq!(r, 0x24df % 100);
    s.level_seed = 0xffff;
    let r2 = random(&mut s, 10);
    let seed = ((0xffffu32 * 0x24a1 + 0x24df) % 65536) as u16;
    assert_eq!(s.level_seed, seed);
    assert_eq!(r2, ((seed as i16 as i32) % 10) as u32);
}

#[test]
fn sine_half_turn_and_distance() {
    for a in 0..=255u8 {
        assert_eq!(sine_lookup(a.wrapping_add(128)), -sine_lookup(a));
    }
    assert_eq!(getdist(3, -7), 7);
    assert_eq!(getdist(-9, 2), 9);
}

#[test]
fn sound_pauses_only_when_active() {
    let mut a = AudioState::new();
    assert!(!BFSoundPause(&a));
    a.sound_able = true;
    a.sound_active = true;
    assert!(BFSoundPause(&a));
    assert!(BFSoundResume(&a));
    a.sound_active = false;
    assert!(!BFSoundResume(&a));
}

#[test]
fn empty_objective() {
    let o = CPObjective::zero();
    assert_eq!(o, CPObjective { child: 0, parent: 0, field_4: 0, field_6: 0, action_type: 0, action: 0, target_offs: 0, field_b: 0, field_d: 0 });
}

#[test]
fn memory_move_overlapping() {
    let mut b = [1u8, 2, 3, 4, 5, 6];
    LbMemoryMove(&mut b, 1, 0, 4);
    assert_eq!(b, [1, 1, 2, 3, 4, 6]);
    let mut c = [1u8, 2, 3, 4, 5, 6];
    LbMemoryMove(&mut c, 0, 2, 4);
    assert_eq!(c, [3, 4, 5, 6, 5, 6]);
    let mut d = [0u8; 4];
    LbMemorySet(&mut d, 7, 3);
    assert_eq!(d, [7, 7, 7, 0]);
}

#[test]
fn typed_keys_come_back_in_order() {
    let mut kbd = KeyboardState::new();
    let mut kb = KeyBuffer::new();
    init_buffered_keys(&mut kbd);
    let events = [(K_ACTN_KEYDOWN, 30u8), (K_ACTN_KEYUP, 30), (K_ACTN_KEYDOWN, 48), (K_ACTN_KEYDOWN, 46), (K_ACTN_KEYUP, 48)];
    for (action, code) in events {
        if lb_keyboard_update(&mut kbd, action, code) {
            k_event_buffered_keys_update(&mut kb, &kbd, action, code);
        }
    }
    assert_eq!(next_buffered_key(&mut kb), 30);
    assert_eq!(next_buffered_key(&mut kb), 48);
    assert_eq!(next_buffered_key(&mut kb), 46);
    assert_eq!(next_buffered_key(&mut kb), 0);
    assert_eq!(next_buffered_key(&mut kb), 0);
}

#[test]
fn persons_are_checked_against_the_level_memory() {
    let small = GameState::new(vec![0u8; 0x100], 0);
    assert!(person_fits(&small, 0));
    assert!(person_fits(&small, 1));
    assert!(!person_fits(&small, 2));
    assert!(!person_fits(&small, -1));
    // four persons of 0x5c bytes do not fit in 0x100 bytes
    assert!(!end_check_fits(&small));
    let big = GameState::new(vec![0u8; 0x1000], 0);
    assert!(end_check_fits(&big));
    assert!(danger_check_fits(&big));
    assert!(transfer_fits(&big, 0));
    let mut far = GameState::new(vec![0u8; 0x1000], 0);
    far.data_5e551[0] = 60;
    far.data_5e5c0[0] = 1;
    assert!(!transfer_fits(&far, 0));
}

#[test]
fn the_lead_agent_may_lie_before_the_persons() {
    let mut s = GameState::new(vec![0u8; 0x1000], 0x100);
    s.data_5e552[0] = -1;
    assert!(danger_check_fits(&s));
    let mut t = GameState::new(vec![0u8; 0x1000], 0);
    t.data_5e552[0] = -1;
    assert!(!danger_check_fits(&t));
}

#[test]
fn key_events_reach_the_buffer_once_its_handler_is_in() {
    let mut kbd = KeyboardState::new();
    let mut kb = KeyBuffer::new();
    key_event(&mut kbd, &mut kb, K_ACTN_KEYDOWN, 30);
    assert_eq!(kbd.key_on[30], 1);
    assert_eq!(next_buffered_key(&mut kb), 0);
    init_buffered_keys(&mut kbd);
    key_event(&mut kbd, &mut kb, K_ACTN_KEYUP, 30);
    key_event(&mut kbd, &mut kb, K_ACTN_KEYDOWN, 0);
    key_event(&mut kbd, &mut kb, K_ACTN_KEYDOWN, 48);
    assert_eq!(kbd.key_on[30], 0);
    assert_eq!(kbd.inkey, 48);
    assert_eq!(next_buffered_key(&mut kb), 48);
    assert_eq!(next_buffered_key(&mut kb), 0);
}
