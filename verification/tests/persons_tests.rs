use syndicatfx::persons::{
    get_person_speed, fn_s_person_wait_for_time, fn_s_person_next_command, who_shot_me, fn_s_person_select_weapon,
    fn_s_person_move_out_of_vehicle, affect_person, stat_scaled, quick_decide_on_hug_direction,
};
use syndicatfx::vehicles::fn_s_person_move_into_vehicle;
use syndicatfx::state::GameState;

fn put16(m: &mut [u8], o: usize, v: u16) {
    m[o] = (v & 0xff) as u8;
    m[o + 1] = (v >> 8) as u8;
}

fn get16(m: &[u8], o: usize) -> u16 {
    m[o] as u16 | ((m[o + 1] as u16) << 8)
}

const E: usize = 0x100;

#[test]
fn stat_modifier_scales_the_excess() {
    assert_eq!(stat_scaled(100, 100, 1000), 0);
    assert_eq!(stat_scaled(100, 200, 1000), 100 * 1000 / 155);
    assert_eq!(stat_scaled(100, 50, 1000), -50 * 1000 / 100);
    assert_eq!(stat_scaled(100, 99, 7), 0);
}

#[test]
fn person_speed_on_foot_and_in_vehicle() {
    let mut m = vec![0u8; 0x400];
    m[E + 0x3c] = 0x08;
    m[E + 0x48] = 100;
    m[E + 0x49] = 200;
    // base 1625 less 625 of weight: 1000 through the adrenalin twice.
    assert_eq!(get_person_speed(&m, E, 0, 625), (100 * (100 * 1000 / 155)) / 155);
    m[E + 0x49] = 100;
    assert_eq!(get_person_speed(&m, E, 0, 625), 0x10);
    // overloaded: 200 over, modifier 300 -> 240
    m[E + 0x49] = 200;
    assert_eq!(get_person_speed(&m, E, 300, 1825), (100 * 240) / 155);
    put16(&mut m, E + 0x1c, 0x02);
    assert_eq!(get_person_speed(&m, E, 10, 0), 0x0c);
}

#[test]
fn effects_change_the_state() {
    let mut m = vec![0u8; 0x400];
    m[E + 0x19] = 4;
    assert_eq!(affect_person(&mut m, E, false), 4);
    put16(&mut m, E + 0x0c, 0x0080);
    assert_eq!(affect_person(&mut m, E, false), 0x15);
    assert_eq!(get16(&m, E + 0x0c), 0);
    assert_eq!(m[E + 0x0a] & 8, 8);
    put16(&mut m, E + 0x0c, 0x0400);
    put16(&mut m, E + 0x16, 0x300);
    assert_eq!(affect_person(&mut m, E, true), 0x2c);
    assert_eq!(get16(&m, E + 0x20), 0x300);
}

#[test]
fn waiting_runs_the_countdown() {
    let mut m = vec![0u8; 0x400];
    m[E + 0x19] = 9;
    put16(&mut m, E + 0x2c, 3);
    fn_s_person_wait_for_time(&mut m, E, false);
    assert_eq!(get16(&m, E + 0x2c), 2);
    assert_eq!(m[E + 0x19], 9);
    put16(&mut m, E + 0x2c, 0);
    put16(&mut m, E + 0x44, 7);
    fn_s_person_wait_for_time(&mut m, E, false);
    assert_eq!(get16(&m, E + 0x44), 0);
    assert_eq!(m[E + 0x19], 0);
}

#[test]
fn selecting_a_weapon() {
    let mut m = vec![0u8; 0x400];
    put16(&mut m, E + 0x2c, 0x280);
    fn_s_person_select_weapon(&mut m, E);
    assert_eq!(get16(&m, E + 0x44), 0x280);
}

#[test]
fn next_command_goes_to_a_point() {
    let mut s = GameState::new(vec![0u8; 0x400], 0);
    let mut cmds = vec![0u8; 32];
    // command at 8: no next command, goto point (type 1) to cell (3, 4, 1)
    cmds[8 + 4] = 3;
    cmds[8 + 5] = 4;
    cmds[8 + 6] = 1;
    cmds[8 + 7] = 1;
    s.commands = cmds;
    put16(&mut s.things, E + 0x26, 8);
    put16(&mut s.things, E + 0x28, 16);
    fn_s_person_next_command(&mut s, E);
    assert_eq!((s.things[E + 0x19], s.things[E + 0x58]), (3, 3));
    assert_eq!(get16(&s.things, E + 0x2e), 3 * 128 + 64);
    assert_eq!(get16(&s.things, E + 0x30), 4 * 128 + 64);
    assert_eq!(get16(&s.things, E + 0x32), 128);
    assert_eq!(get16(&s.things, E + 0x26), 16);
}

#[test]
fn mission_command_fails_the_mission() {
    let mut s = GameState::new(vec![0u8; 0x400], 0);
    let mut cmds = vec![0u8; 32];
    cmds[8 + 7] = 7;
    s.commands = cmds;
    s.byte_60afc = 1;
    put16(&mut s.things, E + 0x26, 8);
    fn_s_person_next_command(&mut s, E);
    assert_eq!(s.byte_60afc, 5);
}

#[test]
fn shots_are_tallied_and_make_shooters_hostile() {
    let mut s = GameState::new(vec![0u8; 0x400], 0);
    let a = 0x5c;
    put16(&mut s.things, E + 0x16, a as u16);
    s.things[E + 0x1c] = 1;
    s.things[a + 0x1c] = 2;
    who_shot_me(&mut s, E);
    assert_eq!(s.data_60af4, 1);
    assert_eq!(s.things[a + 0x1c], 0x42);
    let mut t = GameState::new(vec![0u8; 0x400], 0);
    put16(&mut t.things, E + 0x16, 0x200);
    t.things[E + 0x1c] = 4;
    t.things[0x200 + 0x1c] = 2;
    who_shot_me(&mut t, E);
    assert_eq!(t.data_60af5, 0);
    assert_eq!(t.things[0x200 + 0x1d], 2);
}

#[test]
fn leaving_a_vehicle() {
    let mut m = vec![0u8; 0x400];
    const V: usize = 0x200;
    put16(&mut m, E + 4, 1000);
    put16(&mut m, E + 6, 1000);
    put16(&mut m, V + 4, 1010);
    put16(&mut m, V + 6, 1000);
    m[V + 0x18] = 2;
    m[V + 0x19] = 9;
    put16(&mut m, E + 0x2c, V as u16);
    fn_s_person_move_into_vehicle(&mut m, E);
    m[E + 0x56] = 0x21;
    let pos = fn_s_person_move_out_of_vehicle(&mut m, E);
    assert_eq!(pos, Some((1001, 1001, 0)));
    assert_eq!(get16(&m, E + 0x24), 0);
    assert_eq!(get16(&m, V + 0x1c), 0);
    assert_eq!(m[E + 0x55], 0x21);
    assert_eq!(m[E + 0x0a] & 1, 0);
    assert_eq!(fn_s_person_move_out_of_vehicle(&mut m, E), None);
}

#[test]
fn hugging_turns_along_the_first_blocked_direction() {
    let mut m = vec![0u8; 0x400];
    m[E + 0x1a] = 0x30;
    quick_decide_on_hug_direction(&mut m, E, 0x1f4, 0b0100);
    assert_eq!(m[E + 0x5a], 0x80);
    assert_eq!(m[E + 0x59], 4);
    assert_eq!(get16(&m, E + 0x42), 0x1f4);
    assert_eq!((m[E + 0x19], m[E + 0x1a]), (0x0f, 0x40));
    let mut w = vec![0u8; 0x400];
    w[E + 0x1a] = 0xf0;
    quick_decide_on_hug_direction(&mut w, E, 0, 0b0001);
    // start 0xc0: blocked at 0x00 after one quarter turn; 0 < 0xf0 turns left
    assert_eq!(w[E + 0x5a], 0x00);
    assert_eq!((w[E + 0x19], w[E + 0x1a]), (0x0e, 0x40));
}

#[test]
fn hugging_keeps_the_distance_to_the_hug_target() {
    let mut m = vec![0u8; 0x400];
    put16(&mut m, E + 0x04, 100);
    put16(&mut m, E + 0x06, 10);
    put16(&mut m, E + 0x2e, 130);
    put16(&mut m, E + 0x30, 50);
    quick_decide_on_hug_direction(&mut m, E, 0, 0b0001);
    // 130 - 100 across and 50 - 10 along
    assert_eq!(get16(&m, E + 0x1e), 70);
}
