use syndicatfx::chains::last_in_chain;
use syndicatfx::persons::set_who_shot_me;
use syndicatfx::vehicles::{fn_s_person_move_into_vehicle, fn_s_person_passenger};
use syndicatfx::walking::{fn_s_person_goto_point, fn_s_person_goto_structure, walk_on, GotoStep};
use syndicatfx::weapons::{fn_s_person_pickup_weapon, fn_s_person_drop_weapon};

fn put16(m: &mut [u8], o: usize, v: u16) {
    m[o] = (v & 0xff) as u8;
    m[o + 1] = (v >> 8) as u8;
}

fn get16(m: &[u8], o: usize) -> u16 {
    m[o] as u16 | ((m[o + 1] as u16) << 8)
}

fn place(m: &mut [u8], t: usize, x: i16, y: i16, z: i16) {
    put16(m, t + 4, x as u16);
    put16(m, t + 6, y as u16);
    put16(m, t + 8, z as u16);
}

const E: usize = 0x100;
const V: usize = 0x200;
const P2: usize = 0x300;

fn world() -> Vec<u8> {
    let mut m = vec![0u8; 0x400];
    place(&mut m, E, 1000, 1000, 0);
    place(&mut m, V, 1050, 1000, 0);
    m[V + 0x18] = 2;
    m[V + 0x19] = 9;
    m[V + 0x28] = 0x33;
    put16(&mut m, E + 0x2c, V as u16);
    place(&mut m, P2, 1060, 990, 0);
    put16(&mut m, P2 + 0x2c, V as u16);
    m
}

#[test]
fn boarding_an_empty_vehicle() {
    let mut m = world();
    m[E + 0x19] = 6;
    let pos = fn_s_person_move_into_vehicle(&mut m, E);
    assert_eq!(pos, Some((1050, 1000, 0)));
    assert_eq!(get16(&m, E + 0x24), V as u16);
    assert_eq!(get16(&m, V + 0x1c), E as u16);
    assert_eq!(m[E + 0x19], 8);
    assert_eq!(m[E + 0x0a] & 9, 9);
    assert_eq!(get16(&m, E + 0x34), 1050);
    assert_eq!(get16(&m, E + 0x36), 1000);
}

#[test]
fn second_passenger_joins_the_chain_end() {
    let mut m = world();
    fn_s_person_move_into_vehicle(&mut m, E);
    let pos = fn_s_person_move_into_vehicle(&mut m, P2);
    assert_eq!(pos, Some((1050, 1000, 0)));
    assert_eq!(get16(&m, E + 0x22), P2 as u16);
    assert_eq!(get16(&m, P2 + 0x24), E as u16);
    assert_eq!(get16(&m, P2 + 0x22), 0);
    assert_eq!(last_in_chain(&m, E, 0x22), P2);
}

#[test]
fn vehicle_out_of_reach_is_approached() {
    let mut m = world();
    place(&mut m, V, 1200, 1000, 0);
    assert_eq!(fn_s_person_move_into_vehicle(&mut m, E), None);
    assert_eq!((m[E + 0x19], m[E + 0x58]), (5, 6));
    place(&mut m, V, 1000, 1000, 200);
    assert_eq!(fn_s_person_move_into_vehicle(&mut m, E), None);
}

#[test]
fn destroyed_vehicle_is_given_up() {
    let mut m = world();
    m[V + 0x0b] = 1;
    m[E + 0x19] = 6;
    assert_eq!(fn_s_person_move_into_vehicle(&mut m, E), None);
    assert_eq!(m[E + 0x19], 0);
    assert_eq!(get16(&m, E + 0x24), 0);
}

#[test]
fn passenger_rides_and_leaves_a_running_vehicle() {
    let mut m = world();
    fn_s_person_move_into_vehicle(&mut m, E);
    let map: Vec<u32> = Vec::new();
    assert_eq!(fn_s_person_passenger(&mut m, E, &map), Some((1050, 1000, 0)));
    m[V + 0x19] = 3;
    assert_eq!(fn_s_person_passenger(&mut m, E, &map), None);
    assert_eq!(m[E + 0x55], 0x33);
    assert_eq!(m[E + 0x0a] & 8, 0);
}

#[test]
fn passenger_steps_off_off_road() {
    let mut m = world();
    fn_s_person_move_into_vehicle(&mut m, E);
    const F: usize = 0x380;
    put16(&mut m, E + 0x20, F as u16);
    let map = vec![0u32; 96 * 128 + 256];
    assert_eq!(fn_s_person_passenger(&mut m, E, &map), None);
    assert_eq!((m[E + 0x19], m[E + 0x58]), (7, 0x1e));
    let mut m2 = world();
    fn_s_person_move_into_vehicle(&mut m2, E);
    put16(&mut m2, E + 0x20, F as u16);
    let road = vec![2u32; 96 * 128 + 256];
    assert_eq!(fn_s_person_passenger(&mut m2, E, &road), Some((1050, 1000, 0)));
}

fn frames() -> Vec<u8> {
    let mut f = vec![0u8; 16];
    f[6] = 1;
    f[8 + 5] = 1;
    f[8 + 6] = 1;
    f
}

#[test]
fn picking_up_a_weapon() {
    const W: usize = 0x200;
    let mut m = vec![0u8; 0x400];
    place(&mut m, E, 10, 20, 0);
    place(&mut m, W, 10, 20, 64);
    put16(&mut m, E + 0x2c, W as u16);
    put16(&mut m, W + 0x14, 100);
    m[W + 0x19] = 1;
    m[E + 0x19] = 9;
    fn_s_person_pickup_weapon(&mut m, &frames(), E);
    assert_eq!(get16(&m, W + 0x14), 50);
    assert_eq!(get16(&m, E + 0x3a), W as u16);
    assert_eq!(get16(&m, W + 0x1e), E as u16);
    assert_eq!(get16(&m, W + 0x20), E as u16);
    assert_eq!(m[W + 0x0a] & 1, 1);
    assert_eq!(m[E + 0x1a], 0x20);
    assert_eq!(get16(&m, E + 0x10), 1);
}

#[test]
fn weapon_out_of_reach_is_approached() {
    const W: usize = 0x200;
    let mut m = vec![0u8; 0x400];
    place(&mut m, E, 10, 20, 0);
    place(&mut m, W, 11, 20, 0);
    put16(&mut m, E + 0x2c, W as u16);
    fn_s_person_pickup_weapon(&mut m, &frames(), E);
    assert_eq!((m[E + 0x19], m[E + 0x58]), (5, 9));
}

#[test]
fn dropping_a_weapon_animates() {
    let mut m = vec![0u8; 0x400];
    fn_s_person_drop_weapon(&mut m, &frames(), E);
    assert_eq!(get16(&m, E + 0x10), 1);
    assert_eq!(m[E + 0x1a], 0x20);
}

#[test]
fn going_to_a_structure() {
    const T: usize = 0x200;
    let mut m = vec![0u8; 0x400];
    place(&mut m, T, 500, 500, 7);
    m[T + 0x18] = 2;
    put16(&mut m, E + 0x2c, T as u16);
    assert_eq!(fn_s_person_goto_structure(&mut m, E, 0, 0), GotoStep::OnFoot);
    assert_eq!((get16(&m, E + 0x2e), get16(&m, E + 0x30), get16(&m, E + 0x32)), (500, 500, 7));
    assert_eq!(fn_s_person_goto_structure(&mut m, E, 480, 500), GotoStep::Done);
    m[T + 0x0b] = 1;
    assert_eq!(fn_s_person_goto_structure(&mut m, E, 0, 0), GotoStep::Done);
}

#[test]
fn going_to_a_point_by_vehicle() {
    let mut m = world();
    assert_eq!(fn_s_person_goto_point(&m, E), GotoStep::OnFoot);
    put16(&mut m, E + 0x24, V as u16);
    assert_eq!(fn_s_person_goto_point(&m, E), GotoStep::InVehicle(V));
    let mut w = vec![0u8; 0x400];
    m[E + 0x19] = 1;
    walk_on(&mut w, &frames(), E, false);
    assert_eq!(get16(&w, E + 0x10), 1);
}

#[test]
fn who_shot_me_is_recorded() {
    let mut m = vec![0u8; 0x400];
    set_who_shot_me(&mut m, E, V);
    assert_eq!(get16(&m, V + 0x16), 0);
    put16(&mut m, E + 0x1c, 5);
    set_who_shot_me(&mut m, E, V);
    assert_eq!(get16(&m, V + 0x16), E as u16);
}
