use syndicatfx::angles::{arctan, get_angle};

#[test]
fn arctan_cardinal_directions() {
    assert_eq!(arctan(0, 0), 0);
    assert_eq!(arctan(0, 10), 0);
    assert_eq!(arctan(10, 0), 64);
    assert_eq!(arctan(0, -10), 128);
    assert_eq!(arctan(-10, 0), 192);
}

#[test]
fn get_angle_truncates_to_16_bits() {
    assert_eq!(get_angle(0x1_0000, 5), 0);
    assert_eq!(get_angle(7, 0), 64);
}

#[test]
fn scaling_a_direction_keeps_its_angle() {
    assert_eq!(arctan(3, 4), arctan(6, 8));
    assert_eq!(arctan(-5, 2), arctan(-500, 200));
    assert_eq!(arctan(7, -1), arctan(70, -10));
    assert_eq!(arctan(-9, -9), arctan(-27, -27));
}
