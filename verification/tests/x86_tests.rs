use syndicatfx::x86::{idiv32, sar, asl_mul_slot};

#[test]
fn idiv32_rounds_toward_zero() {
    assert_eq!(idiv32(0, 7, 2), (3, 1));
    // -7 / 2 = -3 rem -1
    assert_eq!(idiv32(0xffff_ffff, (-7i32) as u32, 2), ((-3i32) as u32, (-1i32) as u32));
    // 7 / -2 = -3 rem 1
    assert_eq!(idiv32(0, 7, (-2i32) as u32), ((-3i32) as u32, 1));
    // -7 / -2 = 3 rem -1
    assert_eq!(idiv32(0xffff_ffff, (-7i32) as u32, (-2i32) as u32), (3, (-1i32) as u32));
}

#[test]
fn idiv32_uses_the_whole_pair() {
    // 0x1_0000_0000 / 16 = 0x1000_0000
    assert_eq!(idiv32(1, 0, 16), (0x1000_0000, 0));
    let (q, r) = idiv32(0, 1000, 7);
    assert_eq!(q * 7 + r, 1000);
}

#[test]
fn sar_fills_with_the_sign() {
    assert_eq!(sar(0x8000_0000, 31), 0xffff_ffff);
    assert_eq!(sar(0x7fff_ffff, 31), 0);
    assert_eq!(sar((-5i32) as u32, 1), (-3i32) as u32);
    assert_eq!(sar(12, 2), 3);
    assert_eq!(sar(12, 0), 12);
}

#[test]
fn person_record_offsets() {
    assert_eq!(asl_mul_slot(0), 0);
    assert_eq!(asl_mul_slot(3), 276);
    assert_eq!(asl_mul_slot(0x4000_0000), 0);
}
