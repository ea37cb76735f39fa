use syndicatfx::sprite_table::ApSpriteSetup_ForceHeight;

#[test]
fn high_resolution_moves_offsets_and_forces_height() {
    let mut t = vec![0x10, 0, 0, 0, 7, 9, 0xf0, 0xff, 0xff, 0xff, 8, 1];
    ApSpriteSetup_ForceHeight(2, &mut t, 0x100);
    assert_eq!(t, vec![0x24, 1, 0, 0, 7, 32, 0x04, 1, 0, 0, 8, 32]);
}

#[test]
fn low_resolution_keeps_the_table() {
    let mut t = vec![1, 2, 3, 4, 5, 6];
    ApSpriteSetup_ForceHeight(1, &mut t, 0x100);
    assert_eq!(t, vec![1, 2, 3, 4, 5, 6]);
}
