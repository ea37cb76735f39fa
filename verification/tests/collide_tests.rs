use syndicatfx::collide::sight_colide;

fn tables() -> (Vec<u32>, Vec<u8>, Vec<u8>, Vec<u8>) {
    let mut map = vec![0u32; 256];
    map[131] = 10;
    map[3] = 20;
    let mut blocks = vec![0u8; 64];
    blocks[11] = 7;
    blocks[20] = 8;
    let mut h_col = vec![0u8; 256];
    h_col[7] = 3;
    h_col[8] = 4;
    let mut passable = vec![1u8; 256];
    passable[3] = 0;
    (map, blocks, h_col, passable)
}

#[test]
fn solid_block_blocks_sight() {
    let (map, blocks, h_col, passable) = tables();
    assert_eq!(sight_colide(0x0300, 1, 200, &map, &blocks, &h_col, &passable), 1);
    assert_eq!(sight_colide(0x0300, 1, 0, &map, &blocks, &h_col, &passable), 0);
}

#[test]
fn passable_or_empty_cells_let_sight_through() {
    let (map, blocks, h_col, passable) = tables();
    assert_eq!(sight_colide(0x0300, -1, -1, &map, &blocks, &h_col, &passable), 0);
    assert_eq!(sight_colide(0x0400, 1, 200, &map, &blocks, &h_col, &passable), 0);
    assert_eq!(sight_colide(0x0300, 1, 0x600, &map, &blocks, &h_col, &passable), 0);
    assert_eq!(sight_colide(0x0300, 1, 200, &Vec::new(), &blocks, &h_col, &passable), 0);
    assert_eq!(sight_colide(0x0300, 1, 200, &map, &blocks, &Vec::new(), &passable), 0);
}

#[test]
fn column_wraps_every_0x6000() {
    let (map, blocks, h_col, passable) = tables();
    assert_eq!(sight_colide(0x0300, 0x6001, 200, &map, &blocks, &h_col, &passable), 1);
}
