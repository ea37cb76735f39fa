use syndicatfx::mapwho::{draw_mapwho, MapDraw};
use syndicatfx::state::GameState;

fn put16(m: &mut [u8], o: usize, v: u16) {
    m[o] = (v & 0xff) as u8;
    m[o + 1] = (v >> 8) as u8;
}

#[test]
fn animated_things_of_scanned_cells_are_listed() {
    let mut things = vec![0u8; 0x400];
    put16(&mut things, 0x100, 0x200);
    things[0x100 + 0x18] = 5;
    put16(&mut things, 0x100 + 4, 256);
    things[0x200 + 0x18] = 5;
    put16(&mut things, 0x200 + 4, (-100i16) as u16);
    let mut s = GameState::new(things, 0);
    s.data_60b10 = 3;
    s.data_60b14 = 9;
    let mut mapwho = vec![0i16; 0x4000];
    mapwho[0x300] = 0x100;
    mapwho[5] = 0x100;
    let scan = vec![0x300i16, 5, -1, 0x300];
    let draws = draw_mapwho(&mut s, &mapwho, &scan);
    assert_eq!(draws, vec![MapDraw { thing: 0x100, x: 144, y: 48 }, MapDraw { thing: 0x200, x: 121, y: 3 }]);
    assert_eq!((s.data_60b10, s.data_60b14), (0, 0));
}

#[test]
fn hidden_things_and_missing_tables_draw_nothing() {
    let mut things = vec![0u8; 0x400];
    things[0x100 + 0x18] = 5;
    things[0x100 + 0x0a] = 1;
    let mut s = GameState::new(things, 0);
    let mut mapwho = vec![0i16; 0x4000];
    mapwho[0x300] = 0x100;
    assert_eq!(draw_mapwho(&mut s, &mapwho, &vec![0x300, -1]), Vec::new());
    assert_eq!(draw_mapwho(&mut s, &Vec::new(), &vec![0x300, -1]), Vec::new());
}

#[test]
fn scan_starts_at_the_view() {
    let mut things = vec![0u8; 0x400];
    things[0x100 + 0x18] = 5;
    let mut s = GameState::new(things, 0);
    s.player_view_map_x = 3;
    s.player_view_map_y = 2;
    s.player_view_map_x = 3;
    let mut mapwho = vec![0i16; 0x4000];
    mapwho[0x300] = 0x100;
    // origin: ((2 / 2) * 128 + 3 / 2) * 2 = 258
    let mut scan = vec![-1i16; 300];
    scan[258] = 0x300;
    scan[259] = -1;
    let draws = draw_mapwho(&mut s, &mapwho, &scan);
    assert_eq!(draws.len(), 1);
    // dx = -384, dz = -256: x = -640 / 16 + 128, y = -128 / 8 + 16
    assert_eq!(draws[0], MapDraw { thing: 0x100, x: 88, y: 0 });
}
