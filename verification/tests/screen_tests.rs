use syndicatfx::screen::{
    screen_state_new, LbScreenSetup, LbPaletteGet, LbPaletteSet, LbGraphicsScreenWidth, LbGraphicsScreenHeight,
    LbScreenLock, LbScreenUnlock, LbScreenIsLocked, correct_buttons, LbScreenSwap, lb_mouse_update,
};
use syndicatfx::sprite::LbSpriteDraw;
use syndicatfx::types::{TbSprite, LB_SUCCESS, LB_FAIL, LB_VF_WINDOWED};
use syndicatfx::display::display_set_full_screen;

#[test]
fn setup_sizes_the_back_buffer() {
    let mut scr = screen_state_new();
    assert_eq!(LbScreenSetup(&mut scr, 13, 640, 480, None), LB_SUCCESS);
    assert_eq!(scr.back_buf.len(), 640 * 480);
    assert_eq!(LbGraphicsScreenWidth(&scr), 640);
    assert_eq!(LbGraphicsScreenHeight(&scr), 480);
}

#[test]
fn palette_round_trip() {
    let mut scr = screen_state_new();
    let mut out = vec![9u8; 770];
    assert_eq!(LbPaletteGet(&scr, &mut out), LB_FAIL);
    let pal: Vec<u8> = (0..768u32).map(|i| (i % 64) as u8).collect();
    LbPaletteSet(&mut scr, Some(pal.clone()));
    assert_eq!(LbPaletteGet(&scr, &mut out), LB_SUCCESS);
    assert_eq!(&out[..768], &pal[..]);
    assert_eq!(&out[768..], &[9, 9]);
}

#[test]
fn lock_and_unlock() {
    let mut scr = screen_state_new();
    LbScreenLock(&mut scr);
    assert!(LbScreenIsLocked(&scr) != 0);
    LbScreenUnlock(&mut scr);
    assert!(LbScreenIsLocked(&scr) == 0);
}

#[test]
fn button_presses_age() {
    let mut scr = screen_state_new();
    lb_mouse_update(&mut scr, 5, 6, 1, 2, true, false, false);
    assert_eq!(scr.display.left_button, 1);
    correct_buttons(&mut scr);
    assert_eq!(scr.display.left_button, 2);
    correct_buttons(&mut scr);
    assert_eq!(scr.display.left_button, 0);
}

#[test]
fn sprite_runs_are_drawn() {
    let mut scr = screen_state_new();
    LbScreenSetup(&mut scr, 5, 8, 2, None);
    // row 0: skip 2 (transparent run), then 2 pixels 7 and 0; row 1: 1 pixel 5
    let spr = TbSprite { s_width: 4, s_height: 2, data: vec![0x82, 2, 7, 0, 0, 1, 5, 0] };
    assert_eq!(LbSpriteDraw(&mut scr, 1, 0, Some(&spr)), LB_SUCCESS);
    assert_eq!(scr.back_buf[..8], [0, 0, 0, 7, 0, 0, 0, 0]);
    assert_eq!(scr.back_buf[8..], [0, 5, 0, 0, 0, 0, 0, 0]);
    assert_eq!(LbSpriteDraw(&mut scr, 0, 0, None), LB_FAIL);
}

#[test]
fn swap_expands_the_palette() {
    let mut scr = screen_state_new();
    let mut pal = vec![0u8; 768];
    pal[3] = 63;
    pal[4] = 1;
    pal[5] = 2;
    LbScreenSetup(&mut scr, 5, 2, 1, Some(pal));
    scr.back_buf[1] = 1;
    assert_eq!(LbScreenSwap(&scr), Some(vec![0, 0, 0, 252, 4, 8]));
}

#[test]
fn sprite_runs_carry_on_after_a_skip() {
    let mut scr = screen_state_new();
    LbScreenSetup(&mut scr, 5, 8, 1, None);
    // 1 pixel 3, skip 1, 2 pixels 4 and 6, skip 3, 1 pixel 9
    let spr = TbSprite { s_width: 8, s_height: 1, data: vec![1, 3, 0x81, 2, 4, 6, 0x83, 1, 9, 0] };
    assert_eq!(LbSpriteDraw(&mut scr, 0, 0, Some(&spr)), LB_SUCCESS);
    assert_eq!(scr.back_buf[..8], [3, 0, 4, 6, 0, 0, 0, 9]);
}

#[test]
fn full_screen_toggles_every_defined_mode() {
    let mut scr = screen_state_new();
    display_set_full_screen(&mut scr, false);
    assert!(scr.modes[5].video_mode & LB_VF_WINDOWED != 0);
    assert!(scr.modes[13].video_mode & LB_VF_WINDOWED != 0);
    assert_eq!(scr.modes[1].video_mode, 0);
    display_set_full_screen(&mut scr, true);
    assert_eq!(scr.modes[5].video_mode & LB_VF_WINDOWED, 0);
    assert_eq!(scr.modes[13].video_mode & LB_VF_WINDOWED, 0);
}
