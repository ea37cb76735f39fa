//! The game's display: screen mode setup, the VGA buffers, the conversion of
//! the four-plane 640x400 picture to 8-bit pixels, and the blit to the screen.
use vstd::prelude::*;
use crate::screen::{ScreenState, LbScreenGetModeInfo, LbScreenSetup, LbMouseChangeMoveRatio, LbMouseSetWindow,
    LbScreenLock, LbScreenUnlock, LbScreenIsLocked, LbScreenSwap, LbScreenSetMinScreenSurfaceDimension, PALETTE_SIZE,
    palette_6bit, rgb_frame};
use crate::types::{TbDisplayStruct, TbResult, LB_SCREEN_MODE_320_200_8, LB_SCREEN_MODE_640_480_8, LB_MAX_SCREEN_MODES_COUNT, LB_VF_WINDOWED};
use crate::memory::LbMemoryCopy;
use crate::state::{GameState, DRW_F_SCREEN_VRES16};

verus! {

/// The library's mode for one of the game's: 19 is 320x200, 18 is 640x480.
pub open spec fn library_mode(mode: u16) -> u16 {
    if mode == 19 {
        LB_SCREEN_MODE_320_200_8
    } else if mode == 18 {
        LB_SCREEN_MODE_640_480_8
    } else {
        mode
    }
}

/// The size of a mode: from the mode table, 640x480 past its end.
pub open spec fn mode_size(scr: ScreenState, mode: u16) -> (u16, u16) {
    if (mode as int) < LB_MAX_SCREEN_MODES_COUNT {
        (scr.modes@[mode as int].width, scr.modes@[mode as int].height)
    } else {
        (640, 480)
    }
}

/// Sets the screen up for the game's mode `mode` (once its window exists):
/// the mode's size, the given palette, mouse ratios of 1, and the mouse window
/// over the whole graphics screen.
pub fn app_screen_setup(scr: &mut ScreenState, mode: u16, palette: Option<Vec<u8>>) -> (r: TbResult)
    requires
        old(scr).wf(),
    ensures
        r == crate::types::LB_SUCCESS,
        final(scr).wf(),
        ({
            let m = library_mode(mode);
            let (w, h) = mode_size(*old(scr), m);
            &&& final(scr).display == (TbDisplayStruct {
                graphics_screen_width: w as i32,
                graphics_screen_height: h as i32,
                screen_mode: m,
                mouse_move_ratio_x: 1,
                mouse_move_ratio_y: 1,
                ..old(scr).display
            })
            &&& final(scr).palette == palette
            &&& final(scr).back_buf@.len() == w as int * h as int
            &&& final(scr).mouse_window_x == 0 && final(scr).mouse_window_y == 0
            &&& final(scr).mouse_window_w == w as i32 && final(scr).mouse_window_h == h as i32
            &&& final(scr).modes@ == old(scr).modes@
            &&& final(scr).locked == old(scr).locked
        }),
{
    let m: u16 = if mode == 19 {
        LB_SCREEN_MODE_320_200_8
    } else if mode == 18 {
        LB_SCREEN_MODE_640_480_8
    } else {
        mode
    };
    let (w, h): (u16, u16) = match LbScreenGetModeInfo(scr, m) {
        None => (640, 480),
        Some(info) => (info.width, info.height),
    };
    let ret = LbScreenSetup(scr, m, w, h, palette);
    LbMouseChangeMoveRatio(scr, 256, 256);
    let gw = scr.display.graphics_screen_width;
    let gh = scr.display.graphics_screen_height;
    LbMouseSetWindow(scr, 0, 0, gw, gh);
    ret
}

/// The mode record `md` with its windowed flag cleared for full screen, or
/// set otherwise; every other bit and field as it was.
pub open spec fn windowed_for(md: crate::types::TbScreenModeInfo, full_screen: bool) -> crate::types::TbScreenModeInfo {
    crate::types::TbScreenModeInfo {
        video_mode: if full_screen { md.video_mode & !LB_VF_WINDOWED } else { md.video_mode | LB_VF_WINDOWED },
        ..md
    }
}

/// Marks every defined mode of the table (one with a width) windowed, or
/// not windowed when full screen; unused records stay as they are.
pub fn display_set_full_screen(scr: &mut ScreenState, full_screen: bool)
    requires
        old(scr).wf(),
    ensures
        final(scr).wf(),
        *final(scr) == (ScreenState { modes: final(scr).modes, ..*old(scr) }),
        forall|i: int|
            0 <= i < LB_MAX_SCREEN_MODES_COUNT ==> #[trigger] final(scr).modes@[i] == if old(scr).modes@[i].width != 0 {
                windowed_for(old(scr).modes@[i], full_screen)
            } else {
                old(scr).modes@[i]
            },
        forall|i: int|
            0 <= i < LB_MAX_SCREEN_MODES_COUNT && old(scr).modes@[i].width != 0 ==>
                ((#[trigger] final(scr).modes@[i]).video_mode & LB_VF_WINDOWED != 0) == !full_screen,
{
    let mut i: usize = 0;
    while i < LB_MAX_SCREEN_MODES_COUNT
        invariant
            i <= LB_MAX_SCREEN_MODES_COUNT,
            scr.wf(),
            *scr == (ScreenState { modes: scr.modes, ..*old(scr) }),
            forall|k: int|
                0 <= k < LB_MAX_SCREEN_MODES_COUNT ==> #[trigger] scr.modes@[k] == if k < i && old(scr).modes@[k].width != 0 {
                    windowed_for(old(scr).modes@[k], full_screen)
                } else {
                    old(scr).modes@[k]
                },
        decreases LB_MAX_SCREEN_MODES_COUNT - i,
    {
        let md = scr.modes[i];
        if md.width != 0 {
            let vm = if full_screen { md.video_mode & !LB_VF_WINDOWED } else { md.video_mode | LB_VF_WINDOWED };
            scr.modes.set(i, crate::types::TbScreenModeInfo { video_mode: vm, ..md });
        }
        i = i + 1;
    }
    proof {
        assert forall|k: int| 0 <= k < LB_MAX_SCREEN_MODES_COUNT && old(scr).modes@[k].width != 0 implies
            ((#[trigger] scr.modes@[k]).video_mode & LB_VF_WINDOWED != 0) == !full_screen by {
            let v = old(scr).modes@[k].video_mode;
            assert(v & !LB_VF_WINDOWED & LB_VF_WINDOWED == 0) by (bit_vector);
            assert((v | LB_VF_WINDOWED) & LB_VF_WINDOWED != 0) by (bit_vector);
        }
    }
}

/// Stretches the low-resolution screen to at least 400 pixels, or not.
pub fn display_set_lowres_stretch(scr: &mut ScreenState, stretch: bool)
    ensures
        *final(scr) == (ScreenState { min_surface_dim: if stretch { 400u32 } else { 1u32 }, ..*old(scr) }),
{
    if stretch {
        LbScreenSetMinScreenSurfaceDimension(scr, 400);
    } else {
        LbScreenSetMinScreenSurfaceDimension(scr, 1);
    }
}

/// Size of the VGA buffer: two 640x480 screens and a margin.
pub const VGA_BUFFER_SIZE: usize = 640 * 480 * 2 + 16;

/// Makes the zeroed VGA buffer.
pub fn display_create_vga_buffer() -> (r: Vec<u8>)
    ensures
        r@.len() == VGA_BUFFER_SIZE,
        forall|i: int| 0 <= i < VGA_BUFFER_SIZE ==> #[trigger] r@[i] == 0,
{
    crate::memory::LbMemoryAlloc(VGA_BUFFER_SIZE)
}

/// Frees the VGA buffer.
pub fn display_free_vga_buffer(buf: &mut Vec<u8>)
    ensures
        final(buf)@.len() == 0,
{
    *buf = Vec::new();
}

pub fn display_lock(scr: &mut ScreenState)
    ensures
        *final(scr) == (ScreenState { locked: true, ..*old(scr) }),
{
    LbScreenLock(scr);
}

pub fn display_unlock(scr: &mut ScreenState)
    ensures
        *final(scr) == (ScreenState { locked: false, ..*old(scr) }),
{
    LbScreenUnlock(scr);
}

/// Bytes in one plane of the four-plane picture: 400 rows of 80 bytes.
pub const PLANE_SIZE: usize = 32000;
/// Pixels of the picture.
pub const PICTURE_PIXELS: usize = 256000;
/// Bytes of the 640x480 8-bit screen.
pub const SCREEN_BYTES: usize = 307200;

/// Bit `7 - k` of a plane byte: the bit of its `k`-th pixel from the left.
pub open spec fn plane_bit(b: u8, k: int) -> u8 {
    (b >> ((7 - k) as u8)) & 1
}

/// The 4-bit colour of pixel `8 * j + k` of the planar picture `ws`: bit `p`
/// of it comes from plane `p`.
pub open spec fn chunky_pixel(ws: Seq<u8>, j: int, k: int) -> u8 {
    plane_bit(ws[j], k) | (plane_bit(ws[PLANE_SIZE + j], k) << 1u8) | (plane_bit(ws[2 * PLANE_SIZE + j], k) << 2u8)
        | (plane_bit(ws[3 * PLANE_SIZE + j], k) << 3u8)
}

/// Converts the four-plane picture in `wscreen` to one byte per pixel in
/// `vscreen`; the rest of the 640x480 screen is cleared. Nothing happens when
/// either buffer is missing.
pub fn update_vscreen_whole_vres16(wscreen: &[u8], vscreen: &mut [u8])
    requires
        wscreen@.len() > 0 && old(vscreen)@.len() > 0 ==> wscreen@.len() >= 4 * PLANE_SIZE && old(vscreen)@.len()
            >= SCREEN_BYTES,
    ensures
        final(vscreen)@.len() == old(vscreen)@.len(),
        wscreen@.len() == 0 || old(vscreen)@.len() == 0 ==> final(vscreen)@ == old(vscreen)@,
        wscreen@.len() > 0 && old(vscreen)@.len() > 0 ==> forall|i: int|
            0 <= i < old(vscreen)@.len() ==> #[trigger] final(vscreen)@[i] == if i < PICTURE_PIXELS {
                chunky_pixel(wscreen@, i / 8, i % 8)
            } else if i < SCREEN_BYTES {
                0
            } else {
                old(vscreen)@[i]
            },
{
    if wscreen.len() == 0 || vscreen.len() == 0 {
        return;
    }
    let mut i: usize = 0;
    while i < SCREEN_BYTES
        invariant
            i <= SCREEN_BYTES,
            wscreen@.len() >= 4 * PLANE_SIZE,
            vscreen@.len() >= SCREEN_BYTES,
            vscreen@.len() == old(vscreen)@.len(),
            forall|k: int| 0 <= k < i ==> #[trigger] vscreen@[k] == if k < PICTURE_PIXELS {
                chunky_pixel(wscreen@, k / 8, k % 8)
            } else {
                0
            },
            forall|k: int| i <= k < vscreen@.len() ==> #[trigger] vscreen@[k] == old(vscreen)@[k],
        decreases SCREEN_BYTES - i,
    {
        if i < PICTURE_PIXELS {
            let j = i / 8;
            let sh: u8 = (7 - i % 8) as u8;
            let p0 = (wscreen[j] >> sh) & 1;
            let p1 = (wscreen[PLANE_SIZE + j] >> sh) & 1;
            let p2 = (wscreen[2 * PLANE_SIZE + j] >> sh) & 1;
            let p3 = (wscreen[3 * PLANE_SIZE + j] >> sh) & 1;
            vscreen[i] = p0 | (p1 << 1u8) | (p2 << 2u8) | (p3 << 3u8);
        } else {
            vscreen[i] = 0;
        }
        i = i + 1;
    }
}

/// Copies a 640x480 picture to the back buffer.
pub fn blit_wscreen_vres16(scr: &mut ScreenState, buf: &[u8])
    requires
        old(scr).back_buf@.len() > 0 && buf@.len() > 0 ==> old(scr).back_buf@.len() >= SCREEN_BYTES && buf@.len()
            >= SCREEN_BYTES,
    ensures
        *final(scr) == (ScreenState { back_buf: final(scr).back_buf, ..*old(scr) }),
        old(scr).back_buf@.len() == 0 || buf@.len() == 0 ==> final(scr).back_buf@ == old(scr).back_buf@,
        old(scr).back_buf@.len() > 0 && buf@.len() > 0 ==> final(scr).back_buf@ == buf@.subrange(0, SCREEN_BYTES as int)
            + old(scr).back_buf@.subrange(SCREEN_BYTES as int, old(scr).back_buf@.len() as int),
{
    let mut b: Vec<u8> = Vec::new();
    std::mem::swap(&mut b, &mut scr.back_buf);
    LbMemoryCopy(b.as_mut_slice(), buf, SCREEN_BYTES);
    std::mem::swap(&mut b, &mut scr.back_buf);
}

/// Bytes of the 320x200 8-bit screen.
pub const MCGA_BYTES: usize = 64000;

/// Copies a 320x200 picture to the back buffer.
pub fn blit_wscreen_mcga(scr: &mut ScreenState, buf: &[u8])
    requires
        old(scr).back_buf@.len() > 0 && buf@.len() > 0 ==> old(scr).back_buf@.len() >= MCGA_BYTES && buf@.len()
            >= MCGA_BYTES,
    ensures
        *final(scr) == (ScreenState { back_buf: final(scr).back_buf, ..*old(scr) }),
        old(scr).back_buf@.len() == 0 || buf@.len() == 0 ==> final(scr).back_buf@ == old(scr).back_buf@,
        old(scr).back_buf@.len() > 0 && buf@.len() > 0 ==> final(scr).back_buf@ == buf@.subrange(0, MCGA_BYTES as int)
            + old(scr).back_buf@.subrange(MCGA_BYTES as int, old(scr).back_buf@.len() as int),
{
    let mut b: Vec<u8> = Vec::new();
    std::mem::swap(&mut b, &mut scr.back_buf);
    LbMemoryCopy(b.as_mut_slice(), buf, MCGA_BYTES);
    std::mem::swap(&mut b, &mut scr.back_buf);
}

/// The back buffer after a blit of `src` of `n` bytes.
pub open spec fn blitted(back: Seq<u8>, src: Seq<u8>, n: int) -> Seq<u8> {
    if back.len() == 0 || src.len() == 0 {
        back
    } else {
        src.subrange(0, n) + back.subrange(n, back.len() as int)
    }
}

/// Shows the game's picture: the high-resolution picture from the VGA buffer,
/// or the low-resolution one, is copied to the back buffer, and the frame to
/// present is returned. The lock is as it was before.
pub fn swap_wscreen(scr: &mut ScreenState, draw_flags: u8, vga_buffer: &[u8], wscreen: &[u8]) -> (frame: Option<Vec<u8>>)
    requires
        draw_flags & DRW_F_SCREEN_VRES16 != 0 && old(scr).back_buf@.len() > 0 && vga_buffer@.len() > 0 ==> old(
            scr,
        ).back_buf@.len() >= SCREEN_BYTES && vga_buffer@.len() >= SCREEN_BYTES,
        draw_flags & DRW_F_SCREEN_VRES16 == 0 && old(scr).back_buf@.len() > 0 && wscreen@.len() > 0 ==> old(
            scr,
        ).back_buf@.len() >= MCGA_BYTES && wscreen@.len() >= MCGA_BYTES,
        old(scr).display.graphics_screen_width >= 0,
        old(scr).display.graphics_screen_height >= 0,
        old(scr).palette is Some ==> old(scr).display.graphics_screen_width as int * old(scr).display.graphics_screen_height as int
            <= old(scr).back_buf@.len(),
        old(scr).palette matches Some(p) ==> p@.len() >= PALETTE_SIZE && palette_6bit(p@),
        old(scr).palette is Some ==> 3 * (old(scr).display.graphics_screen_width as int
            * old(scr).display.graphics_screen_height as int) <= u32::MAX,
    ensures
        ({
            let back = if draw_flags & DRW_F_SCREEN_VRES16 != 0 {
                blitted(old(scr).back_buf@, vga_buffer@, SCREEN_BYTES as int)
            } else {
                blitted(old(scr).back_buf@, wscreen@, MCGA_BYTES as int)
            };
            &&& final(scr).back_buf@ == back
            &&& *final(scr) == (ScreenState { back_buf: final(scr).back_buf, ..*old(scr) })
            &&& old(scr).palette is None ==> frame is None
            &&& old(scr).palette matches Some(p) ==> frame matches Some(f) && f@ == rgb_frame(
                back,
                p@,
                old(scr).display.graphics_screen_width as int * old(scr).display.graphics_screen_height as int,
            )
        }),
{
    let was_locked = LbScreenIsLocked(scr) != 0;
    if !was_locked {
        LbScreenLock(scr);
    }
    if (draw_flags & DRW_F_SCREEN_VRES16) != 0 {
        blit_wscreen_vres16(scr, vga_buffer);
    } else {
        blit_wscreen_mcga(scr, wscreen);
    }
    LbScreenUnlock(scr);
    let frame = LbScreenSwap(scr);
    if was_locked {
        LbScreenLock(scr);
    }
    frame
}

/// Scales the mouse to the game's 640x400 view: in high resolution the panel's
/// 40 rows at the top are taken off (not going below 0), in low resolution the
/// coordinates are doubled; the movement's y is kept below 400.
pub fn mouse_update_scaled_coords(gs: &mut GameState, d: &TbDisplayStruct)
    requires
        gs.draw_flags & DRW_F_SCREEN_VRES16 != 0 ==> d.mouse_y >= i32::MIN + 40 && d.mmouse_y >= i32::MIN + 40,
        gs.draw_flags & DRW_F_SCREEN_VRES16 == 0 ==> {
            &&& i32::MIN <= 2 * d.mouse_x <= i32::MAX
            &&& i32::MIN <= 2 * d.mouse_y <= i32::MAX
            &&& i32::MIN <= 2 * d.mmouse_x <= i32::MAX
            &&& i32::MIN <= 2 * d.mmouse_y <= i32::MAX
        },
    ensures
        ({
            let hi = old(gs).draw_flags & DRW_F_SCREEN_VRES16 != 0;
            let my = if hi { (if d.mmouse_y - 40 > 0 { d.mmouse_y - 40 } else { 0 }) as i16 } else { (2 * d.mmouse_y) as i16 };
            *final(gs) == (GameState {
                mouse_x_640: if hi { d.mouse_x as i16 } else { (2 * d.mouse_x) as i16 },
                mouse_y_400: if hi { (if d.mouse_y - 40 > 0 { d.mouse_y - 40 } else { 0 }) as i16 } else { (2 * d.mouse_y) as i16 },
                mmouse_x_640: if hi { d.mmouse_x as i16 } else { (2 * d.mmouse_x) as i16 },
                mmouse_y_400: if my > 399 { 399 } else { my },
                ..*old(gs)
            })
        }),
{
    if (gs.draw_flags & DRW_F_SCREEN_VRES16) != 0 {
        gs.mouse_x_640 = d.mouse_x as i16;
        let y = d.mouse_y - 40;
        gs.mouse_y_400 = (if y > 0 { y } else { 0 }) as i16;
        gs.mmouse_x_640 = d.mmouse_x as i16;
        let my = d.mmouse_y - 40;
        gs.mmouse_y_400 = (if my > 0 { my } else { 0 }) as i16;
    } else {
        gs.mouse_x_640 = (d.mouse_x * 2) as i16;
        gs.mouse_y_400 = (d.mouse_y * 2) as i16;
        gs.mmouse_x_640 = (d.mmouse_x * 2) as i16;
        gs.mmouse_y_400 = (d.mmouse_y * 2) as i16;
    }
    if gs.mmouse_y_400 > 399 {
        gs.mmouse_y_400 = 399;
    }
}

/// "syndicatfx_icon64.png", the file of the window's icon.
pub open spec fn icon_file_name() -> Seq<u8> {
    seq![115u8, 121, 110, 100, 105, 99, 97, 116, 102, 120, 95, 105, 99, 111, 110, 54, 52, 46, 112, 110, 103]
}

/// The file behind a resource of the application: the icon for resource
/// 1, none for the others.
pub fn app_resource_mapping(index: i16) -> (r: Option<Vec<u8>>)
    ensures
        index == 1 ==> (r matches Some(v) && v@ == icon_file_name()),
        index != 1 ==> r is None,
{
    if index == 1 {
        let v = vec![115u8, 121, 110, 100, 105, 99, 97, 116, 102, 120, 95, 105, 99, 111, 110, 54, 52, 46, 112, 110, 103];
        assert(v@ =~= icon_file_name());
        Some(v)
    } else {
        None
    }
}

/// Longest time a frame lasts, in milliseconds: the game runs at 16 frames
/// a second at most.
pub const FRAME_DURATION: i32 = 62;

/// How long to wait before the next frame, when the last one started at
/// `last_frame_ticks` and this one at `start` (milliseconds, 0 for no last
/// frame): what is left of the frame's duration, counting 2 milliseconds
/// more as spent; 0 when nothing is left.
pub fn frame_time_left(last_frame_ticks: i32, start: i32) -> (r: i32)
    requires
        last_frame_ticks != 0 ==> i32::MIN <= start - last_frame_ticks && start - last_frame_ticks + 2 <= i32::MAX
            && FRAME_DURATION - (start - last_frame_ticks + 2) <= i32::MAX,
    ensures
        r == if last_frame_ticks != 0 && start - last_frame_ticks + 2 < FRAME_DURATION {
            FRAME_DURATION - (start - last_frame_ticks + 2)
        } else {
            0
        },
{
    if last_frame_ticks == 0 {
        return 0;
    }
    let elapsed = start - last_frame_ticks + 2;
    if elapsed < FRAME_DURATION {
        FRAME_DURATION - elapsed
    } else {
        0
    }
}

} // verus!
