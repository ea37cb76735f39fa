//! The screen: the display record, the screen modes, the lock, the title, the
//! 8-bit back buffer and the palette through which it is shown; and the mouse
//! fields of the display.
use vstd::prelude::*;
use crate::types::{TbDisplayStruct, TbScreenModeInfo, TbResult, TbBool, TbScreenCoord, TbSprite, LB_SUCCESS, LB_FAIL, LB_MAX_SCREEN_MODES_COUNT};
use crate::util::{cbuf_after_copy, copy_to_cbuf};

verus! {

/// Size of the title buffer.
pub const TITLE_SIZE: usize = 64;
/// Size of a palette: 256 colours of three 6-bit components.
pub const PALETTE_SIZE: usize = 768;

pub struct ScreenState {
    pub display: TbDisplayStruct,
    pub modes: Vec<TbScreenModeInfo>,
    pub locked: bool,
    pub title: Vec<u8>,
    pub min_surface_dim: u32,
    /// The 8-bit back buffer the game draws into.
    pub back_buf: Vec<u8>,
    /// The palette, when one is set.
    pub palette: Option<Vec<u8>>,
    pub mouse_window_x: i32,
    pub mouse_window_y: i32,
    pub mouse_window_w: i32,
    pub mouse_window_h: i32,
}

impl ScreenState {
    pub open spec fn wf(&self) -> bool {
        &&& self.modes@.len() == LB_MAX_SCREEN_MODES_COUNT
        &&& self.title@.len() == TITLE_SIZE
    }
}

/// The text of a mode's name: `640x480x8` for the wide mode, `320x200x8`
/// for the other.
pub open spec fn mode_label(w: bool) -> Seq<u8> {
    if w {
        seq![54u8, 52, 48, 120, 52, 56, 48, 120, 56]
    } else {
        seq![51u8, 50, 48, 120, 50, 48, 48, 120, 56]
    }
}

/// The name of a mode, NUL-padded to 24 bytes.
fn mode_name(w: bool) -> (r: [u8; 24])
    ensures
        r@.len() == 24,
        r@.subrange(0, 9) == mode_label(w),
        forall|i: int| 9 <= i < 24 ==> r@[i] == 0,
{
    if w {
        [54, 52, 48, 120, 52, 56, 48, 120, 56, 0, 0, 0, 0, 0, 0, 0, 0, 0, 0, 0, 0, 0, 0, 0]
    } else {
        [51, 50, 48, 120, 50, 48, 48, 120, 56, 0, 0, 0, 0, 0, 0, 0, 0, 0, 0, 0, 0, 0, 0, 0]
    }
}

/// The screen before setup: the display zeroed, the two known modes (5 is
/// 320x200x8, 13 is 640x480x8), unlocked, no title, no back buffer, no
/// palette, and the mouse window 640x480.
pub fn screen_state_new() -> (r: ScreenState)
    ensures
        r.wf(),
        r.display == TbDisplayStruct::zero_spec(),
        r.modes@[5].width == 320 && r.modes@[5].height == 200 && r.modes@[5].bits_per_pixel == 8,
        r.modes@[13].width == 640 && r.modes@[13].height == 480 && r.modes@[13].bits_per_pixel == 8,
        forall|i: int| 0 <= i < LB_MAX_SCREEN_MODES_COUNT && i != 5 && i != 13 ==> (#[trigger] r.modes@[i]).width == 0,
        !r.locked,
        r.min_surface_dim == 1,
        r.back_buf@.len() == 0,
        r.palette is None,
        r.mouse_window_x == 0 && r.mouse_window_y == 0 && r.mouse_window_w == 640 && r.mouse_window_h == 480,
{
    let mut modes: Vec<TbScreenModeInfo> = Vec::new();
    let mut i: usize = 0;
    while i < LB_MAX_SCREEN_MODES_COUNT
        invariant
            i <= LB_MAX_SCREEN_MODES_COUNT,
            modes@.len() == i,
            forall|j: int| 0 <= j < i ==> (#[trigger] modes@[j]).width == 0,
        decreases LB_MAX_SCREEN_MODES_COUNT - i,
    {
        modes.push(TbScreenModeInfo::zero());
        i = i + 1;
    }
    modes.set(5, TbScreenModeInfo { width: 320, height: 200, bits_per_pixel: 8, video_mode: 0, name: mode_name(false) });
    modes.set(13, TbScreenModeInfo { width: 640, height: 480, bits_per_pixel: 8, video_mode: 0, name: mode_name(true) });
    ScreenState {
        display: TbDisplayStruct::zero(),
        modes,
        locked: false,
        title: vec![0u8; TITLE_SIZE],
        min_surface_dim: 1,
        back_buf: Vec::new(),
        palette: None,
        mouse_window_x: 0,
        mouse_window_y: 0,
        mouse_window_w: 640,
        mouse_window_h: 480,
    }
}

/// The description of screen mode `mode`; `None` past the mode table.
pub fn LbScreenGetModeInfo(scr: &ScreenState, mode: u16) -> (r: Option<TbScreenModeInfo>)
    requires
        scr.wf(),
    ensures
        (mode as int) < LB_MAX_SCREEN_MODES_COUNT ==> r == Some(scr.modes@[mode as int]),
        (mode as int) >= LB_MAX_SCREEN_MODES_COUNT ==> r is None,
{
    let idx = mode as usize;
    if idx < LB_MAX_SCREEN_MODES_COUNT {
        Some(scr.modes[idx])
    } else {
        None
    }
}

/// The size of the window made for a `width` x `height` screen: narrower
/// screens than the minimum surface dimension (read as 16 bits) get a window
/// that wide.
pub open spec fn window_size(min_dim: u32, width: u16, height: u16) -> (u32, u32) {
    let ww = if width < (min_dim as u16) { min_dim } else { width as u32 };
    (if ww > width as u32 { ww } else { width as u32 }, height as u32)
}

pub fn screen_window_size(min_dim: u32, width: u16, height: u16) -> (r: (u32, u32))
    ensures
        r == window_size(min_dim, width, height),
{
    let (ww, wh): (u32, u32) = if width < min_dim as u16 { (min_dim, height as u32) } else { (width as u32, height as u32) };
    let w = if ww > width as u32 { ww } else { width as u32 };
    let h = if wh > height as u32 { wh } else { height as u32 };
    (w, h)
}

/// Sets up the screen state for mode `mode` of `width` x `height` once its
/// window exists: the graphics screen takes the size, the mode and the
/// palette, and a cleared back buffer of that size is made.
pub fn LbScreenSetup(scr: &mut ScreenState, mode: u16, width: u16, height: u16, palette: Option<Vec<u8>>) -> (r: TbResult)
    requires
        old(scr).wf(),
    ensures
        r == LB_SUCCESS,
        final(scr).wf(),
        final(scr).display == (TbDisplayStruct {
            graphics_screen_width: width as i32,
            graphics_screen_height: height as i32,
            screen_mode: mode,
            ..old(scr).display
        }),
        final(scr).palette == palette,
        final(scr).back_buf@.len() == width as int * height as int,
        forall|i: int| 0 <= i < width as int * height as int ==> #[trigger] final(scr).back_buf@[i] == 0,
        final(scr).modes@ == old(scr).modes@,
        final(scr).locked == old(scr).locked,
        final(scr).title@ == old(scr).title@,
        final(scr).min_surface_dim == old(scr).min_surface_dim,
{
    scr.display.graphics_screen_width = width as i32;
    scr.display.graphics_screen_height = height as i32;
    scr.display.screen_mode = mode;
    scr.palette = palette;
    assert(width as int * height as int <= 0xffff_ffff) by (nonlinear_arith)
        requires
            width <= 0xffff,
            height <= 0xffff,
    ;
    let size: usize = width as usize * height as usize;
    scr.back_buf = vec![0u8; size];
    LB_SUCCESS
}

/// Unlocks the screen.
pub fn LbScreenReset(scr: &mut ScreenState) -> (r: TbResult)
    ensures
        r == LB_SUCCESS,
        *final(scr) == (ScreenState { locked: false, ..*old(scr) }),
{
    scr.locked = false;
    LB_SUCCESS
}

/// Locks the screen; locking a locked screen succeeds too.
pub fn LbScreenLock(scr: &mut ScreenState) -> (r: TbResult)
    ensures
        r == LB_SUCCESS,
        *final(scr) == (ScreenState { locked: true, ..*old(scr) }),
{
    if scr.locked {
        return LB_SUCCESS;
    }
    scr.locked = true;
    LB_SUCCESS
}

/// Unlocks the screen.
pub fn LbScreenUnlock(scr: &mut ScreenState) -> (r: TbResult)
    ensures
        r == LB_SUCCESS,
        *final(scr) == (ScreenState { locked: false, ..*old(scr) }),
{
    scr.locked = false;
    LB_SUCCESS
}

/// Whether the screen is locked, as 1 or 0.
pub fn LbScreenIsLocked(scr: &ScreenState) -> (r: TbBool)
    ensures
        r == if scr.locked { 1u8 } else { 0u8 },
{
    if scr.locked { 1 } else { 0 }
}

/// There is no vertical blank to wait for.
pub fn LbScreenWaitVbi() {
}

pub fn LbScreenSetMinScreenSurfaceDimension(scr: &mut ScreenState, dim: u32)
    ensures
        *final(scr) == (ScreenState { min_surface_dim: dim, ..*old(scr) }),
{
    scr.min_surface_dim = dim;
}

/// Keeps the title as a C string, cut to 63 bytes.
pub fn LbSetTitle(scr: &mut ScreenState, title: &[u8])
    requires
        old(scr).wf(),
    ensures
        final(scr).wf(),
        final(scr).title@ == cbuf_after_copy(old(scr).title@, title@),
        *final(scr) == (ScreenState { title: final(scr).title, ..*old(scr) }),
{
    let mut t: Vec<u8> = Vec::new();
    std::mem::swap(&mut t, &mut scr.title);
    copy_to_cbuf(title, t.as_mut_slice());
    scr.title = t;
}

/// The window icon is left to the system.
pub fn LbSetIcon(index: i16) {
}

pub fn LbGraphicsScreenWidth(scr: &ScreenState) -> (r: TbScreenCoord)
    ensures
        r == scr.display.graphics_screen_width as i16,
{
    scr.display.graphics_screen_width as i16
}

pub fn LbGraphicsScreenHeight(scr: &ScreenState) -> (r: TbScreenCoord)
    ensures
        r == scr.display.graphics_screen_height as i16,
{
    scr.display.graphics_screen_height as i16
}

/// Sets the palette.
pub fn LbPaletteSet(scr: &mut ScreenState, palette: Option<Vec<u8>>) -> (r: TbResult)
    ensures
        r == LB_SUCCESS,
        *final(scr) == (ScreenState { palette: palette, ..*old(scr) }),
{
    scr.palette = palette;
    LB_SUCCESS
}

/// Copies the palette into `out`; fails when no palette is set.
pub fn LbPaletteGet(scr: &ScreenState, out: &mut [u8]) -> (r: TbResult)
    requires
        old(out)@.len() >= PALETTE_SIZE,
        scr.palette matches Some(p) ==> p@.len() >= PALETTE_SIZE,
    ensures
        scr.palette is None ==> r == LB_FAIL && final(out)@ == old(out)@,
        scr.palette matches Some(p) ==> r == LB_SUCCESS && final(out)@.len() == old(out)@.len() && (forall|i: int|
            0 <= i < PALETTE_SIZE ==> #[trigger] final(out)@[i] == p@[i]) && (forall|i: int|
            PALETTE_SIZE <= i < old(out)@.len() ==> #[trigger] final(out)@[i] == old(out)@[i]),
{
    match &scr.palette {
        None => LB_FAIL,
        Some(p) => {
            let mut i: usize = 0;
            while i < PALETTE_SIZE
                invariant
                    i <= PALETTE_SIZE,
                    p@.len() >= PALETTE_SIZE,
                    old(out)@.len() >= PALETTE_SIZE,
                    out@.len() == old(out)@.len(),
                    forall|j: int| 0 <= j < i ==> #[trigger] out@[j] == p@[j],
                    forall|j: int| i <= j < out@.len() ==> #[trigger] out@[j] == old(out)@[j],
                decreases PALETTE_SIZE - i,
            {
                out[i] = p[i];
                i = i + 1;
            }
            LB_SUCCESS
        },
    }
}

/// Fading the palette is not done; it succeeds.
pub fn LbPaletteFade(target: &[u8], rate: u8, mode: u8) -> (r: TbResult)
    ensures
        r == LB_SUCCESS,
{
    LB_SUCCESS
}

/// A palette's components are 6-bit values.
pub open spec fn palette_6bit(p: Seq<u8>) -> bool {
    forall|i: int| 0 <= i < PALETTE_SIZE ==> #[trigger] p[i] < 64
}

/// The RGB frame of an 8-bit image through a 6-bit palette: each pixel's
/// colour components, scaled to 8 bits.
pub open spec fn rgb_frame(src: Seq<u8>, pal: Seq<u8>, n: int) -> Seq<u8> {
    Seq::new((3 * n) as nat, |k: int| (pal[src[k / 3] as int * 3 + k % 3] * 4) as u8)
}

/// Expands the first `n` pixels of `src` into RGB through the palette.
pub fn expand_palette(src: &[u8], pal: &[u8], n: usize) -> (rgb: Vec<u8>)
    requires
        n <= src@.len(),
        pal@.len() >= PALETTE_SIZE,
        palette_6bit(pal@),
        3 * n <= usize::MAX,
    ensures
        rgb@ == rgb_frame(src@, pal@, n as int),
{
    let mut rgb: Vec<u8> = Vec::new();
    let mut i: usize = 0;
    while i < n
        invariant
            i <= n,
            n <= src@.len(),
            3 * n <= usize::MAX,
            pal@.len() >= PALETTE_SIZE,
            palette_6bit(pal@),
            rgb@.len() == 3 * i,
            forall|k: int| 0 <= k < 3 * i ==> #[trigger] rgb@[k] == (pal@[src@[k / 3] as int * 3 + k % 3] * 4) as u8,
        decreases n - i,
    {
        let base = src[i] as usize * 3;
        rgb.push(pal[base] * 4);
        rgb.push(pal[base + 1] * 4);
        rgb.push(pal[base + 2] * 4);
        i = i + 1;
    }
    assert(rgb@ =~= rgb_frame(src@, pal@, n as int));
    rgb
}

/// The frame to present: the back buffer through the palette, when a palette
/// is set (with no palette the window is presented as it is).
pub fn LbScreenSwap(scr: &ScreenState) -> (frame: Option<Vec<u8>>)
    requires
        scr.display.graphics_screen_width >= 0,
        scr.display.graphics_screen_height >= 0,
        scr.palette is Some ==> scr.display.graphics_screen_width as int * scr.display.graphics_screen_height as int
            <= scr.back_buf@.len(),
        scr.palette matches Some(p) ==> p@.len() >= PALETTE_SIZE && palette_6bit(p@),
        scr.palette is Some ==> 3 * (scr.display.graphics_screen_width as int * scr.display.graphics_screen_height as int)
            <= u32::MAX,
    ensures
        scr.palette is None ==> frame is None,
        scr.palette matches Some(p) ==> frame matches Some(f) && f@ == rgb_frame(
            scr.back_buf@,
            p@,
            scr.display.graphics_screen_width as int * scr.display.graphics_screen_height as int,
        ),
{
    match &scr.palette {
        None => None,
        Some(p) => {
            let w = scr.display.graphics_screen_width as usize;
            let h = scr.display.graphics_screen_height as usize;
            let _len = scr.back_buf.len();
            assert(w * h <= _len && 3 * (w * h) <= u32::MAX) by (nonlinear_arith)
                requires
                    w as int * h as int <= _len,
                    3 * (w as int * h as int) <= u32::MAX,
            ;
            Some(expand_palette(scr.back_buf.as_slice(), p.as_slice(), w * h))
        },
    }
}

/// The mouse pointer needs no setup.
pub fn LbMouseSetup(sprite: Option<&TbSprite>, w: u16, h: u16) -> (r: TbResult)
    ensures
        r == LB_SUCCESS,
{
    LB_SUCCESS
}

/// Moves the mouse to the origin.
pub fn LbMouseReset(scr: &mut ScreenState) -> (r: TbResult)
    ensures
        r == LB_SUCCESS,
        *final(scr) == (ScreenState {
            display: TbDisplayStruct { mouse_x: 0, mouse_y: 0, ..old(scr).display },
            ..*old(scr)
        }),
{
    scr.display.mouse_x = 0;
    scr.display.mouse_y = 0;
    LB_SUCCESS
}

/// Sets the mouse move ratios from 16.16 values to 8.8 ones.
pub fn LbMouseChangeMoveRatio(scr: &mut ScreenState, ratio_x: i32, ratio_y: i32)
    ensures
        *final(scr) == (ScreenState {
            display: TbDisplayStruct {
                mouse_move_ratio_x: (ratio_x as int / 256) as i16,
                mouse_move_ratio_y: (ratio_y as int / 256) as i16,
                ..old(scr).display
            },
            ..*old(scr)
        }),
{
    scr.display.mouse_move_ratio_x = crate::motion::shift_down8(ratio_x) as i16;
    scr.display.mouse_move_ratio_y = crate::motion::shift_down8(ratio_y) as i16;
}

/// Sets the window the mouse moves in.
pub fn LbMouseSetWindow(scr: &mut ScreenState, x: i32, y: i32, w: i32, h: i32)
    ensures
        *final(scr) == (ScreenState { mouse_window_x: x, mouse_window_y: y, mouse_window_w: w, mouse_window_h: h, ..*old(scr) }),
{
    scr.mouse_window_x = x;
    scr.mouse_window_y = y;
    scr.mouse_window_w = w;
    scr.mouse_window_h = h;
}

/// Records the mouse position, its movement and its buttons.
pub fn lb_mouse_update(scr: &mut ScreenState, x: i32, y: i32, rel_x: i32, rel_y: i32, left: bool, right: bool, middle: bool)
    ensures
        *final(scr) == (ScreenState {
            display: TbDisplayStruct {
                mouse_x: x,
                mouse_y: y,
                mmouse_x: rel_x,
                mmouse_y: rel_y,
                left_button: if left { 1u8 } else { 0u8 },
                right_button: if right { 1u8 } else { 0u8 },
                middle_button: if middle { 1u8 } else { 0u8 },
                ..old(scr).display
            },
            ..*old(scr)
        }),
{
    scr.display.mouse_x = x;
    scr.display.mouse_y = y;
    scr.display.mmouse_x = rel_x;
    scr.display.mmouse_y = rel_y;
    scr.display.left_button = if left { 1 } else { 0 };
    scr.display.right_button = if right { 1 } else { 0 };
    scr.display.middle_button = if middle { 1 } else { 0 };
}

/// A mouse button's state after a turn: a fresh press (1) is held (2), a held
/// press is let go (0).
pub open spec fn button_after_turn(b: u8) -> u8 {
    if b > 1 {
        0
    } else if b == 1 {
        2
    } else {
        b
    }
}

/// Ages the left and right button presses by one turn.
pub fn correct_buttons(scr: &mut ScreenState)
    ensures
        *final(scr) == (ScreenState {
            display: TbDisplayStruct {
                left_button: button_after_turn(old(scr).display.left_button),
                right_button: button_after_turn(old(scr).display.right_button),
                ..old(scr).display
            },
            ..*old(scr)
        }),
{
    if scr.display.left_button > 1 {
        scr.display.left_button = 0;
    } else if scr.display.left_button == 1 {
        scr.display.left_button = 2;
    }
    if scr.display.right_button > 1 {
        scr.display.right_button = 0;
    } else if scr.display.right_button == 1 {
        scr.display.right_button = 2;
    }
}

} // verus!
