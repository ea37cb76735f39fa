//! The library's basic types: result codes, screen modes, the display record
//! and sprites.
use vstd::prelude::*;

verus! {

pub type TbBool = u8;
pub type TbResult = i32;
pub type TbScreenCoord = i16;
pub type TbClockMSec = i64;

pub const LB_SUCCESS: TbResult = 0;
pub const LB_FAIL: TbResult = -1;
pub const LB_OK: TbResult = 1;

pub const TRUE: TbBool = 1;
pub const FALSE: TbBool = 0;

pub const LB_SCREEN_MODE_320_200_8: u16 = 5;
pub const LB_SCREEN_MODE_640_480_8: u16 = 13;
pub const LB_MAX_SCREEN_MODES_COUNT: usize = 24;

/// Video flag of a mode shown in a window.
pub const LB_VF_WINDOWED: u16 = 0x01;

/// A sprite: its size and its run-length encoded pixel rows.
pub struct TbSprite {
    pub s_width: u16,
    pub s_height: u16,
    pub data: Vec<u8>,
}

/// A screen mode: its size, depth, video flags and name.
#[derive(Clone, Copy)]
pub struct TbScreenModeInfo {
    pub width: u16,
    pub height: u16,
    pub bits_per_pixel: u16,
    pub video_mode: u16,
    pub name: [u8; 24],
}

impl TbScreenModeInfo {
    /// An unused mode: all zero.
    pub fn zero() -> (r: TbScreenModeInfo)
        ensures
            r.width == 0 && r.height == 0 && r.bits_per_pixel == 0 && r.video_mode == 0,
            forall|i: int| 0 <= i < 24 ==> r.name@[i] == 0,
    {
        TbScreenModeInfo { width: 0, height: 0, bits_per_pixel: 0, video_mode: 0, name: [0u8; 24] }
    }
}

/// The display record. The buffers it points to are held by the screen
/// state; here they are addresses, 0 for none.
#[derive(Clone, Copy)]
pub struct TbDisplayStruct {
    pub physical_screen: usize,
    pub w_screen: usize,
    pub glass_map: usize,
    pub fade_table: usize,
    pub graphics_window_ptr: usize,
    pub _pad20: u32,
    pub physical_screen_width: i32,
    pub physical_screen_height: i32,
    pub graphics_screen_width: i32,
    pub graphics_screen_height: i32,
    pub graphics_window_x: i32,
    pub graphics_window_y: i32,
    pub graphics_window_width: i32,
    pub graphics_window_height: i32,
    pub mouse_window_x: i32,
    pub mouse_window_y: i32,
    pub mouse_window_width: i32,
    pub mouse_window_height: i32,
    pub mouse_x: i32,
    pub mouse_y: i32,
    pub mmouse_x: i32,
    pub mmouse_y: i32,
    pub rmouse_x: i32,
    pub rmouse_y: i32,
    pub draw_flags: u16,
    pub old_video_mode: u16,
    pub screen_mode: u16,
    pub vesa_is_set_up: u8,
    pub left_button: u8,
    pub right_button: u8,
    pub middle_button: u8,
    pub mleft_button: u8,
    pub mright_button: u8,
    pub mmiddle_button: u8,
    pub rleft_button: u8,
    pub rmiddle_button: u8,
    pub rright_button: u8,
    pub fade_step: u8,
    pub draw_colour: u8,
    pub palette: usize,
    pub wheel_position: i16,
    pub wheel_move_up: u16,
    pub wheel_move_down: u16,
    pub mouse_move_ratio_x: i16,
    pub mouse_move_ratio_y: i16,
}

impl TbDisplayStruct {
    /// The display before setup, as a value.
    pub open spec fn zero_spec() -> TbDisplayStruct {
        TbDisplayStruct {
        physical_screen: 0,
        w_screen: 0,
        glass_map: 0,
        fade_table: 0,
        graphics_window_ptr: 0,
        _pad20: 0,
        physical_screen_width: 0,
        physical_screen_height: 0,
        graphics_screen_width: 0,
        graphics_screen_height: 0,
        graphics_window_x: 0,
        graphics_window_y: 0,
        graphics_window_width: 0,
        graphics_window_height: 0,
        mouse_window_x: 0,
        mouse_window_y: 0,
        mouse_window_width: 0,
        mouse_window_height: 0,
        mouse_x: 0,
        mouse_y: 0,
        mmouse_x: 0,
        mmouse_y: 0,
        rmouse_x: 0,
        rmouse_y: 0,
        draw_flags: 0,
        old_video_mode: 0,
        screen_mode: 0,
        vesa_is_set_up: 0,
        left_button: 0,
        right_button: 0,
        middle_button: 0,
        mleft_button: 0,
        mright_button: 0,
        mmiddle_button: 0,
        rleft_button: 0,
        rmiddle_button: 0,
        rright_button: 0,
        fade_step: 0,
        draw_colour: 0,
        palette: 0,
        wheel_position: 0,
        wheel_move_up: 0,
        wheel_move_down: 0,
        mouse_move_ratio_x: 0x100,
        mouse_move_ratio_y: 0x100,
    }
    }

    /// The display before setup: everything zero, except the mouse move
    /// ratios, which are 1.0 in 8.8 fixed point.
    pub fn zero() -> (r: TbDisplayStruct)
        ensures
            r == TbDisplayStruct::zero_spec(),
    {
        TbDisplayStruct {
            physical_screen: 0,
            w_screen: 0,
            glass_map: 0,
            fade_table: 0,
            graphics_window_ptr: 0,
            _pad20: 0,
            physical_screen_width: 0,
            physical_screen_height: 0,
            graphics_screen_width: 0,
            graphics_screen_height: 0,
            graphics_window_x: 0,
            graphics_window_y: 0,
            graphics_window_width: 0,
            graphics_window_height: 0,
            mouse_window_x: 0,
            mouse_window_y: 0,
            mouse_window_width: 0,
            mouse_window_height: 0,
            mouse_x: 0,
            mouse_y: 0,
            mmouse_x: 0,
            mmouse_y: 0,
            rmouse_x: 0,
            rmouse_y: 0,
            draw_flags: 0,
            old_video_mode: 0,
            screen_mode: 0,
            vesa_is_set_up: 0,
            left_button: 0,
            right_button: 0,
            middle_button: 0,
            mleft_button: 0,
            mright_button: 0,
            mmiddle_button: 0,
            rleft_button: 0,
            rmiddle_button: 0,
            rright_button: 0,
            fade_step: 0,
            draw_colour: 0,
            palette: 0,
            wheel_position: 0,
            wheel_move_up: 0,
            wheel_move_down: 0,
            mouse_move_ratio_x: 0x100,
            mouse_move_ratio_y: 0x100,
        }
    }
}

/// A node of the mission's objective tree.
#[derive(Clone, Copy, PartialEq, Eq, Structural, Debug)]
pub struct CPObjective {
    pub child: i16,
    pub parent: u16,
    pub field_4: i16,
    pub field_6: u8,
    pub action_type: u8,
    pub action: u8,
    pub target_offs: u16,
    pub field_b: i16,
    pub field_d: i16,
}

impl CPObjective {
    /// An empty objective: all zero.
    pub fn zero() -> (r: CPObjective)
        ensures
            r == (CPObjective {
                child: 0,
                parent: 0,
                field_4: 0,
                field_6: 0,
                action_type: 0,
                action: 0,
                target_offs: 0,
                field_b: 0,
                field_d: 0,
            }),
    {
        CPObjective {
            child: 0,
            parent: 0,
            field_4: 0,
            field_6: 0,
            action_type: 0,
            action: 0,
            target_offs: 0,
            field_b: 0,
            field_d: 0,
        }
    }
}

} // verus!
