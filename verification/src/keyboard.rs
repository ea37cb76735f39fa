//! Keyboard state: which keys are down, the last key pressed, the shift
//! state, and the key-code to ASCII tables.
use vstd::prelude::*;
use crate::types::{TbResult, LB_SUCCESS};

verus! {

pub const KC_F1: u8 = 59;
pub const KC_F2: u8 = 60;
pub const KC_F3: u8 = 61;
pub const KC_F4: u8 = 62;
pub const KC_F5: u8 = 63;
pub const KC_F6: u8 = 64;
pub const KC_F7: u8 = 65;
pub const KC_F8: u8 = 66;
pub const KC_F9: u8 = 67;
pub const KC_F10: u8 = 68;
pub const KC_ESC: u8 = 1;
pub const KC_RETURN: u8 = 28;
pub const KC_SPACE: u8 = 57;
pub const KC_BACK: u8 = 14;
pub const KC_TAB: u8 = 15;

pub const KMOD_SHIFT: u32 = 0x03;
pub const KMOD_CONTROL: u32 = 0x0C;
pub const KMOD_ALT: u32 = 0x30;

pub const K_ACTN_KEYDOWN: u32 = 1;
pub const K_ACTN_KEYUP: u32 = 0;

/// Number of key codes.
pub const KEY_CODES: usize = 256;

/// The keyboard: which keys are down, the last key pressed (0 once it is
/// released), the modifier state, and whether a custom key handler is set.
pub struct KeyboardState {
    pub key_on: Vec<u8>,
    pub inkey: u8,
    pub shift: u32,
    pub inkey_prefixed: bool,
    pub handler_installed: bool,
    pub mouse_auto_reset: bool,
}

impl KeyboardState {
    pub open spec fn wf(&self) -> bool {
        self.key_on@.len() == KEY_CODES
    }

    /// A keyboard with no key down and no handler.
    pub fn new() -> (r: KeyboardState)
        ensures
            r.wf(),
            forall|i: int| 0 <= i < KEY_CODES ==> r.key_on@[i] == 0,
            r.inkey == 0 && r.shift == 0 && !r.inkey_prefixed && !r.handler_installed && !r.mouse_auto_reset,
    {
        KeyboardState {
            key_on: vec![0u8; KEY_CODES],
            inkey: 0,
            shift: 0,
            inkey_prefixed: false,
            handler_installed: false,
            mouse_auto_reset: false,
        }
    }
}

/// The keyboard is always open once the system is up.
pub fn LbKeyboardOpen() -> (r: TbResult)
    ensures
        r == LB_SUCCESS,
{
    LB_SUCCESS
}

pub fn LbIKeyboardOpen() -> (r: TbResult)
    ensures
        r == LB_SUCCESS,
{
    LbKeyboardOpen()
}

/// Releases every key, clears the last key and the modifiers, and removes the
/// custom handler.
pub fn LbKeyboardClose(kbd: &mut KeyboardState) -> (r: TbResult)
    ensures
        r == LB_SUCCESS,
        final(kbd).wf(),
        forall|i: int| 0 <= i < KEY_CODES ==> final(kbd).key_on@[i] == 0,
        final(kbd).inkey == 0,
        final(kbd).shift == 0,
        !final(kbd).handler_installed,
        final(kbd).inkey_prefixed == old(kbd).inkey_prefixed,
        final(kbd).mouse_auto_reset == old(kbd).mouse_auto_reset,
{
    kbd.inkey = 0;
    kbd.shift = 0;
    kbd.key_on = vec![0u8; KEY_CODES];
    kbd.handler_installed = false;
    LB_SUCCESS
}

/// Installs the custom key handler; the caller keeps the handler itself and
/// calls it when `lb_keyboard_update` says so.
pub fn LbKeyboardCustomHandler(kbd: &mut KeyboardState)
    ensures
        final(kbd).handler_installed,
        final(kbd).key_on@ == old(kbd).key_on@,
        final(kbd).inkey == old(kbd).inkey,
        final(kbd).shift == old(kbd).shift,
        final(kbd).inkey_prefixed == old(kbd).inkey_prefixed,
        final(kbd).mouse_auto_reset == old(kbd).mouse_auto_reset,
{
    kbd.handler_installed = true;
}

/// Records a key going down or up. Returns whether the custom handler is to
/// be called with the same action and key.
pub fn lb_keyboard_update(kbd: &mut KeyboardState, action: u32, scancode: u8) -> (call_handler: bool)
    requires
        old(kbd).wf(),
    ensures
        final(kbd).wf(),
        final(kbd).key_on@ == old(kbd).key_on@.update(scancode as int, if action == K_ACTN_KEYDOWN { 1u8 } else { 0u8 }),
        final(kbd).inkey == if action == K_ACTN_KEYDOWN { scancode } else { 0 },
        final(kbd).shift == old(kbd).shift,
        final(kbd).inkey_prefixed == old(kbd).inkey_prefixed,
        final(kbd).handler_installed == old(kbd).handler_installed,
        final(kbd).mouse_auto_reset == old(kbd).mouse_auto_reset,
        call_handler == old(kbd).handler_installed,
{
    let down = action == K_ACTN_KEYDOWN;
    kbd.key_on.set(scancode as usize, if down { 1 } else { 0 });
    kbd.inkey = if down { scancode } else { 0 };
    kbd.handler_installed
}

/// The character of key code `k` without shift.
pub open spec fn inkey_to_ascii(k: u8) -> u8 {
    match k {
        2 => 49u8,
        3 => 50,
        4 => 51,
        5 => 52,
        6 => 53,
        7 => 54,
        8 => 55,
        9 => 56,
        10 => 57,
        11 => 48,
        16 => 113,
        17 => 119,
        18 => 101,
        19 => 114,
        20 => 116,
        21 => 121,
        22 => 117,
        23 => 105,
        24 => 111,
        25 => 112,
        30 => 97,
        31 => 115,
        32 => 100,
        33 => 102,
        34 => 103,
        35 => 104,
        36 => 106,
        37 => 107,
        38 => 108,
        44 => 122,
        45 => 120,
        46 => 99,
        47 => 118,
        48 => 98,
        49 => 110,
        50 => 109,
        57 => 32,
        28 => 13,
        _ => 0,
    }
}

/// The character of key code `k` with shift.
pub open spec fn inkey_to_ascii_shift(k: u8) -> u8 {
    match k {
        2 => 33u8,
        3 => 64,
        4 => 35,
        5 => 36,
        6 => 37,
        7 => 94,
        8 => 38,
        9 => 42,
        10 => 40,
        11 => 41,
        57 => 32,
        28 => 13,
        _ => if 16 <= k <= 50 { upper_of(inkey_to_ascii(k)) } else { 0 },
    }
}

/// The upper-case form of a lower-case ASCII letter, 0 for anything else.
pub open spec fn upper_of(c: u8) -> u8 {
    if 97 <= c <= 122 { (c - 32) as u8 } else { 0 }
}

/// The character key code `k` gives, with or without shift.
pub fn key_to_ascii(k: u8, shifted: bool) -> (r: u8)
    ensures
        r == if shifted { inkey_to_ascii_shift(k) } else { inkey_to_ascii(k) },
{
    let c: u8 = match k {
        2 => 49u8,
        3 => 50,
        4 => 51,
        5 => 52,
        6 => 53,
        7 => 54,
        8 => 55,
        9 => 56,
        10 => 57,
        11 => 48,
        16 => 113,
        17 => 119,
        18 => 101,
        19 => 114,
        20 => 116,
        21 => 121,
        22 => 117,
        23 => 105,
        24 => 111,
        25 => 112,
        30 => 97,
        31 => 115,
        32 => 100,
        33 => 102,
        34 => 103,
        35 => 104,
        36 => 106,
        37 => 107,
        38 => 108,
        44 => 122,
        45 => 120,
        46 => 99,
        47 => 118,
        48 => 98,
        49 => 110,
        50 => 109,
        57 => 32,
        28 => 13,
        _ => 0,
    };
    if !shifted {
        return c;
    }
    match k {
        2 => 33u8,
        3 => 64,
        4 => 35,
        5 => 36,
        6 => 37,
        7 => 94,
        8 => 38,
        9 => 42,
        10 => 40,
        11 => 41,
        57 => 32,
        28 => 13,
        _ => if 16 <= k && k <= 50 && 97 <= c && c <= 122 { c - 32 } else { 0 },
    }
}

/// The character of the last key pressed, with the shift state applied; NUL
/// for none.
pub fn read_char(kbd: &KeyboardState) -> (r: char)
    ensures
        r as u32 == if kbd.inkey >= 128 {
            0
        } else {
            (if kbd.shift & KMOD_SHIFT != 0 { inkey_to_ascii_shift(kbd.inkey) } else { inkey_to_ascii(kbd.inkey) }) as u32
        },
{
    let key = kbd.inkey;
    if key >= 128 {
        return '\0';
    }
    key_to_ascii(key, (kbd.shift & KMOD_SHIFT) != 0) as char
}

} // verus!
