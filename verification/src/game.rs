//! The game's glue: where files are found, the user's directory, resets of
//! the input and the host, the key mapping of the window system, and the
//! handling of the window system's events.
use vstd::prelude::*;
use crate::util::{lower_byte, ascii_lower, cbuf_after_copy, copy_to_cbuf};
use crate::screen::{ScreenState, LbMouseReset, LbScreenReset};
use crate::keyboard::{KeyboardState, LbKeyboardClose, KEY_CODES};
use crate::audio::{AudioState, FreeAudio};
use crate::state::GameState;
use crate::display::mouse_update_scaled_coords;
use crate::types::TbDisplayStruct;

verus! {

/// `a` followed by `b`.
fn concat(a: &[u8], b: &[u8]) -> (r: Vec<u8>)
    ensures
        r@ == a@ + b@,
{
    let mut r: Vec<u8> = Vec::new();
    r.extend_from_slice(a);
    r.extend_from_slice(b);
    r
}

/// "save/": the start of the paths of saved games.
pub open spec fn savegame_prefix() -> Seq<u8> {
    seq![115u8, 97, 118, 101, 47]
}

/// The path starts with "save/", in any case.
pub open spec fn is_savegame_path(f: Seq<u8>) -> bool {
    f.len() >= 5 && forall|i: int| 0 <= i < 5 ==> #[trigger] lower_byte(f[i]) == savegame_prefix()[i]
}

/// The path is absolute: it starts with a slash or a backslash, or has a
/// drive letter.
pub open spec fn is_absolute_path(f: Seq<u8>) -> bool {
    (f.len() >= 1 && (f[0] == 47 || f[0] == 92)) || (f.len() >= 2 && f[1] == 58)
}

/// Where the game finds a file: saved games in the user's directory, absolute
/// paths as they are, the rest in the data directory.
pub open spec fn transformed_path(f: Seq<u8>, user_dir: Seq<u8>, hdd_dir: Seq<u8>) -> Seq<u8> {
    if is_savegame_path(f) {
        user_dir + seq![47u8] + f.subrange(5, f.len() as int)
    } else if is_absolute_path(f) {
        f
    } else {
        hdd_dir + seq![47u8] + f
    }
}

/// The path of a game file, given the user's and the data directory.
pub fn game_transform_path(file_name: &[u8], user_dir: &[u8], hdd_dir: &[u8]) -> (r: Vec<u8>)
    ensures
        r@ == transformed_path(file_name@, user_dir@, hdd_dir@),
{
    let n = file_name.len();
    if n >= 5 && ascii_lower(file_name[0]) == 115 && ascii_lower(file_name[1]) == 97 && ascii_lower(file_name[2]) == 118
        && ascii_lower(file_name[3]) == 101 && ascii_lower(file_name[4]) == 47 {
        assert(is_savegame_path(file_name@));
        let rest = crate::util::copy_range(file_name, 5, n);
        let sep = [47u8];
        let a = concat(user_dir, &sep);
        let r = concat(a.as_slice(), rest.as_slice());
        assert(r@ =~= transformed_path(file_name@, user_dir@, hdd_dir@));
        return r;
    }
    assert(!is_savegame_path(file_name@)) by {
        if n >= 5 {
            if lower_byte(file_name@[0]) != 115 {
                assert(lower_byte(file_name@[0]) != savegame_prefix()[0]);
            } else if lower_byte(file_name@[1]) != 97 {
                assert(lower_byte(file_name@[1]) != savegame_prefix()[1]);
            } else if lower_byte(file_name@[2]) != 118 {
                assert(lower_byte(file_name@[2]) != savegame_prefix()[2]);
            } else if lower_byte(file_name@[3]) != 101 {
                assert(lower_byte(file_name@[3]) != savegame_prefix()[3]);
            } else {
                assert(lower_byte(file_name@[4]) != savegame_prefix()[4]);
            }
        }
    }
    if (n >= 1 && (file_name[0] == 47 || file_name[0] == 92)) || (n >= 2 && file_name[1] == 58) {
        let r = crate::util::copy_range(file_name, 0, n);
        assert(r@ =~= file_name@);
        return r;
    }
    let sep = [47u8];
    let a = concat(hdd_dir, &sep);
    let r = concat(a.as_slice(), file_name);
    assert(r@ =~= transformed_path(file_name@, user_dir@, hdd_dir@));
    r
}

/// "/syndicatfx" and "/.config/syndicatfx".
pub open spec fn xdg_suffix() -> Seq<u8> {
    seq![47u8, 115, 121, 110, 100, 105, 99, 97, 116, 102, 120]
}

pub open spec fn home_suffix() -> Seq<u8> {
    seq![47u8, 46, 99, 111, 110, 102, 105, 103] + xdg_suffix()
}

/// The user's directory from the environment: under the XDG configuration
/// directory when it is set, else under `~/.config`; none when neither is set.
pub open spec fn user_dir_of(xdg: Option<Seq<u8>>, home: Option<Seq<u8>>) -> Option<Seq<u8>> {
    match xdg {
        Some(x) => Some(x + xdg_suffix()),
        None => match home {
            Some(h) => Some(h + home_suffix()),
            None => None,
        },
    }
}

pub fn user_dir_from_env(xdg: Option<&[u8]>, home: Option<&[u8]>) -> (r: Option<Vec<u8>>)
    ensures
        r matches Some(v) ==> user_dir_of(
            match xdg { Some(x) => Some(x@), None => None },
            match home { Some(h) => Some(h@), None => None },
        ) == Some(v@),
        r is None <==> xdg is None && home is None,
{
    let suffix = [47u8, 115, 121, 110, 100, 105, 99, 97, 116, 102, 120];
    let home_sfx = [47u8, 46, 99, 111, 110, 102, 105, 103, 47, 115, 121, 110, 100, 105, 99, 97, 116, 102, 120];
    assert(suffix@ =~= xdg_suffix());
    assert(home_sfx@ =~= home_suffix());
    match xdg {
        Some(x) => Some(concat(x, &suffix)),
        None => match home {
            Some(h) => Some(concat(h, &home_sfx)),
            None => None,
        },
    }
}

/// The user's directory, "." when the environment gives none.
pub fn get_user_dir(xdg: Option<&[u8]>, home: Option<&[u8]>) -> (r: Vec<u8>)
    ensures
        r@ == match user_dir_of(
            match xdg { Some(x) => Some(x@), None => None },
            match home { Some(h) => Some(h@), None => None },
        ) {
            Some(v) => v,
            None => seq![46u8],
        },
{
    match user_dir_from_env(xdg, home) {
        Some(v) => v,
        None => {
            let r = vec![46u8];
            assert(r@ =~= seq![46u8]);
            r
        },
    }
}

/// Stores the user's directory in `buf` as a C string; false when the
/// environment gives none.
pub fn sys_get_user_path(buf: &mut [u8], xdg: Option<&[u8]>, home: Option<&[u8]>) -> (ok: bool)
    requires
        old(buf)@.len() >= 1,
    ensures
        ok == !(xdg is None && home is None),
        !ok ==> final(buf)@ == old(buf)@,
        ok ==> final(buf)@ == cbuf_after_copy(
            old(buf)@,
            user_dir_of(
                match xdg { Some(x) => Some(x@), None => None },
                match home { Some(h) => Some(h@), None => None },
            ).unwrap(),
        ),
{
    match user_dir_from_env(xdg, home) {
        None => false,
        Some(v) => {
            copy_to_cbuf(v.as_slice(), buf);
            true
        },
    }
}

/// "/usr/share/syndicatfx", where the game's data are installed unless the
/// build names another place.
pub open spec fn default_data_dir() -> Seq<u8> {
    seq![47u8, 117, 115, 114, 47, 115, 104, 97, 114, 101, 47, 115, 121, 110, 100, 105, 99, 97, 116, 102, 120]
}

/// The data directory: the one the build names (`configured`), else the
/// default.
pub fn get_data_dir(configured: Option<&[u8]>) -> (r: Vec<u8>)
    ensures
        r@ == match configured {
            Some(c) => c@,
            None => default_data_dir(),
        },
{
    match configured {
        Some(c) => concat(c, &[]),
        None => {
            let r = vec![47u8, 117, 115, 114, 47, 115, 104, 97, 114, 101, 47, 115, 121, 110, 100, 105, 99, 97, 116, 102, 120];
            assert(r@ =~= default_data_dir());
            r
        },
    }
}

/// The user's directory for the environment's XDG and home directories.
pub open spec fn user_dir_for(xdg: Option<&[u8]>, home: Option<&[u8]>) -> Seq<u8> {
    match user_dir_of(
        match xdg { Some(x) => Some(x@), None => None },
        match home { Some(h) => Some(h@), None => None },
    ) {
        Some(v) => v,
        None => seq![46u8],
    }
}

/// The user's directory, kept in `cache` as a C string: worked out from the
/// environment the first time, when the cache is still empty.
pub fn GetDirectoryUser(cache: &mut [u8], xdg: Option<&[u8]>, home: Option<&[u8]>)
    requires
        old(cache)@.len() >= 1,
    ensures
        old(cache)@[0] != 0 ==> final(cache)@ == old(cache)@,
        old(cache)@[0] == 0 ==> final(cache)@ == cbuf_after_copy(old(cache)@, user_dir_for(xdg, home)),
{
    if cache[0] == 0 {
        let dir = get_user_dir(xdg, home);
        copy_to_cbuf(dir.as_slice(), cache);
    }
}

/// The data directory, kept in `cache` as a C string: filled the first
/// time, when the cache is still empty.
pub fn GetDirectoryHdd(cache: &mut [u8], configured: Option<&[u8]>)
    requires
        old(cache)@.len() >= 1,
    ensures
        old(cache)@[0] != 0 ==> final(cache)@ == old(cache)@,
        old(cache)@[0] == 0 ==> final(cache)@ == cbuf_after_copy(
            old(cache)@,
            match configured {
                Some(c) => c@,
                None => default_data_dir(),
            },
        ),
{
    if cache[0] == 0 {
        let dir = get_data_dir(configured);
        copy_to_cbuf(dir.as_slice(), cache);
    }
}

/// Works out the user's and the data directory at start-up, filling both
/// caches.
pub fn setup_file_names(
    user_cache: &mut [u8],
    hdd_cache: &mut [u8],
    xdg: Option<&[u8]>,
    home: Option<&[u8]>,
    configured: Option<&[u8]>,
)
    requires
        old(user_cache)@.len() >= 1,
        old(hdd_cache)@.len() >= 1,
    ensures
        old(user_cache)@[0] != 0 ==> final(user_cache)@ == old(user_cache)@,
        old(user_cache)@[0] == 0 ==> final(user_cache)@ == cbuf_after_copy(old(user_cache)@, user_dir_for(xdg, home)),
        old(hdd_cache)@[0] != 0 ==> final(hdd_cache)@ == old(hdd_cache)@,
        old(hdd_cache)@[0] == 0 ==> final(hdd_cache)@ == cbuf_after_copy(
            old(hdd_cache)@,
            match configured {
                Some(c) => c@,
                None => default_data_dir(),
            },
        ),
{
    GetDirectoryUser(user_cache, xdg, home);
    GetDirectoryHdd(hdd_cache, configured);
}

/// Releases the mouse and the keyboard.
pub fn reset_input(scr: &mut ScreenState, kbd: &mut KeyboardState)
    ensures
        final(scr).display.mouse_x == 0 && final(scr).display.mouse_y == 0,
        *final(scr) == (ScreenState {
            display: TbDisplayStruct { mouse_x: 0, mouse_y: 0, ..old(scr).display },
            ..*old(scr)
        }),
        final(kbd).wf(),
        forall|i: int| 0 <= i < KEY_CODES ==> final(kbd).key_on@[i] == 0,
        final(kbd).inkey == 0 && final(kbd).shift == 0 && !final(kbd).handler_installed,
{
    LbMouseReset(scr);
    LbKeyboardClose(kbd);
}

/// Resets the host: audio off, input released, screen unlocked.
pub fn host_reset(audio: &mut AudioState, scr: &mut ScreenState, kbd: &mut KeyboardState)
    ensures
        !final(audio).sound_active && !final(audio).music_active,
        final(audio).sound_able == old(audio).sound_able,
        final(audio).music_able == old(audio).music_able,
        *final(scr) == (ScreenState {
            display: TbDisplayStruct { mouse_x: 0, mouse_y: 0, ..old(scr).display },
            locked: false,
            ..*old(scr)
        }),
        final(kbd).wf(),
        forall|i: int| 0 <= i < KEY_CODES ==> final(kbd).key_on@[i] == 0,
        final(kbd).inkey == 0 && final(kbd).shift == 0 && !final(kbd).handler_installed,
{
    FreeAudio(audio);
    reset_input(scr, kbd);
    LbScreenReset(scr);
}

/// The PC key code of a key of the window system (by its SDL scan code); 0
/// for keys the game does not use.
pub open spec fn pc_key_code(code: i32) -> u8 {
    if 4 <= code <= 29 {
        // Letters A to Z.
        let letters = seq![30u8, 48, 46, 32, 18, 33, 34, 35, 23, 36, 37, 38, 50, 49, 24, 25, 16, 19, 31, 20, 22, 47, 17, 45, 21, 44];
        letters[code - 4]
    } else if 30 <= code <= 39 {
        // Digits 1 to 9, then 0.
        (code - 30 + 2) as u8
    } else if code == 40 {
        28
    } else if code == 41 {
        1
    } else if code == 42 {
        14
    } else if code == 43 {
        15
    } else if code == 44 {
        57
    } else if 58 <= code <= 67 {
        // F1 to F10.
        (code - 58 + 59) as u8
    } else if code == 68 {
        87
    } else if code == 69 {
        88
    } else if code == 79 {
        77
    } else if code == 80 {
        75
    } else if code == 81 {
        80
    } else if code == 82 {
        72
    } else {
        0
    }
}

/// Maps a key of the window system to the PC key code the game uses.
pub fn sdl_scancode_to_pc(code: i32) -> (r: u8)
    ensures
        r == pc_key_code(code),
{
    if 4 <= code && code <= 29 {
        let letters: [u8; 26] = [30, 48, 46, 32, 18, 33, 34, 35, 23, 36, 37, 38, 50, 49, 24, 25, 16, 19, 31, 20, 22, 47, 17, 45, 21, 44];
        assert(letters@ =~= seq![30u8, 48, 46, 32, 18, 33, 34, 35, 23, 36, 37, 38, 50, 49, 24, 25, 16, 19, 31, 20, 22, 47, 17, 45, 21, 44]);
        letters[(code - 4) as usize]
    } else if 30 <= code && code <= 39 {
        (code - 30 + 2) as u8
    } else if code == 40 {
        28
    } else if code == 41 {
        1
    } else if code == 42 {
        14
    } else if code == 43 {
        15
    } else if code == 44 {
        57
    } else if 58 <= code && code <= 67 {
        (code - 58 + 59) as u8
    } else if code == 68 {
        87
    } else if code == 69 {
        88
    } else if code == 79 {
        77
    } else if code == 80 {
        75
    } else if code == 81 {
        80
    } else if code == 82 {
        72
    } else {
        0
    }
}

/// After the window system's events are pumped (`keep_running` is false when
/// the user asked to quit): returns whether the game is to quit; otherwise
/// the scaled mouse coordinates are brought up to date.
pub fn game_handle_sdl_events(gs: &mut GameState, d: &TbDisplayStruct, keep_running: bool) -> (quit: bool)
    requires
        old(gs).draw_flags & crate::state::DRW_F_SCREEN_VRES16 != 0 ==> d.mouse_y >= i32::MIN + 40 && d.mmouse_y
            >= i32::MIN + 40,
        old(gs).draw_flags & crate::state::DRW_F_SCREEN_VRES16 == 0 ==> {
            &&& i32::MIN <= 2 * d.mouse_x <= i32::MAX
            &&& i32::MIN <= 2 * d.mouse_y <= i32::MAX
            &&& i32::MIN <= 2 * d.mmouse_x <= i32::MAX
            &&& i32::MIN <= 2 * d.mmouse_y <= i32::MAX
        },
    ensures
        quit == !keep_running,
        quit ==> *final(gs) == *old(gs),
        !quit ==> *final(gs) == (GameState {
            mouse_x_640: final(gs).mouse_x_640,
            mouse_y_400: final(gs).mouse_y_400,
            mmouse_x_640: final(gs).mmouse_x_640,
            mmouse_y_400: final(gs).mmouse_y_400,
            ..*old(gs)
        }),
{
    if !keep_running {
        return true;
    }
    mouse_update_scaled_coords(gs, d);
    false
}

} // verus!
