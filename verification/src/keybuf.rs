//! The game's buffer of typed keys: a ring of 16 entries, read in the order
//! the keys were pressed.
use vstd::prelude::*;
use crate::keyboard::{KeyboardState, K_ACTN_KEYDOWN, KMOD_SHIFT, inkey_to_ascii, inkey_to_ascii_shift, key_to_ascii, LbKeyboardCustomHandler, lb_keyboard_update};
use crate::types::{TbResult, LB_OK};

verus! {

pub const KEYBOARD_BUFFER_SIZE: usize = 16;

/// The ring: the entries, the index of the next key to read and the index of
/// the next free entry. Equal indices mean an empty buffer.
pub struct KeyBuffer {
    pub keys: Vec<u32>,
    pub read_index: u32,
    pub write_index: u32,
}

impl KeyBuffer {
    pub open spec fn wf(&self) -> bool {
        &&& self.keys@.len() == KEYBOARD_BUFFER_SIZE
        &&& self.read_index < KEYBOARD_BUFFER_SIZE
        &&& self.write_index < KEYBOARD_BUFFER_SIZE
    }

    /// Number of keys waiting.
    pub open spec fn count(&self) -> int {
        (self.write_index as int - self.read_index as int + KEYBOARD_BUFFER_SIZE) % (KEYBOARD_BUFFER_SIZE as int)
    }

    /// The keys waiting, oldest first.
    pub open spec fn view(&self) -> Seq<u32> {
        Seq::new(
            self.count() as nat,
            |i: int| self.keys@[(self.read_index as int + i) % (KEYBOARD_BUFFER_SIZE as int)],
        )
    }

    /// An empty buffer.
    pub fn new() -> (r: KeyBuffer)
        ensures
            r.wf(),
            r@ == Seq::<u32>::empty(),
    {
        let r = KeyBuffer { keys: vec![0u32; KEYBOARD_BUFFER_SIZE], read_index: 0, write_index: 0 };
        assert(r@ =~= Seq::<u32>::empty());
        r
    }
}

/// The waiting keys `q` after the handler sees `action` on key `code`: a key
/// going down, when not prefixed, joins the end unless 15 keys wait already.
pub open spec fn buffer_after_event(q: Seq<u32>, action: u32, code: u8, prefixed: bool) -> Seq<u32> {
    if action == K_ACTN_KEYDOWN && !prefixed && q.len() < 15 {
        q.push(code as u32)
    } else {
        q
    }
}

/// The waiting keys `q` after the handler sees each of `events` (an action
/// and a key code) in turn.
pub open spec fn buffer_after_events(q: Seq<u32>, events: Seq<(u32, u8)>, prefixed: bool) -> Seq<u32>
    decreases events.len(),
{
    if events.len() == 0 {
        q
    } else {
        buffer_after_event(buffer_after_events(q, events.drop_last(), prefixed), events.last().0, events.last().1, prefixed)
    }
}

/// What taking a key from the waiting keys `q` gives: the oldest key and the
/// rest, or 0 and `q` when none waits.
pub open spec fn key_taken(q: Seq<u32>) -> (u32, Seq<u32>) {
    if q.len() == 0 {
        (0, q)
    } else {
        (q[0], q.drop_first())
    }
}

/// The keys that `n` takes in a row give from the waiting keys `q`.
pub open spec fn keys_taken(q: Seq<u32>, n: nat) -> Seq<u32>
    decreases n,
{
    if n == 0 {
        Seq::empty()
    } else {
        seq![key_taken(q).0] + keys_taken(key_taken(q).1, (n - 1) as nat)
    }
}

/// Adds a key. A full buffer (15 keys) keeps its keys and drops the new one.
pub fn add_key_to_buffer(kb: &mut KeyBuffer, key: u8)
    requires
        old(kb).wf(),
    ensures
        final(kb).wf(),
        old(kb)@.len() < 15 ==> final(kb)@ == old(kb)@.push(key as u32),
        old(kb)@.len() == 15 ==> final(kb)@ == old(kb)@,
{
    let w = kb.write_index;
    kb.keys.set(w as usize, key as u32);
    let new_write: u32 = (w + 1) % (KEYBOARD_BUFFER_SIZE as u32);
    if new_write != kb.read_index {
        kb.write_index = new_write;
    }
    assert(old(kb)@.len() < 15 ==> final(kb)@ =~= old(kb)@.push(key as u32));
    assert(old(kb)@.len() == 15 ==> final(kb)@ =~= old(kb)@);
}

/// Takes the oldest key; 0 when the buffer is empty.
pub fn next_buffered_key(kb: &mut KeyBuffer) -> (key: u32)
    requires
        old(kb).wf(),
    ensures
        final(kb).wf(),
        old(kb)@.len() == 0 ==> key == 0 && final(kb)@ == old(kb)@,
        old(kb)@.len() > 0 ==> key == old(kb)@[0] && final(kb)@ == old(kb)@.drop_first(),
        (key, final(kb)@) == key_taken(old(kb)@),
{
    if kb.read_index == kb.write_index {
        return 0;
    }
    let key = kb.keys[kb.read_index as usize];
    kb.read_index = (kb.read_index + 1) % (KEYBOARD_BUFFER_SIZE as u32);
    assert(final(kb)@ =~= old(kb)@.drop_first());
    key
}

/// Empties the buffer.
pub fn reset_buffered_keys(kb: &mut KeyBuffer)
    requires
        old(kb).wf(),
    ensures
        final(kb).wf(),
        final(kb)@ == Seq::<u32>::empty(),
        final(kb).keys@ == old(kb).keys@,
{
    kb.read_index = 0;
    kb.write_index = 0;
    assert(final(kb)@ =~= Seq::<u32>::empty());
}

/// The key handler of the game: a key going down, when it is not a prefixed
/// key, is added to the buffer.
pub fn k_event_buffered_keys_update(kb: &mut KeyBuffer, kbd: &KeyboardState, action: u32, code: u8) -> (r: TbResult)
    requires
        old(kb).wf(),
    ensures
        r == LB_OK,
        final(kb).wf(),
        action == K_ACTN_KEYDOWN && !kbd.inkey_prefixed && old(kb)@.len() < 15 ==> final(kb)@ == old(kb)@.push(code as u32),
        !(action == K_ACTN_KEYDOWN && !kbd.inkey_prefixed && old(kb)@.len() < 15) ==> final(kb)@ == old(kb)@,
        final(kb)@ == buffer_after_event(old(kb)@, action, code, kbd.inkey_prefixed),
{
    if action == K_ACTN_KEYDOWN && !kbd.inkey_prefixed {
        add_key_to_buffer(kb, code);
    }
    LB_OK
}

/// A key going down or up, from the window: it reaches the keyboard, and the
/// key buffer's handler when that is installed. A key without a PC code
/// (code 0) reaches neither.
pub fn key_event(kbd: &mut KeyboardState, kb: &mut KeyBuffer, action: u32, code: u8)
    requires
        old(kbd).wf(),
        old(kb).wf(),
    ensures
        final(kbd).wf(),
        final(kb).wf(),
        code == 0 ==> *final(kbd) == *old(kbd) && final(kb)@ == old(kb)@,
        code != 0 ==> {
            &&& final(kbd).key_on@ == old(kbd).key_on@.update(code as int, if action == K_ACTN_KEYDOWN { 1u8 } else { 0u8 })
            &&& *final(kbd) == (KeyboardState {
                key_on: final(kbd).key_on,
                inkey: if action == K_ACTN_KEYDOWN { code } else { 0 },
                ..*old(kbd)
            })
            &&& final(kb)@ == if old(kbd).handler_installed {
                buffer_after_event(old(kb)@, action, code, old(kbd).inkey_prefixed)
            } else {
                old(kb)@
            }
        },
{
    if code == 0 {
        return;
    }
    if lb_keyboard_update(kbd, action, code) {
        k_event_buffered_keys_update(kb, kbd, action, code);
    }
}

/// Makes the buffer's handler the keyboard's custom handler.
pub fn init_buffered_keys(kbd: &mut KeyboardState)
    ensures
        final(kbd).handler_installed,
        final(kbd).key_on@ == old(kbd).key_on@,
        final(kbd).inkey == old(kbd).inkey,
        final(kbd).shift == old(kbd).shift,
        final(kbd).inkey_prefixed == old(kbd).inkey_prefixed,
        final(kbd).mouse_auto_reset == old(kbd).mouse_auto_reset,
{
    LbKeyboardCustomHandler(kbd);
}

/// The character a key code gives with the shift state `shift`; NUL for codes
/// from 128 on.
pub open spec fn key_char(key: u32, shift: u32) -> u32 {
    if key >= 128 {
        0
    } else if shift & KMOD_SHIFT != 0 {
        inkey_to_ascii_shift(key as u8) as u32
    } else {
        inkey_to_ascii(key as u8) as u32
    }
}

/// Takes the oldest key and returns its character (NUL when there is none).
pub fn read_buffered_char(kb: &mut KeyBuffer, kbd: &KeyboardState) -> (c: char)
    requires
        old(kb).wf(),
    ensures
        final(kb).wf(),
        old(kb)@.len() == 0 ==> c as u32 == key_char(0, kbd.shift) && final(kb)@ == old(kb)@,
        old(kb)@.len() > 0 ==> c as u32 == key_char(old(kb)@[0], kbd.shift) && final(kb)@ == old(kb)@.drop_first(),
{
    let key = next_buffered_key(kb);
    if key >= 128 {
        return '\0';
    }
    key_to_ascii(key as u8, (kbd.shift & KMOD_SHIFT) != 0) as char
}

} // verus!
