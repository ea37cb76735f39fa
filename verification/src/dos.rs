//! The DOS compatibility layer: open flags, paths, the time of day, the clock
//! and seek results.
use vstd::prelude::*;
use crate::util::{cbuf_after_copy, copy_to_cbuf};
use crate::game::{game_transform_path, transformed_path};

verus! {

pub const DOS_O_RDONLY: i32 = 0x0000;
pub const DOS_O_WRONLY: i32 = 0x0001;
pub const DOS_O_RDWR: i32 = 0x0002;
pub const DOS_O_APPEND: i32 = 0x0010;
pub const DOS_O_CREAT: i32 = 0x0020;
pub const DOS_O_TRUNC: i32 = 0x0040;
pub const DOS_O_NOINHERIT: i32 = 0x0080;
pub const DOS_O_TEXT: i32 = 0x0100;
pub const DOS_O_BINARY: i32 = 0x0200;
pub const DOS_O_EXCL: i32 = 0x0400;

pub const DOS_CLOCKS_PER_SEC: u32 = 100;

/// The host's open flags.
pub struct NativeOpenFlags {
    pub rdonly: i32,
    pub wronly: i32,
    pub rdwr: i32,
    pub append: i32,
    pub creat: i32,
    pub trunc: i32,
    pub excl: i32,
}

/// The host's open flags, read from the `libc` constants `O_RDONLY`,
/// `O_WRONLY`, `O_RDWR`, `O_APPEND`, `O_CREAT`, `O_TRUNC` and `O_EXCL`. The
/// contract states their values on GNU/Linux for x86-64, the one target the
/// library supports; other targets number these flags otherwise, and there
/// the contract does not hold.
#[verifier::external_body]
fn native_open_flags() -> (r: NativeOpenFlags)
    ensures
        r.rdonly == 0,
        r.wronly == 1,
        r.rdwr == 2,
        r.append == 1024,
        r.creat == 64,
        r.trunc == 512,
        r.excl == 128,
{
    NativeOpenFlags {
        rdonly: libc::O_RDONLY,
        wronly: libc::O_WRONLY,
        rdwr: libc::O_RDWR,
        append: libc::O_APPEND,
        creat: libc::O_CREAT,
        trunc: libc::O_TRUNC,
        excl: libc::O_EXCL,
    }
}

/// The host flags for DOS open flags: the access mode (3 counts as read
/// only) and the append, create, truncate and exclusive flags; the others are
/// dropped.
pub open spec fn native_flags(flags: i32) -> i32 {
    let access = flags & 3;
    let a: i32 = if access == 1 { 1 } else if access == 2 { 2 } else { 0 };
    let b: i32 = a | (if flags & DOS_O_APPEND != 0 { 1024i32 } else { 0i32 });
    let c: i32 = b | (if flags & DOS_O_CREAT != 0 { 64i32 } else { 0i32 });
    let d: i32 = c | (if flags & DOS_O_TRUNC != 0 { 512i32 } else { 0i32 });
    d | (if flags & DOS_O_EXCL != 0 { 128i32 } else { 0i32 })
}

/// Turns DOS open flags into the host's.
pub fn dos_flags_to_native(flags: i32) -> (r: i32)
    ensures
        r == native_flags(flags),
{
    let nf = native_open_flags();
    let access = flags & 0x03;
    let a: i32 = if access == 1 {
        nf.wronly
    } else if access == 2 {
        nf.rdwr
    } else {
        nf.rdonly
    };
    let b: i32 = a | (if (flags & DOS_O_APPEND) != 0 { nf.append } else { 0 });
    let c: i32 = b | (if (flags & DOS_O_CREAT) != 0 { nf.creat } else { 0 });
    let d: i32 = c | (if (flags & DOS_O_TRUNC) != 0 { nf.trunc } else { 0 });
    d | (if (flags & DOS_O_EXCL) != 0 { nf.excl } else { 0 })
}

/// A file to open: its path and the DOS flags to open it with.
pub struct DosOpen {
    pub path: Vec<u8>,
    pub flags: i32,
}

/// The open that creating the file `path` makes: write only, created,
/// truncated. The share mode is not used.
pub fn dos_creat(path: &[u8], share: i32) -> (r: DosOpen)
    ensures
        r.path@ == path@,
        r.flags == DOS_O_WRONLY | DOS_O_CREAT | DOS_O_TRUNC,
{
    let mut p: Vec<u8> = Vec::new();
    let mut i: usize = 0;
    while i < path.len()
        invariant
            i <= path@.len(),
            p@ == path@.subrange(0, i as int),
        decreases path@.len() - i,
    {
        p.push(path[i]);
        i = i + 1;
    }
    assert(p@ =~= path@);
    DosOpen { path: p, flags: DOS_O_WRONLY | DOS_O_CREAT | DOS_O_TRUNC }
}

/// The DOS flags of a low-level open in `mode`: its access mode, binary.
pub open spec fn low_level_open_flags(mode: u16) -> i32 {
    (if mode & 3 == 1 { DOS_O_WRONLY } else if mode & 3 == 2 { DOS_O_RDWR } else { DOS_O_RDONLY }) | DOS_O_BINARY
}

/// The open that a low-level open of the game file `path` in `mode` makes:
/// the file's path for the user's and the data directory, in the access
/// mode that `mode` asks for (3 counts as read only), binary. The segment
/// is not used.
pub fn dos_low_level_open(path: &[u8], ds: u16, mode: u16, user_dir: &[u8], hdd_dir: &[u8]) -> (r: DosOpen)
    ensures
        r.path@ == transformed_path(path@, user_dir@, hdd_dir@),
        r.flags == low_level_open_flags(mode),
{
    let flags = if (mode & 3) == 1 {
        DOS_O_WRONLY
    } else if (mode & 3) == 2 {
        DOS_O_RDWR
    } else {
        DOS_O_RDONLY
    };
    DosOpen { path: game_transform_path(path, user_dir, hdd_dir), flags: flags | DOS_O_BINARY }
}

/// A DOS path with its backslashes turned into slashes.
pub open spec fn native_separators_of(path: Seq<u8>) -> Seq<u8> {
    path.map_values(|b: u8| if b == 92 { 47u8 } else { b })
}

/// Turns the backslashes of a DOS path into slashes.
pub fn native_separators(path: &[u8]) -> (r: Vec<u8>)
    ensures
        r@ == native_separators_of(path@),
{
    let mut r: Vec<u8> = Vec::new();
    let mut i: usize = 0;
    while i < path.len()
        invariant
            i <= path@.len(),
            r@ == native_separators_of(path@.subrange(0, i as int)),
        decreases path@.len() - i,
    {
        let b = path[i];
        r.push(if b == 92 { 47 } else { b });
        i = i + 1;
        assert(r@ =~= native_separators_of(path@.subrange(0, i as int)));
    }
    assert(path@.subrange(0, path@.len() as int) =~= path@);
    r
}

/// A name with its letters made lower case, as `str::to_lowercase` gives it.
pub uninterp spec fn lowercased(s: Seq<char>) -> Seq<char>;

/// `str::to_lowercase`: the string with every letter in lower case, by the
/// Unicode rules, which depend on the string alone. The contract names the
/// result and says nothing more of it.
#[verifier::external_body]
fn to_lower(s: &str) -> (r: String)
    ensures
        r@ == lowercased(s@),
{
    s.to_lowercase()
}

/// Whether directory entry `name` is the one path segment `seg` names:
/// the two are equal once made lower case.
pub open spec fn names_segment(name: Seq<char>, seg: Seq<char>) -> bool {
    lowercased(name) == lowercased(seg)
}

/// The index of the first of `entries` that `seg` names, from `i` on; the
/// entries' count when none does.
pub open spec fn first_named(entries: Seq<String>, seg: Seq<char>, i: int) -> int
    decreases entries.len() - i,
{
    if i >= entries.len() {
        entries.len() as int
    } else if names_segment(entries[i]@, seg) {
        i
    } else {
        first_named(entries, seg, i + 1)
    }
}

/// One step of finding a path on a case-sensitive file system: the part of
/// the native path that the segment `seg` of the DOS path gives, with
/// `entries` the names in the directory reached so far (`None` when it
/// cannot be read). An empty segment gives no part; a segment that names an
/// entry without regard to case gives the first such entry's name; any other
/// segment gives itself in lower case.
pub fn path_segment_part(seg: &str, entries: Option<&Vec<String>>) -> (r: Option<String>)
    ensures
        seg@.len() == 0 ==> r is None,
        seg@.len() > 0 ==> r is Some,
        seg@.len() > 0 ==> match entries {
            Some(es) => {
                let k = first_named(es@, seg@, 0);
                &&& k < es@.len() ==> r->0@ == es@[k]@
                &&& k == es@.len() ==> r->0@ == lowercased(seg@)
            },
            None => r->0@ == lowercased(seg@),
        },
{
    if seg.is_empty() {
        return None;
    }
    let wanted = to_lower(seg);
    match entries {
        None => Some(wanted),
        Some(es) => {
            let n = es.len();
            let mut i: usize = 0;
            while i < n
                invariant
                    n == es@.len(),
                    i <= n,
                    seg@.len() > 0,
                    entries == Some(es),
                    wanted@ == lowercased(seg@),
                    first_named(es@, seg@, 0) == first_named(es@, seg@, i as int),
                decreases n - i,
            {
                let name = to_lower(es[i].as_str());
                if name == wanted {
                    return Some(es[i].clone());
                }
                i = i + 1;
            }
            Some(wanted)
        },
    }
}

/// `String::push_str`: appends `t` to the end of `s`.
#[verifier::external_body]
fn push_str(s: &mut String, t: &str)
    ensures
        final(s)@ == old(s)@ + t@,
{
    s.push_str(t);
}

/// The native path found so far, `found`, with the part `part` that the next
/// segment gives put after it, behind a `/` unless it is the first part.
pub fn joined_path(found: String, part: &str) -> (r: String)
    ensures
        r@ == if found@.len() == 0 { part@ } else { found@ + seq!['/'] + part@ },
{
    if found.as_str().is_empty() {
        return part.to_owned();
    }
    let mut r = found;
    proof {
        reveal_strlit("/");
    }
    push_str(&mut r, "/");
    push_str(&mut r, part);
    r
}

/// The result of looking a path up: the native path found, or the path as
/// given when its segments gave no part at all.
pub fn found_or_given(found: String, path: &str) -> (r: String)
    ensures
        r@ == if found@.len() == 0 { path@ } else { found@ },
{
    if found.as_str().is_empty() {
        path.to_owned()
    } else {
        found
    }
}

/// Stores a native path (a DOS path after `native_separators` and its lookup
/// on the file system) in `buf` as a C string, cut to fit. Always succeeds.
pub fn dos_path_to_native(resolved: &[u8], buf: &mut [u8]) -> (ok: bool)
    requires
        old(buf)@.len() >= 1,
    ensures
        ok,
        final(buf)@ == cbuf_after_copy(old(buf)@, resolved@),
{
    copy_to_cbuf(resolved, buf);
    true
}

/// A seek's result as DOS reports it: the position, or 0 after an error.
pub fn dos_seek_result(r: i64) -> (pos: u32)
    ensures
        pos == if r < 0 { 0u32 } else { r as u32 },
{
    if r < 0 { 0 } else { r as u32 }
}

pub struct DosTime {
    pub hour: u8,
    pub minute: u8,
    pub second: u8,
    pub hsecond: u8,
}

pub struct DosDate {
    pub day: u8,
    pub month: u8,
    pub year: u16,
    pub dayofweek: u8,
}

/// The time of day `secs` seconds and `millis` milliseconds after midnight
/// of the epoch's day count: hours, minutes, seconds and hundredths.
pub fn dos_gettime(t: &mut DosTime, secs: u64, millis: u32)
    requires
        millis < 1000,
    ensures
        final(t).hour as int == (secs % 86400) / 3600,
        final(t).minute as int == ((secs % 86400) % 3600) / 60,
        final(t).second as int == (secs % 86400) % 60,
        final(t).hsecond as int == millis / 10,
{
    let s = secs % 86400;
    t.hour = (s / 3600) as u8;
    t.minute = ((s % 3600) / 60) as u8;
    t.second = (s % 60) as u8;
    t.hsecond = (millis / 10) as u8;
}

/// The DOS clock, in hundredths of a second, after `ms` milliseconds.
pub fn dos_clock(ms: u32) -> (r: u32)
    ensures
        r as int == ms as int * 100 / 1000,
{
    assert(ms as int * 100 <= 0xffff_ffff * 100) by (nonlinear_arith)
        requires
            ms <= 0xffff_ffff,
    ;
    (ms as u64 * DOS_CLOCKS_PER_SEC as u64 / 1000) as u32
}

/// The ticks of the 18.2 Hz timer after `ms` milliseconds: the PIT input
/// clock's cycles, divided by 32768.
pub fn timer_get_18_2_hz_ticks(ms: u32) -> (r: u32)
    ensures
        r as int == (ms as int * 1193182 / 1000) / 32768,
{
    assert(ms as int * 1193182 <= 0xffff_ffff * 1193182) by (nonlinear_arith)
        requires
            ms <= 0xffff_ffff,
    ;
    ((ms as u64 * 1193182 / 1000) / 32768) as u32
}

} // verus!
