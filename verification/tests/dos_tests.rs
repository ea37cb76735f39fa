use syndicatfx::dos::{
    dos_flags_to_native, dos_creat, dos_low_level_open, native_separators, dos_path_to_native, dos_seek_result,
    dos_gettime, dos_clock, timer_get_18_2_hz_ticks, DosTime, DOS_O_WRONLY, DOS_O_CREAT, DOS_O_TRUNC, DOS_O_RDWR,
    DOS_O_APPEND, DOS_O_EXCL, DOS_O_BINARY, DOS_O_RDONLY, DOS_O_TEXT, path_segment_part, joined_path, found_or_given,
};

#[test]
fn dos_flags_become_host_flags() {
    assert_eq!(dos_flags_to_native(DOS_O_WRONLY | DOS_O_CREAT | DOS_O_TRUNC), 1 | 64 | 512);
    assert_eq!(dos_flags_to_native(DOS_O_RDWR | DOS_O_APPEND | DOS_O_EXCL), 2 | 1024 | 128);
    assert_eq!(dos_flags_to_native(DOS_O_RDONLY | DOS_O_BINARY | DOS_O_TEXT), 0);
    assert_eq!(dos_flags_to_native(3), 0);
}

#[test]
fn dos_creat_opens_write_create_truncate() {
    let r = dos_creat(b"SAVE\\GAME0.DAT", 0);
    assert_eq!(r.path, b"SAVE\\GAME0.DAT".to_vec());
    assert_eq!(r.flags, DOS_O_WRONLY | DOS_O_CREAT | DOS_O_TRUNC);
}

#[test]
fn dos_low_level_open_modes() {
    let r = dos_low_level_open(b"DATA/MAP01.DAT", 0, 0, b"/home/u", b"/usr/share/g");
    assert_eq!(r.flags, DOS_O_RDONLY | DOS_O_BINARY);
    assert_eq!(r.path, b"/usr/share/g/DATA/MAP01.DAT".to_vec());
    assert_eq!(dos_low_level_open(b"x", 0, 1, b"u", b"h").flags, DOS_O_WRONLY | DOS_O_BINARY);
    assert_eq!(dos_low_level_open(b"x", 0, 2, b"u", b"h").flags, DOS_O_RDWR | DOS_O_BINARY);
    assert_eq!(dos_low_level_open(b"x", 0, 3, b"u", b"h").flags, DOS_O_RDONLY | DOS_O_BINARY);
    let s = dos_low_level_open(b"Save/game1.dat", 0, 2, b"/home/u", b"/data");
    assert_eq!(s.path, b"/home/u/game1.dat".to_vec());
}

#[test]
fn native_separators_turns_backslashes() {
    assert_eq!(native_separators(b"A\\B\\c.dat"), b"A/B/c.dat".to_vec());
}

#[test]
fn dos_path_to_native_copies() {
    let mut buf = [7u8; 5];
    assert!(dos_path_to_native(b"a/b/c/d", &mut buf));
    assert_eq!(buf, [b'a', b'/', b'b', b'/', 0]);
}

#[test]
fn seek_result_and_clocks() {
    assert_eq!(dos_seek_result(-1), 0);
    assert_eq!(dos_seek_result(1234), 1234);
    assert_eq!(dos_clock(1999), 199);
    assert_eq!(timer_get_18_2_hz_ticks(1000), 36);
}

#[test]
fn gettime_splits_the_day() {
    let mut t = DosTime { hour: 0, minute: 0, second: 0, hsecond: 0 };
    dos_gettime(&mut t, 86400 * 3 + 3600 * 13 + 60 * 7 + 9, 987);
    assert_eq!((t.hour, t.minute, t.second, t.hsecond), (13, 7, 9, 98));
}

#[test]
fn path_segments_find_their_entries() {
    let entries: Vec<String> = vec!["Other".to_string(), "data".to_string(), "DaTa".to_string()];
    assert_eq!(path_segment_part("DATA", Some(&entries)), Some("data".to_string()));
    assert_eq!(path_segment_part("daTA", Some(&entries)), Some("data".to_string()));
    assert_eq!(path_segment_part("SOUND", Some(&entries)), Some("sound".to_string()));
    assert_eq!(path_segment_part("Maps", None), Some("maps".to_string()));
    assert_eq!(path_segment_part("", Some(&entries)), None);
}

#[test]
fn path_parts_are_joined_with_slashes() {
    let first = joined_path(String::new(), "data");
    assert_eq!(first, "data");
    assert_eq!(joined_path(first, "maps"), "data/maps");
    assert_eq!(found_or_given(String::new(), "/"), "/");
    assert_eq!(found_or_given("data".to_string(), "DATA"), "data");
}
