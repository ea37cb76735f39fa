use syndicatfx::util::{strtolower, strtocapwords, copy_to_cbuf, extract_path_segment, find_byte};

#[test]
fn strtolower_lowers_ascii_letters_only() {
    let mut s = *b"MiXeD 123 ABC!";
    strtolower(&mut s);
    assert_eq!(&s, b"mixed 123 abc!");
}

#[test]
fn strtolower_twice_is_once() {
    let mut a = *b"Syndicate WARS";
    strtolower(&mut a);
    let once = a;
    strtolower(&mut a);
    assert_eq!(a, once);
}

#[test]
fn strtocapwords_capitalises_each_word() {
    let mut s = *b"hELLO wORLD\0xy";
    strtocapwords(&mut s);
    assert_eq!(&s, b"Hello World\0xy");
}

#[test]
fn strtocapwords_waits_for_a_letter() {
    let mut s = *b"  12abc DEF\0";
    strtocapwords(&mut s);
    assert_eq!(&s, b"  12Abc Def\0");
}

#[test]
fn copy_to_cbuf_truncates_and_terminates() {
    let mut buf = [9u8; 4];
    copy_to_cbuf(b"abcdef", &mut buf);
    assert_eq!(buf, [b'a', b'b', b'c', 0]);
    let mut buf2 = [9u8; 6];
    copy_to_cbuf(b"ab", &mut buf2);
    assert_eq!(buf2, [b'a', b'b', 0, 9, 9, 9]);
}

#[test]
fn extract_path_segment_splits_at_separator() {
    let mut buf = [0u8; 16];
    let rest = extract_path_segment(b"data/maps/map01", &mut buf);
    assert_eq!(&buf[..5], b"data\0");
    assert_eq!(rest, Some(b"maps/map01".to_vec()));
}

#[test]
fn extract_path_segment_last_segment_and_trailing_separator() {
    let mut buf = [0u8; 8];
    assert_eq!(extract_path_segment(b"file.dat", &mut buf), None);
    assert_eq!(&buf[..8], b"file.da\0");
    let mut buf2 = [0u8; 8];
    assert_eq!(extract_path_segment(b"dir/", &mut buf2), None);
    assert_eq!(&buf2[..4], b"dir\0");
}

#[test]
fn find_byte_finds_first() {
    assert_eq!(find_byte(b"a/b/c", b'/'), Some(1));
    assert_eq!(find_byte(b"abc", b'/'), None);
}
