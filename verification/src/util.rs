//! Byte-string helpers: ASCII case mapping, C-string buffers, path segments.
use vstd::prelude::*;

verus! {

/// Is `b` an ASCII upper-case letter?
pub open spec fn is_upper(b: u8) -> bool {
    65 <= b <= 90
}

/// Is `b` an ASCII lower-case letter?
pub open spec fn is_lower(b: u8) -> bool {
    97 <= b <= 122
}

/// Is `b` an ASCII letter?
pub open spec fn is_alpha(b: u8) -> bool {
    is_upper(b) || is_lower(b)
}

/// ASCII lower-casing of one byte; other bytes are left as they are.
pub open spec fn lower_byte(b: u8) -> u8 {
    if is_upper(b) { (b + 32) as u8 } else { b }
}

/// ASCII upper-casing of one byte; other bytes are left as they are.
pub open spec fn upper_byte(b: u8) -> u8 {
    if is_lower(b) { (b - 32) as u8 } else { b }
}

pub fn ascii_lower(b: u8) -> (r: u8)
    ensures
        r == lower_byte(b),
{
    if 65 <= b && b <= 90 { b + 32 } else { b }
}

pub fn ascii_upper(b: u8) -> (r: u8)
    ensures
        r == upper_byte(b),
{
    if 97 <= b && b <= 122 { b - 32 } else { b }
}

/// Lower-cases every ASCII letter of `s` in place.
pub fn strtolower(s: &mut [u8])
    ensures
        final(s)@.len() == old(s)@.len(),
        forall|i: int| 0 <= i < old(s)@.len() ==> final(s)@[i] == lower_byte(old(s)@[i]),
{
    let n = s.len();
    let mut i: usize = 0;
    while i < n
        invariant
            n == s@.len(),
            s@.len() == old(s)@.len(),
            i <= n,
            forall|j: int| 0 <= j < i ==> s@[j] == lower_byte(old(s)@[j]),
            forall|j: int| i <= j < n ==> s@[j] == old(s)@[j],
        decreases n - i,
    {
        let b = s[i];
        s[i] = ascii_lower(b);
        i = i + 1;
    }
}


/// Whether a word begins at position `j` of `s` when `strtocapwords` reaches it:
/// a word begins at the start, and again after a space once a letter has
/// been capitalised.
pub open spec fn word_start_at(s: Seq<u8>, j: int) -> bool
    decreases j,
{
    if j <= 0 {
        true
    } else if word_start_at(s, j - 1) {
        !is_alpha(s[j - 1])
    } else {
        s[j - 1] == 32
    }
}

/// The byte that `strtocapwords` writes at position `j` of `s`.
pub open spec fn capword_byte(s: Seq<u8>, j: int) -> u8 {
    if word_start_at(s, j) {
        upper_byte(s[j])
    } else {
        lower_byte(s[j])
    }
}

/// No NUL byte occurs in `s` before position `j`.
pub open spec fn no_nul_before(s: Seq<u8>, j: int) -> bool {
    forall|k: int| 0 <= k < j ==> s[k] != 0
}

/// Capitalises the first letter of every word of the NUL-terminated string in
/// `s` and lower-cases the rest; bytes from the first NUL on are untouched.
pub fn strtocapwords(s: &mut [u8])
    ensures
        final(s)@.len() == old(s)@.len(),
        forall|i: int|
            0 <= i < old(s)@.len() ==> #[trigger] final(s)@[i] == if no_nul_before(old(s)@, i + 1) {
                capword_byte(old(s)@, i)
            } else {
                old(s)@[i]
            },
{
    let ghost s0 = s@;
    let n = s.len();
    let mut word_start = true;
    let mut i: usize = 0;
    while i < n
        invariant_except_break
            n == s@.len(),
            s@.len() == s0.len(),
            i <= n,
            word_start == word_start_at(s0, i as int),
            no_nul_before(s0, i as int),
            forall|j: int| 0 <= j < i ==> s@[j] == capword_byte(s0, j),
            forall|j: int| i <= j < n ==> s@[j] == s0[j],
        ensures
            s@.len() == s0.len(),
            forall|j: int|
                0 <= j < s0.len() ==> s@[j] == if no_nul_before(s0, j + 1) {
                    capword_byte(s0, j)
                } else {
                    s0[j]
                },
        decreases n - i,
    {
        let b = s[i];
        if b == 0 {
            assert forall|j: int| 0 <= j < s0.len() implies s@[j] == if no_nul_before(s0, j + 1) {
                capword_byte(s0, j)
            } else {
                s0[j]
            } by {
                if j >= i {
                    assert(!no_nul_before(s0, j + 1)) by {
                        assert(s0[i as int] == 0);
                    }
                } else {
                    assert(no_nul_before(s0, j + 1));
                }
            }
            break;
        }
        if word_start {
            if (65 <= b && b <= 90) || (97 <= b && b <= 122) {
                s[i] = ascii_upper(b);
                word_start = false;
            }
        } else {
            let l = ascii_lower(b);
            s[i] = l;
            if l == 32 {
                word_start = true;
            }
        }
        assert(word_start == word_start_at(s0, i + 1));
        i = i + 1;
    }
}

/// `buf` after a C string copy of `src`: as many bytes of `src` as fit before
/// a terminating NUL, the NUL, and the rest of `buf` unchanged.
pub open spec fn cbuf_after_copy(buf: Seq<u8>, src: Seq<u8>) -> Seq<u8>
    recommends
        buf.len() >= 1,
{
    let n = if src.len() < buf.len() - 1 { src.len() as int } else { buf.len() - 1 };
    Seq::new(buf.len(), |k: int| if k < n { src[k] } else if k == n { 0u8 } else { buf[k] })
}

/// Copies `src` into `buf` as a NUL-terminated string, truncating it to fit.
pub fn copy_to_cbuf(src: &[u8], buf: &mut [u8])
    requires
        old(buf)@.len() >= 1,
    ensures
        final(buf)@ == cbuf_after_copy(old(buf)@, src@),
{
    let n = if src.len() < buf.len() - 1 { src.len() } else { buf.len() - 1 };
    let mut i: usize = 0;
    while i < n
        invariant
            n <= src@.len(),
            n < buf@.len(),
            n == if src@.len() < old(buf)@.len() - 1 { src@.len() as int } else { old(buf)@.len() - 1 },
            buf@.len() == old(buf)@.len(),
            i <= n,
            forall|k: int| 0 <= k < i ==> buf@[k] == src@[k],
            forall|k: int| i <= k < buf@.len() ==> buf@[k] == old(buf)@[k],
        decreases n - i,
    {
        buf[i] = src[i];
        i = i + 1;
    }
    buf[n] = 0;
    assert(buf@ =~= cbuf_after_copy(old(buf)@, src@));
}

/// The path separator of the host system.
pub const PATH_SEPARATOR: u8 = 47;

/// Index of the first occurrence of `c` in `s`, if any.
pub open spec fn first_index_of(s: Seq<u8>, c: u8) -> Option<int> {
    if exists|i: int| 0 <= i < s.len() && s[i] == c {
        Some(choose|i: int| 0 <= i < s.len() && s[i] == c && forall|k: int| 0 <= k < i ==> s[k] != c)
    } else {
        None
    }
}

/// Finds the first occurrence of `c` in `s`.
pub fn find_byte(s: &[u8], c: u8) -> (r: Option<usize>)
    ensures
        match r {
            Some(i) => i < s@.len() && s@[i as int] == c && forall|k: int| 0 <= k < i ==> s@[k] != c,
            None => forall|k: int| 0 <= k < s@.len() ==> s@[k] != c,
        },
{
    let mut i: usize = 0;
    while i < s.len()
        invariant
            i <= s@.len(),
            forall|k: int| 0 <= k < i ==> s@[k] != c,
        decreases s@.len() - i,
    {
        if s[i] == c {
            return Some(i);
        }
        i = i + 1;
    }
    None
}

/// Copies `s[from..to]` into a new vector.
pub fn copy_range(s: &[u8], from: usize, to: usize) -> (r: Vec<u8>)
    requires
        from <= to <= s@.len(),
    ensures
        r@ == s@.subrange(from as int, to as int),
{
    let mut r: Vec<u8> = Vec::new();
    let mut i: usize = from;
    while i < to
        invariant
            from <= i <= to,
            to <= s@.len(),
            r@ == s@.subrange(from as int, i as int),
        decreases to - i,
    {
        r.push(s[i]);
        i = i + 1;
        assert(r@ =~= s@.subrange(from as int, i as int));
    }
    r
}

/// `first_index_of` is the first position of `c`, when `i` is that position.
pub proof fn lemma_first_index_of(s: Seq<u8>, c: u8, i: int)
    requires
        0 <= i < s.len(),
        s[i] == c,
        forall|k: int| 0 <= k < i ==> s[k] != c,
    ensures
        first_index_of(s, c) == Some(i),
{
    let j = choose|j: int| 0 <= j < s.len() && s[j] == c && forall|k: int| 0 <= k < j ==> s[k] != c;
    assert(0 <= j < s.len() && s[j] == c && forall|k: int| 0 <= k < j ==> s[k] != c);
    if j < i {
        assert(s[j] != c);
    }
    if i < j {
        assert(s[i] != c);
    }
}

/// Copies the first segment of `path` (up to the first separator) into `buf`
/// as a C string, and returns what follows the separator, if anything does.
pub fn extract_path_segment(path: &[u8], buf: &mut [u8]) -> (rest: Option<Vec<u8>>)
    requires
        old(buf)@.len() >= 1,
    ensures
        match first_index_of(path@, PATH_SEPARATOR) {
            Some(pos) => {
                &&& final(buf)@ == cbuf_after_copy(old(buf)@, path@.subrange(0, pos))
                &&& if pos + 1 == path@.len() {
                    rest is None
                } else {
                    rest matches Some(r) && r@ == path@.subrange(pos + 1, path@.len() as int)
                }
            },
            None => final(buf)@ == cbuf_after_copy(old(buf)@, path@) && rest is None,
        },
{
    match find_byte(path, PATH_SEPARATOR) {
        Some(pos) => {
            proof {
                lemma_first_index_of(path@, PATH_SEPARATOR, pos as int);
            }
            let seg = copy_range(path, 0, pos);
            copy_to_cbuf(seg.as_slice(), buf);
            if pos == path.len() - 1 {
                None
            } else {
                Some(copy_range(path, pos + 1, path.len()))
            }
        },
        None => {
            assert(path@.subrange(0, path@.len() as int) =~= path@);
            copy_to_cbuf(path, buf);
            None
        },
    }
}

} // verus!
