//! The command line: the options and their values.
use vstd::prelude::*;
use crate::util::{cbuf_after_copy, copy_to_cbuf};
use crate::audio::{AUDIO_ABLE_MUSIC, AUDIO_ABLE_SOUND};
use crate::state::{DRW_F_UNKN04, DRW_F_SCREEN_VRES16};

verus! {

/// The options of the command line.
#[derive(PartialEq, Eq, Structural, Clone, Copy, Debug)]
pub enum CmdOption {
    Windowed,
    NoStretch,
    NoSound,
    Help,
    NPort,
    NName,
    CoLang,
    Lores,
    Hires,
    IIrq,
    IDma,
    IIo,
    Other,
}

/// The option that an argument names, by its long or its short form.
pub open spec fn option_of(arg: Seq<u8>) -> CmdOption {
    if arg == seq![45u8, 45, 119, 105, 110, 100, 111, 119, 101, 100] || arg == seq![45u8, 119] {
        CmdOption::Windowed
    } else if arg == seq![45u8, 45, 110, 111, 45, 115, 116, 114, 101, 116, 99, 104] || arg == seq![45u8, 83] {
        CmdOption::NoStretch
    } else if arg == seq![45u8, 45, 110, 111, 115, 111, 117, 110, 100] || arg == seq![45u8, 115] {
        CmdOption::NoSound
    } else if arg == seq![45u8, 45, 104, 101, 108, 112] || arg == seq![45u8, 104] {
        CmdOption::Help
    } else if arg == seq![45u8, 45, 110, 112, 111, 114, 116] || arg == seq![45u8, 112] {
        CmdOption::NPort
    } else if arg == seq![45u8, 45, 110, 110, 97, 109, 101] || arg == seq![45u8, 110] {
        CmdOption::NName
    } else if arg == seq![45u8, 45, 99, 111, 108, 97, 110, 103] || arg == seq![45u8, 99] {
        CmdOption::CoLang
    } else if arg == seq![45u8, 45, 108, 111, 114, 101, 115] || arg == seq![45u8, 76] {
        CmdOption::Lores
    } else if arg == seq![45u8, 45, 104, 105, 114, 101, 115] || arg == seq![45u8, 72] {
        CmdOption::Hires
    } else if arg == seq![45u8, 45, 105, 105, 114, 113] || arg == seq![45u8, 82] {
        CmdOption::IIrq
    } else if arg == seq![45u8, 45, 105, 100, 109, 97] || arg == seq![45u8, 68] {
        CmdOption::IDma
    } else if arg == seq![45u8, 45, 105, 105, 111] || arg == seq![45u8, 73] {
        CmdOption::IIo
    } else {
        CmdOption::Other
    }
}

/// Tells whether two byte strings are equal.
pub fn same_bytes(a: &[u8], b: &[u8]) -> (r: bool)
    ensures
        r == (a@ == b@),
{
    if a.len() != b.len() {
        return false;
    }
    let mut i: usize = 0;
    while i < a.len()
        invariant
            a@.len() == b@.len(),
            i <= a@.len(),
            forall|k: int| 0 <= k < i ==> a@[k] == b@[k],
        decreases a@.len() - i,
    {
        if a[i] != b[i] {
            return false;
        }
        i = i + 1;
    }
    assert(a@ =~= b@);
    true
}

/// The option that `arg` names.
pub fn classify_option(arg: &[u8]) -> (r: CmdOption)
    ensures
        r == option_of(arg@),
{
    let long = vec![45u8, 45, 119, 105, 110, 100, 111, 119, 101, 100];
    let short = vec![45u8, 119];
    if same_bytes(arg, long.as_slice()) || same_bytes(arg, short.as_slice()) {
        return CmdOption::Windowed;
    }
    let long = vec![45u8, 45, 110, 111, 45, 115, 116, 114, 101, 116, 99, 104];
    let short = vec![45u8, 83];
    if same_bytes(arg, long.as_slice()) || same_bytes(arg, short.as_slice()) {
        return CmdOption::NoStretch;
    }
    let long = vec![45u8, 45, 110, 111, 115, 111, 117, 110, 100];
    let short = vec![45u8, 115];
    if same_bytes(arg, long.as_slice()) || same_bytes(arg, short.as_slice()) {
        return CmdOption::NoSound;
    }
    let long = vec![45u8, 45, 104, 101, 108, 112];
    let short = vec![45u8, 104];
    if same_bytes(arg, long.as_slice()) || same_bytes(arg, short.as_slice()) {
        return CmdOption::Help;
    }
    let long = vec![45u8, 45, 110, 112, 111, 114, 116];
    let short = vec![45u8, 112];
    if same_bytes(arg, long.as_slice()) || same_bytes(arg, short.as_slice()) {
        return CmdOption::NPort;
    }
    let long = vec![45u8, 45, 110, 110, 97, 109, 101];
    let short = vec![45u8, 110];
    if same_bytes(arg, long.as_slice()) || same_bytes(arg, short.as_slice()) {
        return CmdOption::NName;
    }
    let long = vec![45u8, 45, 99, 111, 108, 97, 110, 103];
    let short = vec![45u8, 99];
    if same_bytes(arg, long.as_slice()) || same_bytes(arg, short.as_slice()) {
        return CmdOption::CoLang;
    }
    let long = vec![45u8, 45, 108, 111, 114, 101, 115];
    let short = vec![45u8, 76];
    if same_bytes(arg, long.as_slice()) || same_bytes(arg, short.as_slice()) {
        return CmdOption::Lores;
    }
    let long = vec![45u8, 45, 104, 105, 114, 101, 115];
    let short = vec![45u8, 72];
    if same_bytes(arg, long.as_slice()) || same_bytes(arg, short.as_slice()) {
        return CmdOption::Hires;
    }
    let long = vec![45u8, 45, 105, 105, 114, 113];
    let short = vec![45u8, 82];
    if same_bytes(arg, long.as_slice()) || same_bytes(arg, short.as_slice()) {
        return CmdOption::IIrq;
    }
    let long = vec![45u8, 45, 105, 100, 109, 97];
    let short = vec![45u8, 68];
    if same_bytes(arg, long.as_slice()) || same_bytes(arg, short.as_slice()) {
        return CmdOption::IDma;
    }
    let long = vec![45u8, 45, 105, 105, 111];
    let short = vec![45u8, 73];
    if same_bytes(arg, long.as_slice()) || same_bytes(arg, short.as_slice()) {
        return CmdOption::IIo;
    }
    CmdOption::Other
}

/// An ASCII decimal digit.
pub open spec fn is_digit(b: u8) -> bool {
    48 <= b <= 57
}

pub open spec fn all_digits(s: Seq<u8>) -> bool {
    forall|i: int| 0 <= i < s.len() ==> is_digit(#[trigger] s[i])
}

/// The value of a string of decimal digits.
pub open spec fn decimal_value(s: Seq<u8>) -> int
    decreases s.len(),
{
    if s.len() == 0 {
        0
    } else {
        decimal_value(s.drop_last()) * 10 + (s.last() as int - 48)
    }
}

/// The digits of a number: the string without a leading `+`.
pub open spec fn digits_of(s: Seq<u8>) -> Seq<u8> {
    if s.len() > 0 && s[0] == 43 {
        s.subrange(1, s.len() as int)
    } else {
        s
    }
}

/// The unsigned number that `s` spells, if it spells one of at most `max`:
/// an optional `+` followed by at least one decimal digit and nothing else,
/// as parsing a string into an unsigned integer type accepts it.
pub open spec fn parsed_unsigned(s: Seq<u8>, max: int) -> Option<int> {
    let d = digits_of(s);
    if d.len() > 0 && all_digits(d) && decimal_value(d) <= max {
        Some(decimal_value(d))
    } else {
        None
    }
}

proof fn lemma_decimal_nonneg(s: Seq<u8>)
    requires
        all_digits(s),
    ensures
        decimal_value(s) >= 0,
    decreases s.len(),
{
    if s.len() > 0 {
        assert(all_digits(s.drop_last()));
        lemma_decimal_nonneg(s.drop_last());
        assert(is_digit(s[s.len() - 1]));
    }
}

proof fn lemma_decimal_prefix(s: Seq<u8>, k: int)
    requires
        all_digits(s),
        0 <= k <= s.len(),
    ensures
        decimal_value(s.subrange(0, k)) <= decimal_value(s),
    decreases s.len() - k,
{
    if k == s.len() {
        assert(s.subrange(0, k) =~= s);
    } else {
        lemma_decimal_prefix(s, k + 1);
        let t = s.subrange(0, k + 1);
        assert(t.drop_last() =~= s.subrange(0, k));
        assert(all_digits(s.subrange(0, k)));
        lemma_decimal_nonneg(s.subrange(0, k));
        assert(is_digit(t[k]));
    }
}

/// Parses `s` as an unsigned number of at most `max`.
pub fn parse_unsigned(s: &[u8], max: u32) -> (r: Option<u32>)
    requires
        max <= 0xffff,
    ensures
        match r {
            Some(v) => parsed_unsigned(s@, max as int) == Some(v as int),
            None => parsed_unsigned(s@, max as int) is None,
        },
{
    let n = s.len();
    let start: usize = if n > 0 && s[0] == 43 { 1 } else { 0 };
    let ghost d = digits_of(s@);
    assert(d =~= s@.subrange(start as int, n as int));
    if start == n {
        return None;
    }
    let mut acc: u32 = 0;
    let mut j: usize = start;
    while j < n
        invariant
            start <= j <= n,
            n == s@.len(),
            d == s@.subrange(start as int, n as int),
            d == digits_of(s@),
            all_digits(d.subrange(0, j - start)),
            acc as int == decimal_value(d.subrange(0, j - start)),
            acc <= max,
            max <= 0xffff,
        decreases n - j,
    {
        let b = s[j];
        if b < 48 || b > 57 {
            assert(!is_digit(d[j - start]));
            return None;
        }
        let ghost before = d.subrange(0, j - start);
        acc = acc * 10 + (b - 48) as u32;
        proof {
            let t = d.subrange(0, j + 1 - start);
            assert(t.drop_last() =~= before);
            assert(t.last() == b);
            assert(all_digits(t));
        }
        j = j + 1;
        if acc > max {
            proof {
                if all_digits(d) {
                    lemma_decimal_prefix(d, j - start);
                }
            }
            return None;
        }
    }
    assert(d.subrange(0, n - start) =~= d);
    Some(acc)
}

/// What the options of the command line set.
pub struct CmdOptions {
    pub fullscreen: bool,
    pub lores_stretch: bool,
    pub aud_flags: u16,
    pub unused_option_p: u8,
    /// The player's name on the network, a NUL-terminated string.
    pub network_name: Vec<u8>,
    pub language: u8,
    /// The three letters of the language, NUL-terminated.
    pub language_3str: Vec<u8>,
    pub draw_flags: u8,
    pub sndcard_irq: u16,
    pub sndcard_dma: u16,
    pub sndcard_ioaddr: u16,
}

/// Size of the network name buffer.
pub const NETWORK_NAME_SIZE: usize = 18;

/// The values the options set, as the command line is read.
pub struct OptionValues {
    pub fullscreen: bool,
    pub lores_stretch: bool,
    pub aud_flags: u16,
    pub unused_option_p: u8,
    pub network_name: Seq<u8>,
    pub language: u8,
    pub draw_flags: u8,
    pub sndcard_irq: u16,
    pub sndcard_dma: u16,
    pub sndcard_ioaddr: u16,
}

impl CmdOptions {
    pub open spec fn wf(&self) -> bool {
        &&& self.network_name@.len() == NETWORK_NAME_SIZE
        &&& self.language_3str@.len() == 4
    }

    pub open spec fn values(&self) -> OptionValues {
        OptionValues {
            fullscreen: self.fullscreen,
            lores_stretch: self.lores_stretch,
            aud_flags: self.aud_flags,
            unused_option_p: self.unused_option_p,
            network_name: self.network_name@,
            language: self.language,
            draw_flags: self.draw_flags,
            sndcard_irq: self.sndcard_irq,
            sndcard_dma: self.sndcard_dma,
            sndcard_ioaddr: self.sndcard_ioaddr,
        }
    }
}

/// The arguments as byte strings.
pub open spec fn arg_views(args: Seq<Vec<u8>>) -> Seq<Seq<u8>> {
    args.map_values(|a: Vec<u8>| a@)
}

/// The option takes the next argument as its value.
pub open spec fn takes_value(op: CmdOption) -> bool {
    op == CmdOption::NPort || op == CmdOption::NName || op == CmdOption::CoLang || op == CmdOption::IIrq
        || op == CmdOption::IDma || op == CmdOption::IIo
}

/// The number a value spells, or 0 if it spells none of at most `max`.
pub open spec fn number_or_zero(v: Seq<u8>, max: int) -> int {
    match parsed_unsigned(v, max) {
        Some(x) => x,
        None => 0,
    }
}

/// The values after the option `args[i]`, with its value `args[i + 1]`
/// when it takes one and there is one.
pub open spec fn apply_option(o: OptionValues, args: Seq<Seq<u8>>, i: int) -> OptionValues {
    let op = option_of(args[i]);
    let has_value = i + 1 < args.len();
    let v = args[i + 1];
    if op == CmdOption::Windowed {
        OptionValues { fullscreen: false, ..o }
    } else if op == CmdOption::NoStretch {
        OptionValues { lores_stretch: false, ..o }
    } else if op == CmdOption::NoSound {
        OptionValues { aud_flags: o.aud_flags & !(AUDIO_ABLE_MUSIC | AUDIO_ABLE_SOUND), ..o }
    } else if op == CmdOption::Lores {
        OptionValues { draw_flags: DRW_F_UNKN04, ..o }
    } else if op == CmdOption::Hires {
        OptionValues { draw_flags: DRW_F_SCREEN_VRES16, ..o }
    } else if !has_value {
        o
    } else if op == CmdOption::NPort {
        let p = number_or_zero(v, 255);
        OptionValues { unused_option_p: (if p < 16 { p } else { 16 }) as u8, ..o }
    } else if op == CmdOption::NName {
        OptionValues { network_name: cbuf_after_copy(o.network_name, v), ..o }
    } else if op == CmdOption::CoLang {
        let l = number_or_zero(v, 255);
        OptionValues { language: (if l >= 6 { 0 } else { l }) as u8, ..o }
    } else if op == CmdOption::IIrq {
        OptionValues { sndcard_irq: number_or_zero(v, 0xffff) as u16, ..o }
    } else if op == CmdOption::IDma {
        OptionValues { sndcard_dma: number_or_zero(v, 0xffff) as u16, ..o }
    } else if op == CmdOption::IIo {
        OptionValues { sndcard_ioaddr: number_or_zero(v, 0xffff) as u16, ..o }
    } else {
        o
    }
}

/// The values after the options from `args[i]` on, and whether help was
/// asked for, which stops the reading.
pub open spec fn options_from(o: OptionValues, args: Seq<Seq<u8>>, i: int) -> (OptionValues, bool)
    decreases args.len() + 2 - i,
{
    if i < 0 || i >= args.len() {
        (o, false)
    } else if option_of(args[i]) == CmdOption::Help {
        (o, true)
    } else {
        options_from(apply_option(o, args, i), args, if takes_value(option_of(args[i])) { i + 2 } else { i + 1 })
    }
}

/// The three letters of language `l`, NUL-terminated; English for a
/// language that has none.
pub open spec fn language_letters(l: u8) -> Seq<u8> {
    if l == 1 {
        seq![102u8, 114, 101, 0]
    } else if l == 2 {
        seq![105u8, 116, 97, 0]
    } else if l == 3 {
        seq![103u8, 101, 114, 0]
    } else if l == 4 {
        seq![112u8, 111, 108, 0]
    } else if l == 5 {
        seq![115u8, 112, 97, 0]
    } else {
        seq![101u8, 110, 103, 0]
    }
}

fn set_language_letters(opts: &mut CmdOptions)
    requires
        old(opts).wf(),
    ensures
        final(opts).wf(),
        final(opts).language_3str@ == language_letters(old(opts).language),
        final(opts).values() == old(opts).values(),
{
    let l = opts.language;
    opts.language_3str = if l == 1 {
        vec![102u8, 114, 101, 0]
    } else if l == 2 {
        vec![105u8, 116, 97, 0]
    } else if l == 3 {
        vec![103u8, 101, 114, 0]
    } else if l == 4 {
        vec![112u8, 111, 108, 0]
    } else if l == 5 {
        vec![115u8, 112, 97, 0]
    } else {
        vec![101u8, 110, 103, 0]
    };
}

/// Parses the value of a numeric option, 0 when it spells no number of at
/// most `max`.
fn value_or_zero(v: &[u8], max: u32) -> (r: u32)
    requires
        max <= 0xffff,
    ensures
        r as int == number_or_zero(v@, max as int),
{
    match parse_unsigned(v, max) {
        Some(x) => x,
        None => 0,
    }
}

/// Reads the options of the command line (`args[0]` is the program) into
/// `opts`. Help stops the reading: the result is then true and the caller
/// shows the help. Otherwise the language's letters are set, and a language
/// the game has no text for (3 and above) falls back to English.
pub fn process_options(args: &[Vec<u8>], opts: &mut CmdOptions) -> (help: bool)
    requires
        old(opts).wf(),
    ensures
        final(opts).wf(),
        help == options_from(old(opts).values(), arg_views(args@), 1).1,
        help ==> final(opts).values() == options_from(old(opts).values(), arg_views(args@), 1).0,
        help ==> final(opts).language_3str@ == old(opts).language_3str@,
        !help ==> {
            let v = options_from(old(opts).values(), arg_views(args@), 1).0;
            &&& final(opts).values() == OptionValues { language: if v.language >= 3 { 0 } else { v.language }, ..v }
            &&& final(opts).language_3str@ == language_letters(v.language)
        },
{
    let ghost a = arg_views(args@);
    let ghost o = old(opts).values();
    let mut i: usize = 1;
    while i < args.len()
        invariant
            opts.wf(),
            1 <= i <= args@.len() + 1,
            a == arg_views(args@),
            o == old(opts).values(),
            a.len() == args@.len(),
            options_from(opts.values(), a, i as int) == options_from(o, a, 1),
            opts.language_3str@ == old(opts).language_3str@,
        decreases args@.len() + 1 - i,
    {
        assert(a[i as int] == args@[i as int]@);
        let op = classify_option(args[i].as_slice());
        let ghost before = opts.values();
        let ghost ii = i as int;
        match op {
            CmdOption::Help => {
                assert(options_from(opts.values(), a, i as int) == (opts.values(), true));
                return true;
            },
            CmdOption::Windowed => {
                opts.fullscreen = false;
            },
            CmdOption::NoStretch => {
                opts.lores_stretch = false;
            },
            CmdOption::NoSound => {
                opts.aud_flags = opts.aud_flags & !(AUDIO_ABLE_MUSIC | AUDIO_ABLE_SOUND);
            },
            CmdOption::Lores => {
                opts.draw_flags = DRW_F_UNKN04;
            },
            CmdOption::Hires => {
                opts.draw_flags = DRW_F_SCREEN_VRES16;
            },
            CmdOption::Other => {},
            _ => {
                if i + 1 < args.len() {
                    i = i + 1;
                    assert(a[i as int] == args@[i as int]@);
                    let v = args[i].as_slice();
                    match op {
                        CmdOption::NPort => {
                            let p = value_or_zero(v, 255);
                            opts.unused_option_p = if p < 16 { p as u8 } else { 16 };
                        },
                        CmdOption::NName => {
                            copy_to_cbuf(v, opts.network_name.as_mut_slice());
                        },
                        CmdOption::CoLang => {
                            let l = value_or_zero(v, 255);
                            opts.language = if l >= 6 { 0 } else { l as u8 };
                        },
                        CmdOption::IIrq => {
                            opts.sndcard_irq = value_or_zero(v, 0xffff) as u16;
                        },
                        CmdOption::IDma => {
                            opts.sndcard_dma = value_or_zero(v, 0xffff) as u16;
                        },
                        _ => {
                            opts.sndcard_ioaddr = value_or_zero(v, 0xffff) as u16;
                        },
                    }
                }
            },
        }
        assert(opts.values() == apply_option(before, a, ii));
        assert(options_from(opts.values(), a, a.len() as int + 1) == options_from(opts.values(), a, a.len() as int));
        i = i + 1;
    }
    set_language_letters(opts);
    if opts.language >= 3 {
        opts.language = 0;
    }
    false
}

} // verus!
