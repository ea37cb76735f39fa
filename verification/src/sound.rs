//! The game's sample bank: sample descriptors, the per-sample request
//! status, and the choice of which requested sample plays each turn.
use vstd::prelude::*;
use crate::audio::{PauseAllSamples, ResumeAllSamples, AudioInitOptions, InitAudio, InitMIDI, GetMusicAble, AUDIO_ABLE_MUSIC, AUDIO_ABLE_SOUND, AudioState, GetSoundAble, GetSoundActive, PlaySampleFromAddress, sample_plays, FULL_VOL, EQUL_PAN, NORM_PTCH};

verus! {

/// A sample descriptor. `data_start` is where the sample's data lies (an
/// offset into the sample data before `sound_bank_setup`, an address after).
#[derive(Clone, Copy)]
pub struct BFSample {
    pub field_0: i32,
    pub field_4: i32,
    pub field_8: i32,
    pub field_c: i16,
    pub data_shifted: i32,
    pub data_start: u32,
    pub field_16: i16,
    pub field_18: i32,
    pub field_1c: i16,
    /// Priority; a sample of priority 0 is never requested.
    pub field_1e: u8,
    /// Whether a playing sample of the same priority may finish.
    pub field_1f: u8,
}

/// A sample's request status: `field_0` counts the turns for which the
/// request stands, `field_1` is the requested loudness.
#[derive(Clone, Copy)]
pub struct BFSampleStatus {
    pub field_0: u8,
    pub field_1: u8,
}

pub const SAMPLE_COUNT: usize = 256;

/// The sample table, the status of each sample, and the priority and loudness
/// of the last sample chosen.
pub struct SoundBank {
    pub smptable: Vec<BFSample>,
    pub sample_status: Vec<BFSampleStatus>,
    /// Address of the sample data.
    pub smpdata: u32,
    pub byte_5bbe8: u8,
    pub byte_5bbe9: u8,
}

impl SoundBank {
    /// A bank has a status for every sample id, and a descriptor for each.
    pub open spec fn wf(&self) -> bool {
        &&& self.sample_status@.len() == SAMPLE_COUNT
        &&& self.smptable@.len() >= SAMPLE_COUNT
    }
}

/// Clears every sample request.
pub fn clear_bf_sample_status(bank: &mut SoundBank)
    ensures
        final(bank).sample_status@.len() == old(bank).sample_status@.len(),
        forall|i: int|
            0 <= i < old(bank).sample_status@.len() ==> (#[trigger] final(bank).sample_status@[i]).field_0 == 0
                && final(bank).sample_status@[i].field_1 == 0,
        final(bank).smptable@ == old(bank).smptable@,
        final(bank).smpdata == old(bank).smpdata,
        final(bank).byte_5bbe8 == old(bank).byte_5bbe8,
        final(bank).byte_5bbe9 == old(bank).byte_5bbe9,
{
    let n = bank.sample_status.len();
    let mut i: usize = 0;
    while i < n
        invariant
            n == bank.sample_status@.len(),
            n == old(bank).sample_status@.len(),
            i <= n,
            forall|j: int| 0 <= j < i ==> (#[trigger] bank.sample_status@[j]).field_0 == 0 && bank.sample_status@[j].field_1 == 0,
            bank.smptable@ == old(bank).smptable@,
            bank.smpdata == old(bank).smpdata,
            bank.byte_5bbe8 == old(bank).byte_5bbe8,
            bank.byte_5bbe9 == old(bank).byte_5bbe9,
        decreases n - i,
    {
        bank.sample_status.set(i, BFSampleStatus { field_0: 0, field_1: 0 });
        i = i + 1;
    }
}

/// The status of a sample after a request of loudness `stat`: a sample of
/// priority 0 is never requested; otherwise the request stands when none
/// stood or when it is louder than the one standing.
pub open spec fn status_after_request(smp: BFSample, st: BFSampleStatus, stat: u8) -> BFSampleStatus {
    if smp.field_1e == 0 {
        st
    } else if st.field_0 == 0 || stat > st.field_1 {
        BFSampleStatus { field_0: 1, field_1: stat }
    } else {
        st
    }
}

/// Requests that sample `smp_id` plays with loudness `stat`.
pub fn set_bf_sample_status(bank: &mut SoundBank, smp_id: u8, stat: u8)
    requires
        old(bank).wf(),
    ensures
        final(bank).wf(),
        final(bank).sample_status@ == old(bank).sample_status@.update(
            smp_id as int,
            status_after_request(old(bank).smptable@[smp_id as int], old(bank).sample_status@[smp_id as int], stat),
        ),
        final(bank).smptable@ == old(bank).smptable@,
        final(bank).smpdata == old(bank).smpdata,
        final(bank).byte_5bbe8 == old(bank).byte_5bbe8,
        final(bank).byte_5bbe9 == old(bank).byte_5bbe9,
{
    let i = smp_id as usize;
    let p_smp = bank.smptable[i];
    let p_status = bank.sample_status[i];
    if p_smp.field_1e == 0 {
        assert(bank.sample_status@ =~= old(bank).sample_status@.update(i as int, p_status));
        return;
    }
    if p_status.field_0 == 0 || stat > p_status.field_1 {
        bank.sample_status.set(i, BFSampleStatus { field_0: 1, field_1: stat });
    } else {
        assert(bank.sample_status@ =~= old(bank).sample_status@.update(i as int, p_status));
    }
}

/// Requests that sample `smp_id` plays with loudness `stat`.
pub fn SetBFSampleStatus(bank: &mut SoundBank, smp_id: u8, stat: u8)
    requires
        old(bank).wf(),
    ensures
        final(bank).wf(),
        final(bank).sample_status@ == old(bank).sample_status@.update(
            smp_id as int,
            status_after_request(old(bank).smptable@[smp_id as int], old(bank).sample_status@[smp_id as int], stat),
        ),
        final(bank).smptable@ == old(bank).smptable@,
        final(bank).smpdata == old(bank).smpdata,
        final(bank).byte_5bbe8 == old(bank).byte_5bbe8,
        final(bank).byte_5bbe9 == old(bank).byte_5bbe9,
{
    set_bf_sample_status(bank, smp_id, stat);
}

/// Plays sample `smp_id` at once; returns whether it was handed to the mixer.
pub fn BFPlaySample(audio: &AudioState, bank: &SoundBank, smp_id: u8) -> (r: bool)
    requires
        bank.wf(),
    ensures
        r == sample_plays(*audio),
{
    if !GetSoundAble(audio) || !GetSoundActive(audio) {
        return false;
    }
    let p_smp = bank.smptable[smp_id as usize];
    PlaySampleFromAddress(audio, 0, smp_id, FULL_VOL, EQUL_PAN, NORM_PTCH, 0, 1, p_smp.data_start)
}

/// Whether, in the scan of `BFSonundUnkn1`, a pending sample `smp` with
/// status `st` displaces the choice so far of priority `b8` and loudness `b9`.
pub open spec fn displaces(smp: BFSample, st: BFSampleStatus, b8: u8, b9: u8) -> bool {
    smp.field_1e > b8 || (smp.field_1e == b8 && smp.field_1f == 0) || (smp.field_1e == b8 && st.field_1 > b9)
}

/// The choice after scanning the sample ids `1..k`: the chosen id (0 for
/// none), its priority and its loudness, starting from priority 0 and
/// loudness `b9`.
pub open spec fn scan_choice(table: Seq<BFSample>, status: Seq<BFSampleStatus>, b9: u8, k: int) -> (
    u8,
    u8,
    u8,
)
    decreases k,
{
    if k <= 1 {
        (0u8, 0u8, b9)
    } else {
        let prev = scan_choice(table, status, b9, k - 1);
        let id = k - 1;
        if status[id].field_0 != 0 && displaces(table[id], status[id], prev.1, prev.2) {
            (id as u8, table[id].field_1e, status[id].field_1)
        } else {
            prev
        }
    }
}

/// A sample is pending when its request still stands.
pub open spec fn pending(status: Seq<BFSampleStatus>, id: int) -> bool {
    status[id].field_0 != 0
}

/// The status of a sample after a turn: the request count drops by one.
pub open spec fn status_after_turn(st: BFSampleStatus) -> BFSampleStatus {
    if st.field_0 == 0 {
        st
    } else {
        BFSampleStatus { field_0: (st.field_0 - 1) as u8, field_1: st.field_1 }
    }
}

/// Plays the most important requested sample of this turn. Every standing
/// request counts down by one; the chosen sample's request is dropped. Returns
/// the id of the sample handed to the mixer, if any. Nothing changes when sound
/// is not able or not active.
pub fn BFSonundUnkn1(audio: &AudioState, bank: &mut SoundBank) -> (played: Option<u8>)
    requires
        old(bank).wf(),
    ensures
        final(bank).wf(),
        final(bank).smptable@ == old(bank).smptable@,
        final(bank).smpdata == old(bank).smpdata,
        !sample_plays(*audio) ==> played is None && final(bank).sample_status@ == old(bank).sample_status@
            && final(bank).byte_5bbe8 == old(bank).byte_5bbe8 && final(bank).byte_5bbe9 == old(bank).byte_5bbe9,
        sample_plays(*audio) ==> {
            let c = scan_choice(old(bank).smptable@, old(bank).sample_status@, old(bank).byte_5bbe9, 256);
            &&& final(bank).byte_5bbe8 == c.1
            &&& final(bank).byte_5bbe9 == c.2
            &&& played == if c.0 == 0 { None::<u8> } else { Some(c.0) }
            &&& forall|id: int|
                1 <= id < 256 ==> #[trigger] final(bank).sample_status@[id] == if c.0 != 0 && id == c.0 {
                    BFSampleStatus { field_0: 0, field_1: old(bank).sample_status@[id].field_1 }
                } else {
                    status_after_turn(old(bank).sample_status@[id])
                }
            &&& final(bank).sample_status@[0] == old(bank).sample_status@[0]
        },
{
    if !GetSoundAble(audio) || !GetSoundActive(audio) {
        return None;
    }
    let ghost table0 = bank.smptable@;
    let ghost status0 = bank.sample_status@;
    let ghost b9_0 = bank.byte_5bbe9;
    bank.byte_5bbe8 = 0;
    let mut sel: u8 = 0;
    let mut smp_id: usize = 1;
    while smp_id <= 255
        invariant
            1 <= smp_id <= 256,
            bank.wf(),
            bank.smptable@ == table0,
            bank.smpdata == old(bank).smpdata,
            table0.len() >= 256,
            status0.len() == 256,
            (sel, bank.byte_5bbe8, bank.byte_5bbe9) == scan_choice(table0, status0, b9_0, smp_id as int),
            forall|id: int| 1 <= id < smp_id ==> #[trigger] bank.sample_status@[id] == status_after_turn(status0[id]),
            forall|id: int| smp_id <= id < 256 ==> #[trigger] bank.sample_status@[id] == status0[id],
            bank.sample_status@[0] == status0[0],
        decreases 256 - smp_id,
    {
        let p_smp = bank.smptable[smp_id];
        let p_status = bank.sample_status[smp_id];
        if p_status.field_0 != 0 {
            bank.sample_status.set(smp_id, BFSampleStatus { field_0: p_status.field_0 - 1, field_1: p_status.field_1 });
            let v6 = p_smp.field_1e;
            if v6 > bank.byte_5bbe8 || (v6 == bank.byte_5bbe8 && p_smp.field_1f == 0) || (p_smp.field_1e
                == bank.byte_5bbe8 && p_status.field_1 > bank.byte_5bbe9) {
                sel = smp_id as u8;
                bank.byte_5bbe8 = p_smp.field_1e;
                bank.byte_5bbe9 = p_status.field_1;
            }
        }
        smp_id = smp_id + 1;
    }
    if sel != 0 {
        let id = sel as usize;
        let p_smp = bank.smptable[id];
        PlaySampleFromAddress(audio, 0, sel, FULL_VOL, EQUL_PAN, NORM_PTCH, 0, 1, p_smp.data_start);
        let st = bank.sample_status[id];
        bank.sample_status.set(id, BFSampleStatus { field_0: 0, field_1: st.field_1 });
        Some(sel)
    } else {
        None
    }
}

/// The sample chosen by the scan is pending and no pending sample has a
/// higher priority than it.
pub proof fn law_chosen_sample_has_top_priority(table: Seq<BFSample>, status: Seq<BFSampleStatus>, b9: u8, k: int)
    requires
        1 <= k <= 256,
        table.len() >= 256,
        status.len() == 256,
    ensures
        scan_choice(table, status, b9, k).0 != 0 ==> {
            let c = scan_choice(table, status, b9, k);
            &&& 1 <= c.0 < k
            &&& pending(status, c.0 as int)
            &&& c.1 == table[c.0 as int].field_1e
        },
        forall|id: int| 1 <= id < k && pending(status, id) ==> #[trigger] table[id].field_1e <= scan_choice(table, status, b9, k).1,
    decreases k,
{
    if k > 1 {
        law_chosen_sample_has_top_priority(table, status, b9, k - 1);
        let prev = scan_choice(table, status, b9, k - 1);
        assert forall|id: int| 1 <= id < k && pending(status, id) implies #[trigger] table[id].field_1e <= scan_choice(table, status, b9, k).1 by {
            if id < k - 1 {
                assert(table[id].field_1e <= prev.1);
            }
        }
    }
}

/// A sample descriptor once its data offset is turned into an address in the
/// sample data at `smpdata`; `data_shifted` holds that address shifted left by 12.
pub open spec fn sample_after_setup(smp: BFSample, smpdata: u32) -> BFSample {
    let voc = ((smpdata as int + smp.data_start as int) % 0x1_0000_0000) as u32;
    BFSample {
        data_start: voc,
        data_shifted: (((voc as int) * 4096) % 0x1_0000_0000) as u32 as i32,
        ..smp
    }
}

/// The sample table once the data offsets of all samples but the first are
/// turned into addresses in the data at `smpdata`, when sound is able.
pub open spec fn table_after_setup(audio: AudioState, table: Seq<BFSample>, smpdata: u32) -> Seq<BFSample> {
    if !audio.sound_able {
        table
    } else {
        Seq::new(table.len(), |i: int| if i == 0 { table[0] } else { sample_after_setup(table[i], smpdata) })
    }
}

/// `f` is the bank `o` after its set-up: its sample table as
/// `table_after_setup` gives it, the rest unchanged.
pub open spec fn bank_set_up(audio: AudioState, o: SoundBank, f: SoundBank) -> bool {
    &&& f.smptable@ == table_after_setup(audio, o.smptable@, o.smpdata)
    &&& f.sample_status@ == o.sample_status@
    &&& f.smpdata == o.smpdata
    &&& f.byte_5bbe8 == o.byte_5bbe8
    &&& f.byte_5bbe9 == o.byte_5bbe9
}

/// Turns the data offsets of all samples but the first into addresses, when
/// sound is able; otherwise nothing changes.
pub fn sound_bank_setup(audio: &AudioState, bank: &mut SoundBank)
    ensures
        bank_set_up(*audio, *old(bank), *final(bank)),
{
    if bank.smptable.len() == 0 || !GetSoundAble(audio) {
        assert(bank.smptable@ =~= table_after_setup(*audio, old(bank).smptable@, old(bank).smpdata));
        return;
    }
    let n = bank.smptable.len();
    let mut i: usize = 1;
    while i < n
        invariant
            1 <= i <= n,
            n == bank.smptable@.len(),
            n == old(bank).smptable@.len(),
            bank.smptable@[0] == old(bank).smptable@[0],
            bank.sample_status@ == old(bank).sample_status@,
            bank.smpdata == old(bank).smpdata,
            bank.byte_5bbe8 == old(bank).byte_5bbe8,
            bank.byte_5bbe9 == old(bank).byte_5bbe9,
            forall|j: int| 1 <= j < i ==> #[trigger] bank.smptable@[j] == sample_after_setup(old(bank).smptable@[j], old(bank).smpdata),
            forall|j: int| i <= j < n ==> #[trigger] bank.smptable@[j] == old(bank).smptable@[j],
        decreases n - i,
    {
        let p = bank.smptable[i];
        let voc: u32 = bank.smpdata.wrapping_add(p.data_start);
        let shifted: u32 = ((voc as u64 * 4096) % 0x1_0000_0000) as u32;
        bank.smptable.set(i, BFSample { data_start: voc, data_shifted: shifted as i32, ..p });
        i = i + 1;
    }
    assert(bank.smptable@ =~= table_after_setup(*audio, old(bank).smptable@, old(bank).smpdata));
}

/// Puts the audio options back to the game's defaults.
pub fn audio_options_set_default(opts: &mut AudioInitOptions)
    ensures
        final(opts).sound_data_path@ == seq![115u8, 111, 117, 110, 100],
        final(opts).sound_driver_path@ == seq![100u8, 97, 116, 97],
        final(opts).ini_path@ == seq![46u8],
        final(opts).auto_scan == 1,
        final(opts).stereo_option == 1,
        final(opts).disable_load_sounds == 1,
        final(opts).disable_load_music == 1,
        final(opts).init_redbook_audio == 0,
        final(opts).use_current_awe32_soundfont == 1,
        final(opts).able_flags == AUDIO_ABLE_MUSIC | AUDIO_ABLE_SOUND,
        final(opts).sound_type == 1622,
        final(opts).max_samples == 10,
{
    opts.sound_data_path = vec![115u8, 111, 117, 110, 100];
    opts.sound_driver_path = vec![100u8, 97, 116, 97];
    opts.ini_path = vec![46u8];
    opts.auto_scan = 1;
    opts.stereo_option = 1;
    opts.disable_load_sounds = 1;
    opts.disable_load_music = 1;
    opts.init_redbook_audio = 0;
    opts.use_current_awe32_soundfont = 1;
    opts.able_flags = AUDIO_ABLE_MUSIC | AUDIO_ABLE_SOUND;
    opts.sound_type = 1622;
    opts.max_samples = 10;
}

/// Initialises audio from the options, then the MIDI player when music is
/// able. Returns whether the MIDI player was initialised.
pub fn init_audio(audio: &mut AudioState, opts: &AudioInitOptions, irq: u16, dma: u16, ioaddr: u16) -> (midi: bool)
    ensures
        final(audio).sound_able == (opts.able_flags & AUDIO_ABLE_SOUND != 0),
        final(audio).music_able == (opts.able_flags & AUDIO_ABLE_MUSIC != 0),
        final(audio).sound_active == final(audio).sound_able,
        final(audio).music_active == final(audio).music_able,
        final(audio).song_currently_playing == old(audio).song_currently_playing,
        midi == final(audio).music_able,
{
    InitAudio(audio, Some(opts));
    if GetMusicAble(audio) {
        let bank = vec![115u8, 111, 117, 110, 100, 47, 115, 121, 110, 103, 97, 109, 101, 46, 120, 109, 105];
        let drv = vec![100u8, 97, 116, 97, 47, 103, 97, 109, 101, 102, 109, 46, 100, 108, 108];
        InitMIDI(bank.as_slice(), drv.as_slice(), irq, dma, ioaddr);
        true
    } else {
        false
    }
}

/// Pauses the samples when sound is able and active; says whether it did.
pub fn BFSoundPause(audio: &AudioState) -> (paused: bool)
    ensures
        paused == (audio.sound_able && audio.sound_active),
{
    if !GetSoundAble(audio) || !GetSoundActive(audio) {
        return false;
    }
    PauseAllSamples(audio);
    true
}

/// Resumes the samples when sound is able and active; says whether it did.
pub fn BFSoundResume(audio: &AudioState) -> (resumed: bool)
    ensures
        resumed == (audio.sound_able && audio.sound_active),
{
    if !GetSoundAble(audio) || !GetSoundActive(audio) {
        return false;
    }
    ResumeAllSamples(audio);
    true
}

} // verus!
