//! The sound library's state: which of sound and music the hardware allows,
//! which of them the player has switched on, and which song is playing.
use vstd::prelude::*;

verus! {

pub const AUDIO_ABLE_MUSIC: u16 = 0x01;
pub const AUDIO_ABLE_SOUND: u16 = 0x02;

pub const FULL_VOL: i32 = 127;
pub const EQUL_PAN: i32 = 64;
pub const NORM_PTCH: i32 = 100;

/// Options handed to `InitAudio`.
pub struct AudioInitOptions {
    pub sound_data_path: Vec<u8>,
    pub sound_driver_path: Vec<u8>,
    pub ini_path: Vec<u8>,
    pub auto_scan: u8,
    pub stereo_option: u8,
    pub disable_load_sounds: u8,
    pub disable_load_music: u8,
    pub init_redbook_audio: u8,
    pub use_current_awe32_soundfont: u8,
    pub able_flags: u16,
    pub sound_type: u32,
    pub max_samples: u16,
}

/// The audio flags and the song that is playing (0 for none).
pub struct AudioState {
    pub sound_able: bool,
    pub music_able: bool,
    pub sound_active: bool,
    pub music_active: bool,
    pub song_currently_playing: u16,
}

impl AudioState {
    /// Audio before initialisation: nothing able, nothing active, no song.
    pub fn new() -> (r: AudioState)
        ensures
            !r.sound_able && !r.music_able && !r.sound_active && !r.music_active,
            r.song_currently_playing == 0,
    {
        AudioState {
            sound_able: false,
            music_able: false,
            sound_active: false,
            music_active: false,
            song_currently_playing: 0,
        }
    }
}

/// Sets what is able from the options' flags and switches on what is able.
/// Returns 1, or 0 without a change when no options are given.
pub fn InitAudio(audio: &mut AudioState, opts: Option<&AudioInitOptions>) -> (r: i32)
    ensures
        match opts {
            None => r == 0 && *final(audio) == *old(audio),
            Some(o) => {
                &&& r == 1
                &&& final(audio).sound_able == (o.able_flags & AUDIO_ABLE_SOUND != 0)
                &&& final(audio).music_able == (o.able_flags & AUDIO_ABLE_MUSIC != 0)
                &&& final(audio).sound_active == final(audio).sound_able
                &&& final(audio).music_active == final(audio).music_able
                &&& final(audio).song_currently_playing == old(audio).song_currently_playing
            },
        },
{
    match opts {
        None => 0,
        Some(o) => {
            audio.sound_able = (o.able_flags & AUDIO_ABLE_SOUND) != 0;
            audio.music_able = (o.able_flags & AUDIO_ABLE_MUSIC) != 0;
            audio.sound_active = audio.sound_able;
            audio.music_active = audio.music_able;
            1
        },
    }
}

/// Switches sound and music off; what is able stays.
pub fn FreeAudio(audio: &mut AudioState)
    ensures
        !final(audio).sound_active,
        !final(audio).music_active,
        final(audio).sound_able == old(audio).sound_able,
        final(audio).music_able == old(audio).music_able,
        final(audio).song_currently_playing == old(audio).song_currently_playing,
{
    audio.sound_active = false;
    audio.music_active = false;
}

pub fn GetSoundAble(audio: &AudioState) -> (r: bool)
    ensures
        r == audio.sound_able,
{
    audio.sound_able
}

pub fn GetMusicAble(audio: &AudioState) -> (r: bool)
    ensures
        r == audio.music_able,
{
    audio.music_able
}

pub fn GetSoundActive(audio: &AudioState) -> (r: bool)
    ensures
        r == audio.sound_active,
{
    audio.sound_active
}

pub fn GetMusicActive(audio: &AudioState) -> (r: bool)
    ensures
        r == audio.music_active,
{
    audio.music_active
}

/// Initialises the MIDI player; there is no driver to load, so this
/// always succeeds and returns 1.
pub fn InitMIDI(bank_fname: &[u8], drv_fname: &[u8], irq: u16, dma: u16, ioaddr: u16) -> (r: i32)
    ensures
        r == 1,
{
    1
}

/// The song playing after `BFMidiStartMusic(song)`: the song, when music is
/// able and active; otherwise what was playing.
pub open spec fn song_after_start(audio: AudioState, song: u16) -> u16 {
    if audio.music_able && audio.music_active {
        song
    } else {
        audio.song_currently_playing
    }
}

/// Starts `song` when music is able and active.
pub fn BFMidiStartMusic(audio: &mut AudioState, song: u16)
    ensures
        final(audio).song_currently_playing == song_after_start(*old(audio), song),
        final(audio).sound_able == old(audio).sound_able,
        final(audio).music_able == old(audio).music_able,
        final(audio).sound_active == old(audio).sound_active,
        final(audio).music_active == old(audio).music_active,
{
    if !GetMusicAble(audio) || !GetMusicActive(audio) {
        return;
    }
    if audio.song_currently_playing != song {
        audio.song_currently_playing = song;
    }
}

/// Stops the song that is playing.
pub fn BFMidiStopMusic(audio: &mut AudioState)
    ensures
        final(audio).song_currently_playing == 0,
        final(audio).sound_able == old(audio).sound_able,
        final(audio).music_able == old(audio).music_able,
        final(audio).sound_active == old(audio).sound_active,
        final(audio).music_active == old(audio).music_active,
{
    audio.song_currently_playing = 0;
}

/// Shuts the MIDI player down, which stops the song.
pub fn ShutdownMIDI(audio: &mut AudioState)
    ensures
        final(audio).song_currently_playing == 0,
        final(audio).sound_able == old(audio).sound_able,
        final(audio).music_able == old(audio).music_able,
        final(audio).sound_active == old(audio).sound_active,
        final(audio).music_active == old(audio).music_active,
{
    BFMidiStopMusic(audio);
}

/// Frees the music, which shuts the MIDI player down.
pub fn FreeMusic(audio: &mut AudioState)
    ensures
        final(audio).song_currently_playing == 0,
        final(audio).sound_able == old(audio).sound_able,
        final(audio).music_able == old(audio).music_able,
        final(audio).sound_active == old(audio).sound_active,
        final(audio).music_active == old(audio).music_active,
{
    ShutdownMIDI(audio);
}

/// Pausing a song has no effect on the state kept here.
pub fn BFMidiPauseSong(audio: &AudioState) {
}

/// Resuming a song has no effect on the state kept here.
pub fn BFMidiResumeSong(audio: &AudioState) {
}

/// Whether a song is playing.
pub fn BFMidiIsMusicPlaying(audio: &AudioState) -> (r: bool)
    ensures
        r == (audio.song_currently_playing > 0),
{
    audio.song_currently_playing > 0
}

/// Whether a sample handed to `PlaySampleFromAddress` is played: only when
/// sound is able and active.
pub open spec fn sample_plays(audio: AudioState) -> bool {
    audio.sound_able && audio.sound_active
}

/// Plays a sample from its data at address `data`; returns whether it was handed to the mixer,
/// which is the case when sound is able and active.
pub fn PlaySampleFromAddress(
    audio: &AudioState,
    channel: i32,
    smp_id: u8,
    vol: i32,
    pan: i32,
    pitch: i32,
    flags: u32,
    priority: u32,
    data: u32,
) -> (r: bool)
    ensures
        r == sample_plays(*audio),
{
    if !GetSoundAble(audio) || !GetSoundActive(audio) {
        return false;
    }
    true
}

/// Pausing the samples has no effect on the state kept here.
pub fn PauseAllSamples(audio: &AudioState) {
}

/// Resuming the samples has no effect on the state kept here.
pub fn ResumeAllSamples(audio: &AudioState) {
}

/// Freeing the sound has no effect on the state kept here.
pub fn FreeSound(audio: &AudioState) {
}

} // verus!
