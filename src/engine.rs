//! Decisions of the engine coordinator: which seeks to act on and how,
//! what a preloaded next track is decoded at, and the playback state shown
//! to the user.

use vstd::prelude::*;
use vstd::string::StringExecFns;
use crate::session::{samples_for_ms, samples_in_ms, min_nat};

verus! {

/// Seeks closer together than this, in milliseconds, are ignored.
pub const SEEK_COOLDOWN_MS: u64 = 50;

/// Seeks that move the target by less than this, in milliseconds, are ignored.
pub const SEEK_POSITION_THRESHOLD_MS: u64 = 100;

/// Bits of the `f32` value 1.0: full volume.
pub const UNIT_VOLUME_BITS: u64 = 0x3F80_0000;

pub open spec fn abs_diff(a: u64, b: u64) -> nat {
    if a >= b { (a - b) as nat } else { (b - a) as nat }
}

/// Rate limit of seek commands.
#[derive(Debug, Clone, Copy, PartialEq, Eq, Structural)]
pub struct SeekLimiter {
    /// Time of the last accepted seek, in milliseconds on the caller's clock.
    pub last_seek_at_ms: u64,
    /// Target of the last accepted seek, in milliseconds.
    pub last_target_ms: Option<u64>,
}

/// Whether a seek at `now_ms` to `target_ms` is acted on.
pub open spec fn seek_accepted(g: SeekLimiter, now_ms: u64, target_ms: u64) -> bool {
    &&& now_ms >= g.last_seek_at_ms + SEEK_COOLDOWN_MS
    &&& match g.last_target_ms {
        Some(p) => abs_diff(target_ms, p) >= SEEK_POSITION_THRESHOLD_MS,
        None => true,
    }
}

impl SeekLimiter {
    /// A limiter created at `now_ms`, with no seek yet.
    pub fn new(now_ms: u64) -> (r: Self)
        ensures
            r.last_seek_at_ms == now_ms,
            r.last_target_ms is None,
    {
        SeekLimiter { last_seek_at_ms: now_ms, last_target_ms: None }
    }

    /// Whether to act on a seek to `target_ms` requested at `now_ms`: not
    /// within `SEEK_COOLDOWN_MS` of the last accepted one, nor within
    /// `SEEK_POSITION_THRESHOLD_MS` of its target. An accepted seek becomes
    /// the last one.
    pub fn accept(&mut self, now_ms: u64, target_ms: u64) -> (r: bool)
        ensures
            r == seek_accepted(*old(self), now_ms, target_ms),
            *final(self) == (if r {
                SeekLimiter { last_seek_at_ms: now_ms, last_target_ms: Some(target_ms) }
            } else {
                *old(self)
            }),
    {
        if now_ms < self.last_seek_at_ms || now_ms - self.last_seek_at_ms < SEEK_COOLDOWN_MS {
            return false;
        }
        match self.last_target_ms {
            Some(p) => {
                let d = if target_ms >= p { target_ms - p } else { p - target_ms };
                if d < SEEK_POSITION_THRESHOLD_MS {
                    return false;
                }
            },
            None => {},
        }
        self.last_seek_at_ms = now_ms;
        self.last_target_ms = Some(target_ms);
        true
    }
}

/// How a seek is carried out.
#[derive(Debug, Clone, Copy, PartialEq, Eq, Structural)]
pub enum SeekPath {
    /// Decoding has finished: start the track again at the target.
    Restart,
    /// Flush handshake with the running decoder and callback.
    Handshake,
    /// Nothing to move: only publish progress at the target.
    PublishOnly,
}

pub open spec fn seek_path_for(decoding_complete: Option<bool>, has_track: bool, position_ms: u64, target_ms: u64) -> SeekPath {
    let complete = match decoding_complete { Some(c) => c, None => true };
    if complete && has_track {
        SeekPath::Restart
    } else if !complete && position_ms == 0 && target_ms == 0 {
        SeekPath::PublishOnly
    } else {
        SeekPath::Handshake
    }
}

/// The path of an accepted seek. `decoding_complete` is the session's flag
/// (`None` without a session, which counts as complete); `has_track` tells
/// whether a track is loaded. Seeking to the start of a session that has
/// not moved only publishes progress.
pub fn seek_path(decoding_complete: Option<bool>, has_track: bool, position_ms: u64, target_ms: u64) -> (r: SeekPath)
    ensures
        r == seek_path_for(decoding_complete, has_track, position_ms, target_ms),
{
    let complete = match decoding_complete {
        Some(c) => c,
        None => true,
    };
    if complete && has_track {
        SeekPath::Restart
    } else if !complete && position_ms == 0 && target_ms == 0 {
        SeekPath::PublishOnly
    } else {
        SeekPath::Handshake
    }
}

/// The seek position the coordinator writes: the target in source-rate
/// samples over all channels.
pub fn seek_target_samples(target_ms: u64, source_rate: u32, channels: u16) -> (r: u64)
    ensures
        r as nat == min_nat(samples_in_ms(target_ms as nat, source_rate as nat, channels as nat), u64::MAX as nat),
{
    samples_for_ms(target_ms, source_rate, channels)
}

/// The position published once a seek completes: the target itself within
/// the track, and 0.999 of the track's length for a target beyond its end.
pub open spec fn seek_progress(target_ms: u64, duration_ms: u64) -> nat {
    if target_ms <= duration_ms {
        target_ms as nat
    } else {
        duration_ms as nat * 999 / 1000
    }
}

pub fn seek_progress_ms(target_ms: u64, duration_ms: u64) -> (r: u64)
    ensures
        r as nat == seek_progress(target_ms, duration_ms),
{
    if target_ms <= duration_ms {
        return target_ms;
    }
    let cap: u64 = duration_ms / 1000 * 999 + duration_ms % 1000 * 999 / 1000;
    proof {
        let d = duration_ms as nat;
        assert(d == (d / 1000) * 1000 + d % 1000) by (nonlinear_arith);
        assert(d * 999 == (d / 1000) * 999 * 1000 + (d % 1000) * 999) by (nonlinear_arith)
            requires d == (d / 1000) * 1000 + d % 1000;
        assert(d * 999 / 1000 == (d / 1000) * 999 + (d % 1000) * 999 / 1000) by (nonlinear_arith)
            requires d * 999 == (d / 1000) * 999 * 1000 + (d % 1000) * 999;
    }
    cap
}

/// A seek within the track publishes its own target, the end included; a
/// seek beyond the end publishes 0.999 of the track's length, which lies
/// within the track.
pub proof fn lemma_seek_progress_clamped(target_ms: u64, duration_ms: u64)
    ensures
        target_ms <= duration_ms ==> seek_progress(target_ms, duration_ms) == target_ms as nat,
        target_ms > duration_ms ==> seek_progress(target_ms, duration_ms) == duration_ms as nat * 999 / 1000,
        seek_progress(target_ms, duration_ms) <= duration_ms as nat || seek_progress(target_ms, duration_ms) == target_ms as nat,
{
    assert(duration_ms as nat * 999 / 1000 <= duration_ms as nat) by (nonlinear_arith);
}

/// A seek to the start of a fresh session that is still decoding moves
/// nothing, and progress is published at zero.
pub proof fn lemma_seek_to_start_of_fresh_session(has_track: bool, duration_ms: u64)
    ensures
        seek_path_for(Some(false), has_track, 0, 0) == SeekPath::PublishOnly,
        seek_progress(0, duration_ms) == 0,
{
}

/// What to do with a request to preload the next track.
#[derive(Debug, Clone, Copy, PartialEq, Eq, Structural)]
pub enum PreloadPlan {
    /// Gapless playback is off.
    Ignore,
    /// Decode the next track from its start, resampled to `target_rate`
    /// when that is `Some`.
    Start { target_rate: Option<u32> },
}

/// The next track is decoded at the running stream's rate (its own rate
/// when no stream runs), so that the callback's format does not change on
/// the swap.
pub fn preload_plan(gapless_enabled: bool, stream_rate: Option<u32>, source_rate: u32) -> (r: PreloadPlan)
    ensures
        !gapless_enabled ==> r == PreloadPlan::Ignore,
        gapless_enabled ==> r == (PreloadPlan::Start {
            target_rate: match stream_rate {
                Some(s) => if s != source_rate { Some(s) } else { None },
                None => None,
            },
        }),
{
    if !gapless_enabled {
        return PreloadPlan::Ignore;
    }
    let target_rate = match stream_rate {
        Some(s) => if s != source_rate {
            Some(s)
        } else {
            None
        },
        None => None,
    };
    PreloadPlan::Start { target_rate }
}

/// Playback state shown to the user.
#[derive(Debug, Clone, Copy, PartialEq, Eq, Structural)]
pub struct PlaybackState {
    pub is_playing: bool,
    pub is_paused: bool,
    /// Output rate of the session, in Hz.
    pub sample_rate: u64,
    pub channels: u64,
    /// Track length in milliseconds.
    pub duration: u64,
    /// Position in milliseconds.
    pub position: u64,
    /// Volume, as the bits of an `f32` in [0, 1].
    pub volume: u64,
    pub is_seeking: bool,
}

impl PlaybackState {
    /// Stopped, at 44.1 kHz stereo, full volume.
    pub fn new() -> (r: Self)
        ensures
            !r.is_playing && !r.is_paused && !r.is_seeking,
            r.sample_rate == 44100,
            r.channels == 2,
            r.duration == 0,
            r.position == 0,
            r.volume == UNIT_VOLUME_BITS,
    {
        PlaybackState {
            is_playing: false,
            is_paused: false,
            sample_rate: 44100,
            channels: 2,
            duration: 0,
            position: 0,
            volume: UNIT_VOLUME_BITS,
            is_seeking: false,
        }
    }

    pub fn set_position_ms(&mut self, ms: u64)
        ensures
            *final(self) == (PlaybackState { position: ms, ..*old(self) }),
    {
        self.position = ms;
    }

    pub fn set_duration_ms(&mut self, ms: u64)
        ensures
            *final(self) == (PlaybackState { duration: ms, ..*old(self) }),
    {
        self.duration = ms;
    }

    /// Whether audio is playing: started and not paused.
    pub fn is_audible(&self) -> (r: bool)
        ensures
            r == (self.is_playing && !self.is_paused),
    {
        self.is_playing && !self.is_paused
    }

    /// Before a new track loads: stopped, not paused nor seeking, at zero.
    pub fn reset_for_load(&mut self)
        ensures
            *final(self) == (PlaybackState {
                is_playing: false,
                is_paused: false,
                is_seeking: false,
                position: 0,
                ..*old(self)
            }),
    {
        self.is_playing = false;
        self.is_paused = false;
        self.is_seeking = false;
        self.position = 0;
    }

    /// A session started: its format, its length and where it starts.
    pub fn session_started(&mut self, output_rate: u32, channels: usize, duration_ms: u64, start_ms: u64)
        ensures
            *final(self) == (PlaybackState {
                sample_rate: output_rate as u64,
                channels: channels as u64,
                duration: duration_ms,
                position: start_ms,
                ..*old(self)
            }),
    {
        self.sample_rate = output_rate as u64;
        self.channels = channels as u64;
        self.duration = duration_ms;
        self.position = start_ms;
    }

    /// The stream started playing.
    pub fn playing(&mut self)
        ensures
            *final(self) == (PlaybackState { is_playing: true, is_paused: false, ..*old(self) }),
    {
        self.is_playing = true;
        self.is_paused = false;
    }

    pub fn set_paused(&mut self, paused: bool)
        ensures
            *final(self) == (PlaybackState { is_paused: paused, ..*old(self) }),
    {
        self.is_paused = paused;
    }

    pub fn set_seeking(&mut self, seeking: bool)
        ensures
            *final(self) == (PlaybackState { is_seeking: seeking, ..*old(self) }),
    {
        self.is_seeking = seeking;
    }

    /// Playback stopped: not playing nor paused, at zero.
    pub fn stopped(&mut self)
        ensures
            *final(self) == (PlaybackState { is_playing: false, is_paused: false, position: 0, ..*old(self) }),
    {
        self.is_playing = false;
        self.is_paused = false;
        self.position = 0;
    }
}

/// Kind of a failure published to the listener.
#[derive(Debug, Clone, Copy, PartialEq, Eq, Structural)]
pub enum PlaybackErrorCode {
    FileNotFound,
    FileProbeFailed,
    DecodeFailed,
    StreamCreateFailed,
    StreamStartFailed,
    SeekFailed,
    DeviceSwitchFailed,
    ExclusiveModeFailed,
}

/// The stable text of each code.
pub open spec fn code_text(c: PlaybackErrorCode) -> Seq<char> {
    match c {
        PlaybackErrorCode::FileNotFound => "file_not_found"@,
        PlaybackErrorCode::FileProbeFailed => "file_probe_failed"@,
        PlaybackErrorCode::DecodeFailed => "decode_failed"@,
        PlaybackErrorCode::StreamCreateFailed => "stream_create_failed"@,
        PlaybackErrorCode::StreamStartFailed => "stream_start_failed"@,
        PlaybackErrorCode::SeekFailed => "seek_failed"@,
        PlaybackErrorCode::DeviceSwitchFailed => "device_switch_failed"@,
        PlaybackErrorCode::ExclusiveModeFailed => "exclusive_mode_failed"@,
    }
}

impl PlaybackErrorCode {
    pub fn code(&self) -> (r: String)
        ensures
            r@ == code_text(*self),
    {
        match self {
            PlaybackErrorCode::FileNotFound => String::from_str("file_not_found"),
            PlaybackErrorCode::FileProbeFailed => String::from_str("file_probe_failed"),
            PlaybackErrorCode::DecodeFailed => String::from_str("decode_failed"),
            PlaybackErrorCode::StreamCreateFailed => String::from_str("stream_create_failed"),
            PlaybackErrorCode::StreamStartFailed => String::from_str("stream_start_failed"),
            PlaybackErrorCode::SeekFailed => String::from_str("seek_failed"),
            PlaybackErrorCode::DeviceSwitchFailed => String::from_str("device_switch_failed"),
            PlaybackErrorCode::ExclusiveModeFailed => String::from_str("exclusive_mode_failed"),
        }
    }
}

} // verus!
