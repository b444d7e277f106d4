//! A streaming session: what is known of the track, the sizes derived from
//! it, and the flags that decoder, render callback and coordinator share.

use vstd::prelude::*;
use vstd::string::StringExecFns;
use crate::error::{decimal, u32_text};

verus! {

/// Seconds of audio the ring buffer holds.
pub const RING_BUFFER_SECONDS: usize = 5;

/// Share of the ring, in percent, decoded before playback may start.
pub const PRE_ROLL_PERCENT: usize = 10;

/// Audio decoded after a seek, in milliseconds, before the callback plays again.
pub const SEEK_PREFILL_MS: u64 = 300;

/// Bounds of a plausible source sample rate: above the first, at most the second.
pub const MIN_PLAUSIBLE_RATE: u32 = 8000;
pub const MAX_PLAUSIBLE_RATE: u32 = 384000;

/// Bit depth assumed when the codec does not say.
pub const DEFAULT_BIT_DEPTH: u8 = 24;

/// What is known of a track for one session.
#[derive(Debug, Clone, Copy, PartialEq, Eq, Structural)]
pub struct AudioInfo {
    /// Rate of the file, in Hz.
    pub sample_rate: u32,
    /// Rate delivered to the device, in Hz.
    pub output_sample_rate: u32,
    pub channels: usize,
    /// Frames of the file, at its own rate.
    pub total_frames: u64,
    pub bit_depth: u8,
    /// Whether the samples are converted to another rate (not bit-perfect).
    pub is_resampled: bool,
}

pub open spec fn ms_of(frames: nat, rate: nat) -> nat {
    if rate == 0 { 0 } else { frames * 1000 / rate }
}

impl AudioInfo {
    /// Length of the track in milliseconds, rounded down (at most `u64::MAX`).
    pub fn duration_ms(&self) -> (r: u64)
        ensures
            r as nat == min_nat(ms_of(self.total_frames as nat, self.sample_rate as nat), u64::MAX as nat),
    {
        if self.sample_rate == 0 {
            return 0;
        }
        let q: u128 = (self.total_frames as u128) * 1000 / (self.sample_rate as u128);
        if q > u64::MAX as u128 {
            u64::MAX
        } else {
            q as u64
        }
    }
}

pub open spec fn min_nat(a: nat, b: nat) -> nat {
    if a <= b { a } else { b }
}

/// Samples (all channels) in `ms` milliseconds of audio, rounded down.
pub open spec fn samples_in_ms(ms: nat, rate: nat, channels: nat) -> nat {
    ms * rate * channels / 1000
}

/// The samples in `ms` milliseconds at `rate` Hz over `channels` channels,
/// rounded down (at most `u64::MAX`).
pub fn samples_for_ms(ms: u64, rate: u32, channels: u16) -> (r: u64)
    ensures
        r as nat == min_nat(samples_in_ms(ms as nat, rate as nat, channels as nat), u64::MAX as nat),
{
    proof {
        assert(ms as nat * rate as nat <= 0xffff_ffff_ffff_ffff_ffff_ffff_ffff as nat) by (nonlinear_arith)
            requires ms <= 0xffff_ffff_ffff_ffffu64, rate <= 0xffff_ffffu32;
    }
    let a: u128 = (ms as u128) * (rate as u128);
    proof {
        assert(a as nat * channels as nat <= 0xffff_ffff_ffff_ffff_ffff_ffff_ffff as nat) by (nonlinear_arith)
            requires a as nat == ms as nat * rate as nat, ms <= 0xffff_ffff_ffff_ffffu64, rate <= 0xffff_ffffu32, channels <= 0xffffu16;
    }
    let q: u128 = a * (channels as u128) / 1000;
    if q > u64::MAX as u128 {
        u64::MAX
    } else {
        q as u64
    }
}

/// A probed source rate is plausible above 8 kHz and up to 384 kHz.
pub open spec fn plausible_rate(rate: u32) -> bool {
    MIN_PLAUSIBLE_RATE < rate && rate <= MAX_PLAUSIBLE_RATE
}

/// Whether a probed source rate is plausible.
pub fn is_plausible_rate(rate: u32) -> (r: bool)
    ensures
        r == plausible_rate(rate),
{
    MIN_PLAUSIBLE_RATE < rate && rate <= MAX_PLAUSIBLE_RATE
}

impl AudioInfo {
    /// Whether the rates are non-zero and the channel count is one to `u16::MAX`.
    pub open spec fn wf(&self) -> bool {
        &&& self.sample_rate > 0
        &&& self.output_sample_rate > 0
        &&& 1 <= self.channels <= 0xffff
    }

    /// Track information read from a codec's parameters. None when the rate
    /// is unknown or the bit depth is unknown or zero (as a byte).
    pub fn from_codec_params(
        sample_rate: Option<u32>,
        channels: Option<usize>,
        n_frames: Option<u64>,
        bits_per_sample: Option<u32>,
    ) -> (r: Option<AudioInfo>)
        ensures
            r is Some <==> (sample_rate is Some && bits_per_sample is Some
                && bits_per_sample->0 as u8 != 0),
            r matches Some(info) ==> {
                &&& info.sample_rate == sample_rate->0
                &&& info.output_sample_rate == sample_rate->0
                &&& info.channels == (match channels { Some(c) => c, None => 2 })
                &&& info.total_frames == (match n_frames { Some(n) => n, None => 0 })
                &&& info.bit_depth == bits_per_sample->0 as u8
                &&& !info.is_resampled
            },
    {
        let rate = match sample_rate {
            Some(r) => r,
            None => {
                return None;
            },
        };
        let bit_depth: u8 = match bits_per_sample {
            Some(b) => b as u8,
            None => 0,
        };
        if bit_depth == 0 {
            return None;
        }
        Some(AudioInfo {
            sample_rate: rate,
            output_sample_rate: rate,
            channels: match channels {
                Some(c) => c,
                None => 2,
            },
            total_frames: match n_frames {
                Some(n) => n,
                None => 0,
            },
            bit_depth,
            is_resampled: false,
        })
    }

    /// Track information read from a file's tag properties; the frame count
    /// follows from the duration. Fails when the rate is unknown.
    pub fn from_tag_properties(
        sample_rate: Option<u32>,
        bit_depth: Option<u8>,
        channels: Option<u8>,
        duration_ms: u64,
    ) -> (r: Result<AudioInfo, String>)
        ensures
            r is Ok <==> (sample_rate is Some && plausible_rate(sample_rate->0)),
            r matches Ok(info) ==> {
                &&& info.sample_rate == sample_rate->0
                &&& info.output_sample_rate == sample_rate->0
                &&& info.channels == (match channels { Some(c) => c as usize, None => 2 })
                &&& info.bit_depth == (match bit_depth { Some(b) => b, None => DEFAULT_BIT_DEPTH })
                &&& info.total_frames as nat == min_nat(duration_ms as nat * sample_rate->0 as nat / 1000, u64::MAX as nat)
                &&& !info.is_resampled
            },
            r matches Err(m) ==> m@ == (match sample_rate {
                None => "Could not determine sample rate from file"@,
                Some(rate) => "Implausible sample rate: "@ + decimal(rate as nat) + " Hz"@,
            }),
    {
        let rate = match sample_rate {
            Some(r) => r,
            None => {
                return Err(String::from_str("Could not determine sample rate from file"));
            },
        };
        if !is_plausible_rate(rate) {
            let digits = u32_text(rate);
            return Err(String::from_str("Implausible sample rate: ").concat(digits.as_str()).concat(" Hz"));
        }
        proof {
            assert(duration_ms as nat * rate as nat <= 0xffff_ffff_ffff_ffff_ffff_ffff_ffff as nat) by (nonlinear_arith)
                requires duration_ms <= 0xffff_ffff_ffff_ffffu64, rate <= 0xffff_ffffu32;
        }
        let frames: u128 = (duration_ms as u128) * (rate as u128) / 1000;
        let total_frames: u64 = if frames > u64::MAX as u128 { u64::MAX } else { frames as u64 };
        Ok(AudioInfo {
            sample_rate: rate,
            output_sample_rate: rate,
            channels: match channels {
                Some(c) => c as usize,
                None => 2,
            },
            total_frames,
            bit_depth: match bit_depth {
                Some(b) => b,
                None => DEFAULT_BIT_DEPTH,
            },
            is_resampled: false,
        })
    }
}

impl AudioInfo {
    /// Information for a session that plays a track of `source_rate` Hz at
    /// `target_rate` (the source rate itself when `None`).
    pub fn for_session(
        source_rate: u32,
        target_rate: Option<u32>,
        channels: Option<usize>,
        n_frames: Option<u64>,
        bits_per_sample: Option<u32>,
    ) -> (r: AudioInfo)
        ensures
            r.sample_rate == source_rate,
            r.output_sample_rate == (match target_rate { Some(t) => t, None => source_rate }),
            r.is_resampled == (r.output_sample_rate != source_rate),
            r.channels == (match channels { Some(c) => c, None => 2 }),
            r.total_frames == (match n_frames { Some(n) => n, None => 0 }),
            r.bit_depth == (match bits_per_sample { Some(b) => b as u8, None => DEFAULT_BIT_DEPTH }),
    {
        let output_sample_rate = match target_rate {
            Some(t) => t,
            None => source_rate,
        };
        AudioInfo {
            sample_rate: source_rate,
            output_sample_rate,
            channels: match channels {
                Some(c) => c,
                None => 2,
            },
            total_frames: match n_frames {
                Some(n) => n,
                None => 0,
            },
            bit_depth: match bits_per_sample {
                Some(b) => b as u8,
                None => DEFAULT_BIT_DEPTH,
            },
            is_resampled: output_sample_rate != source_rate,
        }
    }

    /// Frames of the track at the output rate, rounded down (at most `u64::MAX`).
    pub fn output_frames(&self) -> (r: u64)
        requires
            self.wf(),
        ensures
            r as nat == min_nat(
                self.total_frames as nat * self.output_sample_rate as nat / self.sample_rate as nat,
                u64::MAX as nat,
            ),
    {
        proof {
            assert(self.total_frames as nat * self.output_sample_rate as nat <= 0xffff_ffff_ffff_ffff_ffff_ffff_ffff as nat) by (nonlinear_arith)
                requires self.total_frames <= 0xffff_ffff_ffff_ffffu64, self.output_sample_rate <= 0xffff_ffffu32;
        }
        let q: u128 = (self.total_frames as u128) * (self.output_sample_rate as u128) / (self.sample_rate as u128);
        if q > u64::MAX as u128 { u64::MAX } else { q as u64 }
    }

    /// Samples (all channels) of the track at the output rate (at most `u64::MAX`).
    pub fn duration_samples(&self) -> (r: u64)
        requires
            self.wf(),
        ensures
            r as nat == min_nat(
                min_nat(
                    self.total_frames as nat * self.output_sample_rate as nat / self.sample_rate as nat,
                    u64::MAX as nat,
                ) * self.channels as nat,
                u64::MAX as nat,
            ),
    {
        let frames = self.output_frames();
        proof {
            assert(frames as nat * self.channels as nat <= 0xffff_ffff_ffff_ffff_ffff_ffff_ffff as nat) by (nonlinear_arith)
                requires frames <= 0xffff_ffff_ffff_ffffu64, self.channels <= 0xffff;
        }
        let q: u128 = (frames as u128) * (self.channels as u128);
        if q > u64::MAX as u128 { u64::MAX } else { q as u64 }
    }
}

/// Samples the ring holds: `RING_BUFFER_SECONDS` of audio at `rate` Hz.
pub fn ring_capacity(rate: u32, channels: usize) -> (r: usize)
    requires
        RING_BUFFER_SECONDS * rate * channels <= usize::MAX,
    ensures
        r == RING_BUFFER_SECONDS * rate * channels,
{
    proof {
        assert(RING_BUFFER_SECONDS * rate <= RING_BUFFER_SECONDS * rate * channels || channels == 0) by (nonlinear_arith);
    }
    if channels == 0 {
        return 0;
    }
    RING_BUFFER_SECONDS * (rate as usize) * channels
}

/// Samples decoded before playback may start: `PRE_ROLL_PERCENT` of the ring.
pub fn pre_roll_samples(ring_capacity: usize) -> (r: usize)
    ensures
        r == ring_capacity * PRE_ROLL_PERCENT / 100,
{
    let r = ring_capacity / 10;
    assert(ring_capacity * 10 / 100 == ring_capacity / 10) by (nonlinear_arith);
    r
}

/// Samples decoded after a seek before the callback plays again.
pub fn seek_prefill_samples(rate: u32, channels: u16) -> (r: u64)
    ensures
        r as nat == min_nat(samples_in_ms(SEEK_PREFILL_MS as nat, rate as nat, channels as nat), u64::MAX as nat),
{
    samples_for_ms(SEEK_PREFILL_MS, rate, channels)
}

/// State shared by the decoder, the render callback and the coordinator of
/// one session.
///
/// Seek handshake: the coordinator raises `seeking`; the decoder raises
/// `flush_buffer`; the callback drains the ring, lowers `flush_buffer` and
/// raises `flush_complete`; the decoder repositions and lowers `seeking` once
/// enough audio follows the new position.
#[derive(Debug, Clone, Copy)]
pub struct StreamingState {
    /// Set once, by the decoder, at end of file or on stop.
    pub decoding_complete: bool,
    /// Samples written to the ring since the decoder started.
    pub total_decoded: u64,
    /// Playback position in samples at the output rate.
    pub playback_position: u64,
    /// Position that a seek moves to, in samples.
    pub seek_position: u64,
    pub seeking: bool,
    pub flush_buffer: bool,
    pub flush_complete: bool,
    /// Samples written since the last seek.
    pub samples_since_seek: u64,
    pub info: AudioInfo,
    pub ring_capacity: usize,
}

impl StreamingState {
    /// A flush is only ever pending during a seek, so `seeking` is never
    /// lowered while `flush_buffer` is raised.
    pub open spec fn handshake_ok(&self) -> bool {
        self.flush_buffer ==> self.seeking
    }

    /// Whether `handshake_ok` holds.
    pub fn is_handshake_consistent(&self) -> (r: bool)
        ensures
            r == self.handshake_ok(),
    {
        !self.flush_buffer || self.seeking
    }

    pub fn new(info: AudioInfo, ring_capacity: usize) -> (r: Self)
        ensures
            r.info == info,
            r.ring_capacity == ring_capacity,
            !r.decoding_complete && !r.seeking && !r.flush_buffer && !r.flush_complete,
            r.total_decoded == 0 && r.playback_position == 0 && r.seek_position == 0,
            r.samples_since_seek == 0,
            r.handshake_ok(),
    {
        StreamingState {
            decoding_complete: false,
            total_decoded: 0,
            playback_position: 0,
            seek_position: 0,
            seeking: false,
            flush_buffer: false,
            flush_complete: false,
            samples_since_seek: 0,
            info,
            ring_capacity,
        }
    }

    pub fn set_position_samples(&mut self, samples: u64)
        ensures
            *final(self) == session_step(*old(self), SessionEvent::SetPosition(samples)),
    {
        self.playback_position = samples;
    }

    pub fn position_samples(&self) -> (r: u64)
        ensures
            r == self.playback_position,
    {
        self.playback_position
    }

    /// Coordinator side of a seek: record the target and raise `seeking`,
    /// with both flush flags lowered and the pre-fill meter at zero.
    pub fn begin_seek(&mut self, target_samples: u64)
        ensures
            *final(self) == session_step(*old(self), SessionEvent::BeginSeek(target_samples)),
            final(self).handshake_ok(),
    {
        self.seek_position = target_samples;
        self.seeking = true;
        self.flush_buffer = false;
        self.flush_complete = false;
        self.samples_since_seek = 0;
    }

    /// Decoder side, on a seek command: ask the callback to drain the ring.
    pub fn request_flush(&mut self)
        ensures
            *final(self) == session_step(*old(self), SessionEvent::RequestFlush),
            final(self).handshake_ok(),
    {
        self.flush_buffer = true;
        self.seeking = true;
    }

    /// Callback side: the ring has been drained.
    pub fn acknowledge_flush(&mut self)
        requires
            old(self).handshake_ok(),
        ensures
            *final(self) == session_step(*old(self), SessionEvent::AcknowledgeFlush),
            final(self).handshake_ok(),
    {
        self.flush_buffer = false;
        self.flush_complete = true;
    }

    /// Decoder side: the format reader moved to `position` (output samples);
    /// the pre-fill count starts again.
    pub fn reposition(&mut self, position: u64)
        requires
            old(self).handshake_ok(),
        ensures
            *final(self) == session_step(*old(self), SessionEvent::Reposition(position)),
            final(self).handshake_ok(),
    {
        self.seek_position = position;
        self.samples_since_seek = 0;
    }

    /// Decoder side: the format reader could not seek; playback goes on
    /// where it is.
    pub fn abandon_seek(&mut self)
        ensures
            *final(self) == session_step(*old(self), SessionEvent::AbandonSeek),
            final(self).handshake_ok(),
    {
        self.seeking = false;
        self.flush_buffer = false;
    }

    /// Decoder side: no more samples will be written for this session.
    pub fn mark_complete(&mut self)
        requires
            old(self).handshake_ok(),
        ensures
            *final(self) == session_step(*old(self), SessionEvent::MarkComplete),
            final(self).handshake_ok(),
    {
        self.decoding_complete = true;
    }
}

/// Whether a probe result is present with a plausible rate.
pub open spec fn usable_probe(primary: Option<AudioInfo>) -> bool {
    match primary {
        Some(info) => plausible_rate(info.sample_rate),
        None => false,
    }
}

/// Whether the codec's probe result is unusable, so that the file's tag
/// properties must be read instead: absent, or of an implausible rate.
pub fn needs_fallback_probe(primary: &Option<AudioInfo>) -> (r: bool)
    ensures
        r == !usable_probe(*primary),
{
    match primary {
        Some(info) => !is_plausible_rate(info.sample_rate),
        None => true,
    }
}

/// The probe result of a file: the codec's when usable, else the one from
/// the tag properties (`fallback`, read only when `needs_fallback_probe`
/// says so). Whatever succeeds has a plausible rate.
pub fn choose_probe(primary: Option<AudioInfo>, fallback: Result<AudioInfo, String>) -> (r: Result<AudioInfo, String>)
    ensures
        usable_probe(primary) ==> r == Ok::<AudioInfo, String>(primary->0),
        !usable_probe(primary) ==> match fallback {
            Ok(f) => if plausible_rate(f.sample_rate) {
                r == Ok::<AudioInfo, String>(f)
            } else {
                r matches Err(m) && m@ == "Implausible sample rate: "@ + decimal(f.sample_rate as nat) + " Hz"@
            },
            Err(e) => r == Err::<AudioInfo, String>(e),
        },
        r matches Ok(info) ==> plausible_rate(info.sample_rate),
{
    if let Some(info) = primary {
        if is_plausible_rate(info.sample_rate) {
            return Ok(info);
        }
    }
    match fallback {
        Ok(f) => {
            if is_plausible_rate(f.sample_rate) {
                Ok(f)
            } else {
                let digits = u32_text(f.sample_rate);
                Err(String::from_str("Implausible sample rate: ").concat(digits.as_str()).concat(" Hz"))
            }
        },
        Err(e) => Err(e),
    }
}

/// A change of the shared session state, by whichever side makes it.
#[derive(Debug, Clone, Copy, PartialEq, Eq, Structural)]
pub enum SessionEvent {
    BeginSeek(u64),
    RequestFlush,
    AcknowledgeFlush,
    Reposition(u64),
    AbandonSeek,
    MarkComplete,
    SetPosition(u64),
}

/// The state after `ev`, as the methods of `StreamingState` make it.
pub open spec fn session_step(s: StreamingState, ev: SessionEvent) -> StreamingState {
    match ev {
        SessionEvent::BeginSeek(t) => StreamingState {
            seek_position: t,
            seeking: true,
            flush_buffer: false,
            flush_complete: false,
            samples_since_seek: 0,
            ..s
        },
        SessionEvent::RequestFlush => StreamingState { flush_buffer: true, seeking: true, ..s },
        SessionEvent::AcknowledgeFlush => StreamingState { flush_buffer: false, flush_complete: true, ..s },
        SessionEvent::Reposition(p) => StreamingState { seek_position: p, samples_since_seek: 0, ..s },
        SessionEvent::AbandonSeek => StreamingState { seeking: false, flush_buffer: false, ..s },
        SessionEvent::MarkComplete => StreamingState { decoding_complete: true, ..s },
        SessionEvent::SetPosition(p) => StreamingState { playback_position: p, ..s },
    }
}

/// Once the decoder has published completion, no change of the session
/// withdraws it, so the decoder, which writes only before completion (see
/// `DecoderProgress::record_written`), never writes again. Every change also
/// keeps a pending flush inside a seek.
pub proof fn lemma_completion_is_final(s: StreamingState, ev: SessionEvent)
    ensures
        s.decoding_complete ==> session_step(s, ev).decoding_complete,
        s.handshake_ok() ==> session_step(s, ev).handshake_ok(),
{
}

} // verus!
