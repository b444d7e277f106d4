//! Book-keeping of the decoder worker: where it is in the track, and when the
//! pre-roll and post-seek pre-fill thresholds are reached.

use vstd::prelude::*;
use crate::session::{StreamingState, samples_for_ms, samples_in_ms, min_nat};

verus! {

pub open spec fn sat_add(a: u64, b: u64) -> u64 {
    if a + b > u64::MAX { u64::MAX } else { (a + b) as u64 }
}

/// Counters of the decoder worker of one session.
#[derive(Debug, Clone, Copy, PartialEq, Eq, Structural)]
pub struct DecoderProgress {
    /// Samples written since the session started or since the last seek.
    pub samples_since_start: u64,
    /// Write position in the track, in output samples.
    pub file_position: u64,
    /// Samples to write before playback may start.
    pub pre_roll_samples: u64,
    /// Samples to write after a seek before playback resumes.
    pub prefill_samples: u64,
    /// Whether the pre-roll threshold has been reached.
    pub pre_roll_ready: bool,
    /// Output rate and channel count that positions are counted in.
    pub output_rate: u32,
    pub channels: u16,
}

impl DecoderProgress {
    /// Counters for a decoder that starts at the state's playback position.
    pub fn new(state: &StreamingState, pre_roll_samples: u64, prefill_samples: u64, channels: u16) -> (r: Self)
        ensures
            r.samples_since_start == 0,
            r.file_position == state.playback_position,
            r.pre_roll_samples == pre_roll_samples,
            r.prefill_samples == prefill_samples,
            !r.pre_roll_ready,
            r.output_rate == state.info.output_sample_rate,
            r.channels == channels,
    {
        DecoderProgress {
            samples_since_start: 0,
            file_position: state.playback_position,
            pre_roll_samples,
            prefill_samples,
            pre_roll_ready: false,
            output_rate: state.info.output_sample_rate,
            channels,
        }
    }

    /// The format reader has moved to `target_ms`: the write position and the
    /// shared seek position become that time in output samples, and both the
    /// pre-roll and the pre-fill counts start again.
    pub fn repositioned(&mut self, state: &mut StreamingState, target_ms: u64)
        requires
            old(state).handshake_ok(),
        ensures
            final(self).file_position as nat == min_nat(
                samples_in_ms(target_ms as nat, old(self).output_rate as nat, old(self).channels as nat),
                u64::MAX as nat,
            ),
            final(self).samples_since_start == 0,
            *final(self) == (DecoderProgress {
                file_position: final(self).file_position,
                samples_since_start: 0,
                ..*old(self)
            }),
            *final(state) == (StreamingState {
                seek_position: final(self).file_position,
                samples_since_seek: 0,
                ..*old(state)
            }),
            final(state).handshake_ok(),
    {
        let position = samples_for_ms(target_ms, self.output_rate, self.channels);
        self.file_position = position;
        self.samples_since_start = 0;
        state.reposition(position);
    }

    /// `written` samples went into the ring. Advances the counters; opens the
    /// pre-roll latch once `pre_roll_samples` are written (returning true
    /// exactly then), and lowers `seeking` only once the pre-fill after the
    /// seek is reached, never while a flush is pending. Only a decoder that has not completed
    /// writes.
    pub fn record_written(&mut self, state: &mut StreamingState, written: u64) -> (opened: bool)
        requires
            !old(state).decoding_complete,
            old(state).handshake_ok(),
        ensures
            final(self).samples_since_start == sat_add(old(self).samples_since_start, written),
            final(self).file_position == sat_add(old(self).file_position, written),
            final(state).total_decoded == final(self).file_position,
            final(state).samples_since_seek == sat_add(old(state).samples_since_seek, written),
            opened == (!old(self).pre_roll_ready
                && final(self).samples_since_start >= old(self).pre_roll_samples),
            final(self).pre_roll_ready == (old(self).pre_roll_ready || opened),
            *final(self) == (DecoderProgress {
                samples_since_start: final(self).samples_since_start,
                file_position: final(self).file_position,
                pre_roll_ready: final(self).pre_roll_ready,
                ..*old(self)
            }),
            final(state).seeking == (old(state).seeking && (old(state).flush_buffer
                || final(state).samples_since_seek < old(self).prefill_samples)),
            *final(state) == (StreamingState {
                total_decoded: final(state).total_decoded,
                samples_since_seek: final(state).samples_since_seek,
                seeking: final(state).seeking,
                ..*old(state)
            }),
            final(state).handshake_ok(),
            !final(state).decoding_complete,
    {
        self.samples_since_start = self.samples_since_start.saturating_add(written);
        self.file_position = self.file_position.saturating_add(written);
        state.total_decoded = self.file_position;
        state.samples_since_seek = state.samples_since_seek.saturating_add(written);
        let mut opened = false;
        if !self.pre_roll_ready && self.samples_since_start >= self.pre_roll_samples {
            self.pre_roll_ready = true;
            opened = true;
        }
        if state.seeking && !state.flush_buffer && state.samples_since_seek >= self.prefill_samples {
            state.seeking = false;
        }
        opened
    }
}

} // verus!
