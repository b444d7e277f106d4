//! Decisions of the real-time render callback: what to output, where
//! playback stands, when the track has ended, and when progress is published.

use vstd::prelude::*;
use crate::session::{StreamingState, samples_in_ms};

verus! {

/// Empty ring reads, after the decoder completed, that confirm the end of a track.
pub const EMPTY_CALLBACKS_THRESHOLD: u32 = 3;

/// Progress events per second of audio.
pub const PROGRESS_PER_SECOND: u32 = 30;

/// What one callback invocation does.
#[derive(Debug, Clone, Copy, PartialEq, Eq, Structural)]
pub enum CallbackMode {
    /// Output silence and change nothing.
    Silence,
    /// Drain the ring, acknowledge the flush, output silence.
    Flush,
    /// Output silence while the decoder refills after a seek.
    AwaitPrefill,
    /// Read the ring and play.
    Play,
}

/// What follows once the end of a track is confirmed.
#[derive(Debug, Clone, Copy, PartialEq, Eq, Structural)]
pub enum EndAction {
    /// Continue with the queued next track.
    GaplessSwap,
    /// Publish the end of playback and output silence from then on.
    Ended,
}

/// A gapless swap when gapless playback is on and a next track (ring and
/// state) is queued; else the end of playback.
pub open spec fn end_action_for(gapless_enabled: bool, next_queued: bool) -> EndAction {
    if gapless_enabled && next_queued { EndAction::GaplessSwap } else { EndAction::Ended }
}

/// The action at a confirmed end of track.
pub fn end_action(gapless_enabled: bool, next_queued: bool) -> (r: EndAction)
    ensures
        r == end_action_for(gapless_enabled, next_queued),
{
    if gapless_enabled && next_queued {
        EndAction::GaplessSwap
    } else {
        EndAction::Ended
    }
}

pub open spec fn min_u64(a: u64, b: u64) -> u64 {
    if a <= b { a } else { b }
}

/// Callback-owned position tracking of the current track.
#[derive(Debug, Clone, Copy, PartialEq, Eq, Structural)]
pub struct RenderTracker {
    pub channels: u16,
    pub sample_rate: u32,
    /// Length of the track in output samples.
    pub duration_samples: u64,
    /// Length of the track in milliseconds.
    pub duration_ms: u64,
    /// Frames between two progress events.
    pub emit_interval: u32,
    /// Playback position in output samples.
    pub playback_samples: u64,
    /// Frames output since the last progress event.
    pub emit_counter: u32,
    pub end_emitted: bool,
    /// Consecutive callbacks that read nothing from the ring.
    pub empty_callbacks: u32,
}

/// The position after reading `read` samples from the ring.
pub open spec fn advanced(t: RenderTracker, read: u64) -> RenderTracker {
    if read > 0 {
        RenderTracker {
            playback_samples: if t.playback_samples + read > t.duration_samples {
                t.duration_samples
            } else {
                (t.playback_samples + read) as u64
            },
            empty_callbacks: 0,
            ..t
        }
    } else {
        RenderTracker {
            empty_callbacks: if t.empty_callbacks == u32::MAX { u32::MAX } else { (t.empty_callbacks + 1) as u32 },
            ..t
        }
    }
}

/// Whether the end of the track is confirmed after a read.
pub open spec fn end_due(t: RenderTracker, decoding_complete: bool) -> bool {
    decoding_complete && t.empty_callbacks >= EMPTY_CALLBACKS_THRESHOLD && !t.end_emitted
}

/// The position, in milliseconds, that a progress event publishes: never
/// past 0.999 of the track's length.
pub open spec fn progress_position_ms(t: RenderTracker) -> nat {
    let pos = t.playback_samples as nat * 1000 / (t.channels as nat * t.sample_rate as nat);
    let cap = t.duration_ms as nat * 999 / 1000;
    if pos <= cap { pos } else { cap }
}

/// Silence while paused, stopped or ended; else a pending flush, then a
/// pending pre-fill, come before playing.
pub open spec fn callback_mode(t: RenderTracker, paused: bool, playing: bool, flush_requested: bool, seeking: bool) -> CallbackMode {
    if paused || !playing || t.end_emitted {
        CallbackMode::Silence
    } else if flush_requested {
        CallbackMode::Flush
    } else if seeking {
        CallbackMode::AwaitPrefill
    } else {
        CallbackMode::Play
    }
}

/// The tracker right after a gapless swap to a track of the given length.
pub open spec fn swapped(t: RenderTracker, duration_samples: u64, duration_ms: u64) -> RenderTracker {
    RenderTracker {
        duration_samples,
        duration_ms,
        playback_samples: 0,
        empty_callbacks: 0,
        end_emitted: false,
        emit_counter: 0,
        ..t
    }
}

impl RenderTracker {
    /// The position never passes the end of the track; the format is non-empty.
    pub open spec fn wf(&self) -> bool {
        &&& self.playback_samples <= self.duration_samples
        &&& self.channels >= 1
        &&& self.sample_rate >= 1
    }

    /// Tracking for a track of `duration_samples` output samples, starting at
    /// `start_samples` (clamped to the end).
    pub fn new(sample_rate: u32, channels: u16, duration_samples: u64, duration_ms: u64, start_samples: u64) -> (r: Self)
        requires
            sample_rate >= 1,
            channels >= 1,
        ensures
            r.wf(),
            r.sample_rate == sample_rate,
            r.channels == channels,
            r.duration_samples == duration_samples,
            r.duration_ms == duration_ms,
            r.emit_interval == sample_rate / PROGRESS_PER_SECOND,
            r.playback_samples == min_u64(start_samples, duration_samples),
            r.emit_counter == 0,
            !r.end_emitted,
            r.empty_callbacks == 0,
    {
        RenderTracker {
            channels,
            sample_rate,
            duration_samples,
            duration_ms,
            emit_interval: sample_rate / PROGRESS_PER_SECOND,
            playback_samples: if start_samples <= duration_samples { start_samples } else { duration_samples },
            emit_counter: 0,
            end_emitted: false,
            empty_callbacks: 0,
        }
    }

    /// The mode of a callback, from the stream's flags and the session's.
    pub fn mode(&self, paused: bool, playing: bool, flush_requested: bool, seeking: bool) -> (r: CallbackMode)
        ensures
            r == callback_mode(*self, paused, playing, flush_requested, seeking),
    {
        if paused || !playing || self.end_emitted {
            CallbackMode::Silence
        } else if flush_requested {
            CallbackMode::Flush
        } else if seeking {
            CallbackMode::AwaitPrefill
        } else {
            CallbackMode::Play
        }
    }

    /// The ring has been drained for a seek: acknowledge the flush and move
    /// to the seek position (clamped to the end).
    pub fn on_flushed(&mut self, state: &mut StreamingState)
        requires
            old(self).wf(),
            old(state).handshake_ok(),
        ensures
            final(self).wf(),
            *final(self) == (RenderTracker {
                playback_samples: min_u64(old(state).seek_position, old(self).duration_samples),
                empty_callbacks: 0,
                ..*old(self)
            }),
            *final(state) == (StreamingState { flush_buffer: false, flush_complete: true, ..*old(state) }),
            final(state).handshake_ok(),
    {
        state.acknowledge_flush();
        self.follow_seek(state.seek_position);
    }

    /// While the decoder refills after a seek, the position follows the seek
    /// position (clamped to the end).
    pub fn follow_seek(&mut self, seek_position: u64)
        requires
            old(self).wf(),
        ensures
            final(self).wf(),
            *final(self) == (RenderTracker {
                playback_samples: min_u64(seek_position, old(self).duration_samples),
                empty_callbacks: 0,
                ..*old(self)
            }),
    {
        self.playback_samples = if seek_position <= self.duration_samples {
            seek_position
        } else {
            self.duration_samples
        };
        self.empty_callbacks = 0;
    }

    /// `read` samples came from the ring. Returns whether the end of the
    /// track is now confirmed: the decoder completed and enough consecutive
    /// reads came back empty.
    pub fn on_read(&mut self, read: u64, decoding_complete: bool) -> (end: bool)
        requires
            old(self).wf(),
        ensures
            final(self).wf(),
            *final(self) == advanced(*old(self), read),
            end == end_due(*final(self), decoding_complete),
    {
        if read > 0 {
            self.playback_samples = if read > self.duration_samples - self.playback_samples {
                self.duration_samples
            } else {
                self.playback_samples + read
            };
            self.empty_callbacks = 0;
        } else {
            self.empty_callbacks = self.empty_callbacks.saturating_add(1);
        }
        decoding_complete && self.empty_callbacks >= EMPTY_CALLBACKS_THRESHOLD && !self.end_emitted
    }

    /// Continue with the next track: its length replaces the current one and
    /// tracking starts again from zero.
    pub fn on_gapless_swap(&mut self, duration_samples: u64, duration_ms: u64)
        requires
            old(self).wf(),
        ensures
            final(self).wf(),
            *final(self) == swapped(*old(self), duration_samples, duration_ms),
    {
        self.duration_samples = duration_samples;
        self.duration_ms = duration_ms;
        self.playback_samples = 0;
        self.empty_callbacks = 0;
        self.end_emitted = false;
        self.emit_counter = 0;
    }

    /// The track has ended with nothing queued after it.
    pub fn on_track_end(&mut self)
        requires
            old(self).wf(),
        ensures
            final(self).wf(),
            *final(self) == (RenderTracker { end_emitted: true, ..*old(self) }),
    {
        self.end_emitted = true;
    }

    /// The position a progress event publishes now, in milliseconds.
    pub fn progress_ms(&self) -> (r: u64)
        requires
            self.wf(),
        ensures
            r as nat == progress_position_ms(*self),
            r as nat <= self.duration_ms as nat * 999 / 1000,
    {
        proof {
            assert(self.channels as nat * self.sample_rate as nat <= 0xffff_ffff_ffff_ffffu64 as nat) by (nonlinear_arith)
                requires self.channels <= 0xffffu16, self.sample_rate <= 0xffff_ffffu32;
        }
        let denom: u64 = (self.channels as u64) * (self.sample_rate as u64);
        proof {
            assert(denom >= 1) by (nonlinear_arith)
                requires denom == self.channels as nat * self.sample_rate as nat, self.channels >= 1, self.sample_rate >= 1;
        }
        let pos: u128 = (self.playback_samples as u128) * 1000 / (denom as u128);
        let cap: u64 = self.duration_ms / 1000 * 999 + self.duration_ms % 1000 * 999 / 1000;
        proof {
            let d = self.duration_ms as nat;
            assert(d == (d / 1000) * 1000 + d % 1000) by (nonlinear_arith);
            assert(d * 999 == (d / 1000) * 999 * 1000 + (d % 1000) * 999) by (nonlinear_arith)
                requires d == (d / 1000) * 1000 + d % 1000;
            assert(d * 999 / 1000 == (d / 1000) * 999 + (d % 1000) * 999 / 1000) by (nonlinear_arith)
                requires d * 999 == (d / 1000) * 999 * 1000 + (d % 1000) * 999;
        }
        if pos <= cap as u128 {
            pos as u64
        } else {
            cap
        }
    }

    /// `frames` frames were output. Returns the position to publish when a
    /// progress event is due (every `emit_interval` frames).
    pub fn tick_progress(&mut self, frames: u32) -> (r: Option<u64>)
        requires
            old(self).wf(),
        ensures
            final(self).wf(),
            ({
                let counted = if old(self).emit_counter + frames > u32::MAX {
                    u32::MAX
                } else {
                    (old(self).emit_counter + frames) as u32
                };
                if counted >= old(self).emit_interval {
                    &&& *final(self) == (RenderTracker { emit_counter: 0, ..*old(self) })
                    &&& r matches Some(p) && p as nat == progress_position_ms(*old(self))
                } else {
                    &&& *final(self) == (RenderTracker { emit_counter: counted, ..*old(self) })
                    &&& r is None
                }
            }),
    {
        self.emit_counter = self.emit_counter.saturating_add(frames);
        if self.emit_counter >= self.emit_interval {
            self.emit_counter = 0;
            Some(self.progress_ms())
        } else {
            None
        }
    }
}

/// Once the decoder has completed, three callbacks in a row that read
/// nothing confirm the end of the track, from any position. With gapless
/// playback on and a next track queued, the action is then the swap, which
/// takes the next track's length and restarts tracking at zero, with no
/// end of playback declared.
pub proof fn lemma_end_confirmed_within_three_empty_reads(t: RenderTracker, next_samples: u64, next_ms: u64)
    requires
        t.wf(),
        !t.end_emitted,
    ensures
        end_due(advanced(advanced(advanced(t, 0), 0), 0), true),
        end_action_for(true, true) == EndAction::GaplessSwap,
        ({
            let s = swapped(advanced(advanced(advanced(t, 0), 0), 0), next_samples, next_ms);
            &&& s.wf()
            &&& s.playback_samples == 0 && s.empty_callbacks == 0 && s.emit_counter == 0
            &&& !s.end_emitted
            &&& s.duration_samples == next_samples && s.duration_ms == next_ms
        }),
{
}

/// Right after a gapless swap the next callback plays the new track (unless
/// paused, stopped or seeking), and two empty reads do not end it.
pub proof fn lemma_swap_plays_on(t: RenderTracker, duration_samples: u64, duration_ms: u64)
    requires
        t.wf(),
    ensures
        swapped(t, duration_samples, duration_ms).wf(),
        callback_mode(swapped(t, duration_samples, duration_ms), false, true, false, false) == CallbackMode::Play,
        !end_due(advanced(swapped(t, duration_samples, duration_ms), 0), true),
        !end_due(advanced(advanced(swapped(t, duration_samples, duration_ms), 0), 0), true),
{
}

/// Whatever the position, a published progress position is at most 0.999 of
/// the track's length.
pub proof fn lemma_progress_capped(t: RenderTracker)
    ensures
        progress_position_ms(t) <= t.duration_ms as nat * 999 / 1000,
{
}

/// Every read keeps the position within the track.
pub proof fn lemma_position_within_track(t: RenderTracker, read: u64)
    requires
        t.wf(),
    ensures
        advanced(t, read).wf(),
        advanced(t, read).playback_samples <= advanced(t, read).duration_samples,
{
}

/// After a seek to `target_ms`, with the position at that time in samples
/// (at the tracker's rate and channel count, at least 1000 samples per
/// second), the progress published is the target or one millisecond below
/// it (rounding), unless the target is in the last 0.001 of the track.
pub proof fn lemma_progress_after_seek(t: RenderTracker, target_ms: u64)
    requires
        t.wf(),
        t.channels as nat * t.sample_rate as nat >= 1000,
        t.playback_samples as nat == samples_in_ms(target_ms as nat, t.sample_rate as nat, t.channels as nat),
        target_ms as nat <= t.duration_ms as nat * 999 / 1000,
    ensures
        target_ms as nat - 1 <= progress_position_ms(t) <= target_ms as nat,
{
    let k = t.channels as nat * t.sample_rate as nat;
    let x = target_ms as nat * t.sample_rate as nat * t.channels as nat;
    let p = t.playback_samples as nat;
    assert(x == target_ms as nat * k) by (nonlinear_arith)
        requires x == target_ms as nat * t.sample_rate as nat * t.channels as nat, k == t.channels as nat * t.sample_rate as nat;
    assert(p == x / 1000);
    assert(p * 1000 <= x && x < p * 1000 + 1000) by (nonlinear_arith)
        requires p == x / 1000;
    let q = p * 1000 / k;
    assert(q <= target_ms as nat) by (nonlinear_arith)
        requires q == p * 1000 / k, p * 1000 <= target_ms as nat * k, k > 0;
    assert(q + 1 >= target_ms as nat) by (nonlinear_arith)
        requires q == p * 1000 / k, p * 1000 + 1000 > target_ms as nat * k, k >= 1000;
}

} // verus!
