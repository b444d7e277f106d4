//! Accumulation of interleaved samples into fixed-size chunks, as a
//! fixed-ratio resampler consumes them: one buffer per channel, a fixed
//! number of frames per chunk.

use vstd::prelude::*;
use crate::layout::interleaved_index;

verus! {

/// Interleaved samples waiting for a full chunk.
#[derive(Debug, Clone)]
pub struct PendingChunks<T> {
    pub pending: Vec<T>,
    pub channels: usize,
    /// Frames per chunk.
    pub chunk_frames: usize,
}

impl<T: Copy> PendingChunks<T> {
    /// At least one channel and one frame per chunk; a chunk's size fits `usize`.
    pub open spec fn wf(&self) -> bool {
        &&& self.channels >= 1
        &&& self.chunk_frames >= 1
        &&& self.chunk_frames * self.channels <= usize::MAX
    }

    pub open spec fn chunk_len(&self) -> nat {
        self.chunk_frames as nat * self.channels as nat
    }

    pub fn new(channels: usize, chunk_frames: usize) -> (r: Self)
        requires
            channels >= 1,
            chunk_frames >= 1,
            chunk_frames * channels <= usize::MAX,
        ensures
            r.wf(),
            r.pending@.len() == 0,
            r.channels == channels,
            r.chunk_frames == chunk_frames,
    {
        PendingChunks { pending: Vec::new(), channels, chunk_frames }
    }

    /// Samples in one chunk (all channels).
    pub fn samples_per_chunk(&self) -> (r: usize)
        requires
            self.wf(),
        ensures
            r == self.chunk_len(),
    {
        self.chunk_frames * self.channels
    }

    /// Appends interleaved samples.
    pub fn extend(&mut self, input: &[T])
        requires
            old(self).pending@.len() + input@.len() <= usize::MAX,
        ensures
            final(self).pending@ == old(self).pending@ + input@,
            final(self).channels == old(self).channels,
            final(self).chunk_frames == old(self).chunk_frames,
    {
        let mut i: usize = 0;
        let ghost start = self.pending@;
        while i < input.len()
            invariant
                0 <= i <= input@.len(),
                start.len() + input@.len() <= usize::MAX,
                self.pending@ == start + input@.subrange(0, i as int),
                self.channels == old(self).channels,
                self.chunk_frames == old(self).chunk_frames,
                start == old(self).pending@,
            decreases input@.len() - i,
        {
            self.pending.push(input[i]);
            i = i + 1;
            proof {
                assert(input@.subrange(0, i as int) == input@.subrange(0, i - 1).push(input@[i - 1]));
            }
        }
        proof {
            assert(input@.subrange(0, input@.len() as int) == input@);
        }
    }

    /// Whether a full chunk is waiting.
    pub fn has_chunk(&self) -> (r: bool)
        requires
            self.wf(),
        ensures
            r == (self.pending@.len() >= self.chunk_len()),
    {
        self.pending.len() >= self.chunk_frames * self.channels
    }

    /// Removes the oldest chunk and returns it with one buffer per channel:
    /// frame `f` of channel `c` is interleaved sample `f * channels + c`.
    pub fn take_chunk(&mut self) -> (r: Vec<Vec<T>>)
        requires
            old(self).wf(),
            old(self).pending@.len() >= old(self).chunk_len(),
        ensures
            final(self).wf(),
            final(self).channels == old(self).channels,
            final(self).chunk_frames == old(self).chunk_frames,
            final(self).pending@ == old(self).pending@.subrange(old(self).chunk_len() as int, old(self).pending@.len() as int),
            r@.len() == old(self).channels,
            forall|c: int| 0 <= c < r@.len() ==> (#[trigger] r@[c])@.len() == old(self).chunk_frames,
            forall|c: int, f: int|
                0 <= c < old(self).channels && 0 <= f < old(self).chunk_frames ==> #[trigger] r@[c]@[f]
                    == old(self).pending@[interleaved_index(f, old(self).channels as int, c)],
    {
        let channels = self.channels;
        let frames = self.chunk_frames;
        let mut planes: Vec<Vec<T>> = Vec::new();
        let mut c: usize = 0;
        while c < channels
            invariant
                self.wf(),
                self.channels == channels,
                self.chunk_frames == frames,
                self.pending@ == old(self).pending@,
                self.pending@.len() >= frames * channels,
                0 <= c <= channels,
                planes@.len() == c,
                forall|k: int| 0 <= k < c ==> (#[trigger] planes@[k])@.len() == frames,
                forall|k: int, f: int|
                    0 <= k < c && 0 <= f < frames ==> #[trigger] planes@[k]@[f]
                        == self.pending@[interleaved_index(f, channels as int, k)],
            decreases channels - c,
        {
            let mut plane: Vec<T> = Vec::new();
            let mut f: usize = 0;
            while f < frames
                invariant
                    self.pending@ == old(self).pending@,
                    self.pending@.len() >= frames * channels,
                    frames * channels <= usize::MAX,
                    c < channels,
                    0 <= f <= frames,
                    plane@.len() == f,
                    forall|g: int| 0 <= g < f ==> #[trigger] plane@[g] == self.pending@[interleaved_index(g, channels as int, c as int)],
                decreases frames - f,
            {
                proof {
                    assert(f * channels + c < frames * channels) by (nonlinear_arith)
                        requires f < frames, c < channels;
                }
                plane.push(self.pending[f * channels + c]);
                f = f + 1;
            }
            planes.push(plane);
            c = c + 1;
        }
        let mut rest = self.pending.split_off(frames * channels);
        core::mem::swap(&mut self.pending, &mut rest);
        planes
    }

    /// At end of stream: pads a non-empty remainder with `silence` up to one
    /// full chunk; an empty remainder stays empty.
    pub fn pad_to_chunk(&mut self, silence: T)
        requires
            old(self).wf(),
            old(self).pending@.len() <= old(self).chunk_len(),
        ensures
            final(self).wf(),
            final(self).channels == old(self).channels,
            final(self).chunk_frames == old(self).chunk_frames,
            old(self).pending@.len() == 0 ==> final(self).pending@.len() == 0,
            old(self).pending@.len() > 0 ==> final(self).pending@.len() == old(self).chunk_len(),
            forall|i: int| 0 <= i < final(self).pending@.len() ==> final(self).pending@[i] == (
                if i < old(self).pending@.len() { old(self).pending@[i] } else { silence }),
    {
        if self.pending.len() == 0 {
            return;
        }
        let target = self.chunk_frames * self.channels;
        while self.pending.len() < target
            invariant
                self.wf(),
                self.channels == old(self).channels,
                self.chunk_frames == old(self).chunk_frames,
                target == old(self).chunk_len(),
                old(self).pending@.len() <= self.pending@.len() <= target,
                forall|i: int| 0 <= i < self.pending@.len() ==> self.pending@[i] == (
                    if i < old(self).pending@.len() { old(self).pending@[i] } else { silence }),
            decreases target - self.pending@.len(),
        {
            self.pending.push(silence);
        }
    }
}

} // verus!
