//! Moving samples between interleaved and per-channel layouts, unchanged.
//! Generic over the sample type, so samples go through bit for bit.

use vstd::prelude::*;

verus! {

/// Copies the first `read` samples of `scratch` into an interleaved output
/// buffer and fills the rest of it with `silence`.
pub fn write_interleaved<T: Copy>(scratch: &[T], read: usize, out: &mut Vec<T>, silence: T)
    requires
        read <= scratch@.len(),
    ensures
        final(out)@.len() == old(out)@.len(),
        forall|i: int| 0 <= i < final(out)@.len() ==> final(out)@[i] == (if i < read { scratch@[i] } else { silence }),
{
    let n = out.len();
    let mut i: usize = 0;
    while i < n
        invariant
            n == out@.len(),
            read <= scratch@.len(),
            0 <= i <= n,
            forall|j: int| 0 <= j < i ==> out@[j] == (if j < read { scratch@[j] } else { silence }),
        decreases n - i,
    {
        if i < read {
            out.set(i, scratch[i]);
        } else {
            out.set(i, silence);
        }
        i = i + 1;
    }
}

/// Where frame `frame` of channel `ch` sits in an interleaved buffer.
pub open spec fn interleaved_index(frame: int, channels: int, ch: int) -> int {
    frame * channels + ch
}

/// Copies channel `ch` of the first `read` interleaved samples of `scratch`
/// into the per-channel buffer `out`, frame by frame; frames past what was
/// read are `silence`.
pub fn write_planar<T: Copy>(scratch: &[T], read: usize, channels: usize, ch: usize, out: &mut Vec<T>, silence: T)
    requires
        read <= scratch@.len(),
        ch < channels,
    ensures
        final(out)@.len() == old(out)@.len(),
        forall|f: int| 0 <= f < final(out)@.len() ==> final(out)@[f] == (
            if f < read / channels && interleaved_index(f, channels as int, ch as int) < read {
                scratch@[interleaved_index(f, channels as int, ch as int)]
            } else {
                silence
            }),
{
    let n = out.len();
    let frames_read = read / channels;
    let mut f: usize = 0;
    while f < n
        invariant
            n == out@.len(),
            read <= scratch@.len(),
            ch < channels,
            frames_read == read / channels,
            0 <= f <= n,
            forall|g: int| 0 <= g < f ==> out@[g] == (
                if g < read / channels && interleaved_index(g, channels as int, ch as int) < read {
                    scratch@[interleaved_index(g, channels as int, ch as int)]
                } else {
                    silence
                }),
        decreases n - f,
    {
        if f < frames_read {
            proof {
                assert(f * channels + ch < read) by (nonlinear_arith)
                    requires f < read / channels, ch < channels, channels > 0;
            }
            let idx = f * channels + ch;
            out.set(f, scratch[idx]);
        } else {
            out.set(f, silence);
        }
        f = f + 1;
    }
}

/// Interleaves the first `frames` samples of each channel's buffer:
/// frame by frame, channel by channel.
pub fn interleave_planes<T: Copy>(planes: &Vec<Vec<T>>, frames: usize) -> (r: Vec<T>)
    requires
        frames * planes@.len() <= usize::MAX,
        forall|c: int| 0 <= c < planes@.len() ==> planes@[c]@.len() >= frames,
    ensures
        r@.len() == frames * planes@.len(),
        forall|f: int, c: int|
            0 <= f < frames && 0 <= c < planes@.len() ==> #[trigger] r@[interleaved_index(f, planes@.len() as int, c)]
                == planes@[c]@[f],
{
    let channels = planes.len();
    let mut out: Vec<T> = Vec::new();
    let mut f: usize = 0;
    while f < frames
        invariant
            channels == planes@.len(),
            frames * channels <= usize::MAX,
            forall|c: int| 0 <= c < channels ==> planes@[c]@.len() >= frames,
            0 <= f <= frames,
            out@.len() == f * channels,
            forall|g: int, c: int|
                0 <= g < f && 0 <= c < channels ==> #[trigger] out@[interleaved_index(g, channels as int, c)]
                    == planes@[c]@[g],
        decreases frames - f,
    {
        let mut c: usize = 0;
        while c < channels
            invariant
                channels == planes@.len(),
                frames * channels <= usize::MAX,
                forall|k: int| 0 <= k < channels ==> planes@[k]@.len() >= frames,
                0 <= f < frames,
                0 <= c <= channels,
                out@.len() == f * channels + c,
                forall|g: int, k: int|
                    0 <= g < f && 0 <= k < channels ==> #[trigger] out@[interleaved_index(g, channels as int, k)]
                        == planes@[k]@[g],
                forall|k: int| 0 <= k < c ==> #[trigger] out@[interleaved_index(f as int, channels as int, k)] == planes@[k]@[f as int],
            decreases channels - c,
        {
            proof {
                assert(f * channels + c < frames * channels) by (nonlinear_arith)
                    requires f < frames, c < channels;
            }
            let ghost prev = out@;
            out.push(planes[c][f]);
            proof {
                assert forall|g: int, k: int|
                    0 <= g < f && 0 <= k < channels implies #[trigger] out@[interleaved_index(g, channels as int, k)]
                        == planes@[k]@[g] by {
                    assert(interleaved_index(g, channels as int, k) < f * channels) by (nonlinear_arith)
                        requires g < f, k < channels, g >= 0, k >= 0;
                    assert(out@[interleaved_index(g, channels as int, k)] == prev[interleaved_index(g, channels as int, k)]);
                }
                assert forall|k: int| 0 <= k < c + 1 implies #[trigger] out@[interleaved_index(f as int, channels as int, k)] == planes@[k]@[f as int] by {
                    if k < c {
                        assert(out@[interleaved_index(f as int, channels as int, k)] == prev[interleaved_index(f as int, channels as int, k)]);
                    }
                }
            }
            c = c + 1;
        }
        proof {
            assert(out@.len() == (f + 1) * channels) by (nonlinear_arith)
                requires out@.len() == f * channels + channels;
            assert forall|g: int, k: int|
                0 <= g < f + 1 && 0 <= k < channels implies #[trigger] out@[interleaved_index(g, channels as int, k)]
                    == planes@[k]@[g] by {
            }
        }
        f = f + 1;
    }
    out
}

/// Samples pass through unchanged: once the decoded channel buffers are
/// interleaved (`interleave_planes`) and the first `read` of them copied to
/// an interleaved output (`write_interleaved`), output sample
/// `f * channels + c` is sample `f` of channel `c`, for every sample read.
pub proof fn lemma_decoded_samples_reach_output<T>(
    planes: Seq<Seq<T>>,
    frames: int,
    interleaved: Seq<T>,
    read: int,
    out: Seq<T>,
    silence: T,
)
    requires
        interleaved.len() == frames * planes.len(),
        forall|f: int, c: int|
            0 <= f < frames && 0 <= c < planes.len() ==> #[trigger] interleaved[interleaved_index(f, planes.len() as int, c)]
                == planes[c][f],
        0 <= read <= interleaved.len(),
        forall|i: int| 0 <= i < out.len() ==> #[trigger] out[i] == (if i < read { interleaved[i] } else { silence }),
    ensures
        forall|f: int, c: int|
            0 <= f < frames && 0 <= c < planes.len() && interleaved_index(f, planes.len() as int, c) < read
                && interleaved_index(f, planes.len() as int, c) < out.len() ==> #[trigger] out[interleaved_index(f, planes.len() as int, c)]
                == planes[c][f],
{
    assert forall|f: int, c: int|
        0 <= f < frames && 0 <= c < planes.len() && interleaved_index(f, planes.len() as int, c) < read
            && interleaved_index(f, planes.len() as int, c) < out.len() implies #[trigger] out[interleaved_index(f, planes.len() as int, c)]
            == planes[c][f] by {
        let i = interleaved_index(f, planes.len() as int, c);
        assert(out[i] == interleaved[i]);
    }
}

} // verus!
