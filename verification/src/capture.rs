use vstd::prelude::*;

verus! {

/// One frame of the spectrum display: `values.len() / 2` bar heights of the
/// left channel followed by as many of the right channel.
pub struct SpectrumFrame {
    pub values: Vec<u8>,
}

/// The frame bytes for `output_size` bars per channel of which the first
/// `filled` carry the values of `left` and `right`; the others are zero.
pub open spec fn frame_values(left: Seq<u8>, right: Seq<u8>, filled: int, output_size: int) -> Seq<u8> {
    Seq::new(
        (2 * output_size) as nat,
        |k: int|
            if k < output_size {
                if k < filled {
                    left[k]
                } else {
                    0u8
                }
            } else {
                if k - output_size < filled {
                    right[k - output_size]
                } else {
                    0u8
                }
            },
    )
}

/// Builds the frame sent to the renderer: `output_size` bars of the left
/// channel, then `output_size` of the right; bar `i` of a channel takes that
/// channel's value `i` when `i < filled` and is zero otherwise (bins above
/// the frequency cutoff).
pub fn assemble_frame(left: &[u8], right: &[u8], filled: usize, output_size: usize) -> (f:
    SpectrumFrame)
    requires
        output_size <= usize::MAX / 2,
        filled < output_size ==> filled <= left@.len() && filled <= right@.len(),
        filled >= output_size ==> output_size <= left@.len() && output_size <= right@.len(),
    ensures
        f.values@ == frame_values(left@, right@, filled as int, output_size as int),
{
    let mut values: Vec<u8> = Vec::new();
    let mut i: usize = 0;
    while i < output_size
        invariant
            i <= output_size,
            output_size <= usize::MAX / 2,
            filled < output_size ==> filled <= left@.len(),
            filled >= output_size ==> output_size <= left@.len(),
            values@.len() == i,
            forall|k: int|
                0 <= k < i ==> #[trigger] values@[k] == if k < filled {
                    left@[k]
                } else {
                    0u8
                },
        decreases output_size - i,
    {
        if i < filled {
            values.push(left[i]);
        } else {
            values.push(0);
        }
        i = i + 1;
    }
    let mut i: usize = 0;
    while i < output_size
        invariant
            i <= output_size,
            output_size <= usize::MAX / 2,
            filled < output_size ==> filled <= right@.len(),
            filled >= output_size ==> output_size <= right@.len(),
            values@.len() == output_size + i,
            forall|k: int|
                0 <= k < output_size ==> #[trigger] values@[k] == if k < filled {
                    left@[k]
                } else {
                    0u8
                },
            forall|k: int|
                0 <= k < i ==> #[trigger] values@[output_size + k] == if k < filled {
                    right@[k]
                } else {
                    0u8
                },
        decreases output_size - i,
    {
        if i < filled {
            values.push(right[i]);
        } else {
            values.push(0);
        }
        i = i + 1;
    }
    assert(values@ =~= frame_values(left@, right@, filled as int, output_size as int)) by {
        assert forall|k: int| 0 <= k < 2 * output_size implies #[trigger] values@[k]
            == frame_values(left@, right@, filled as int, output_size as int)[k] by {
            if k >= output_size {
                assert(values@[output_size + (k - output_size)] == values@[k]);
            }
        }
    }
    SpectrumFrame { values }
}

/// The number of samples that the accumulation buffer takes from `incoming`
/// when it holds `held` of the `needed` samples.
pub open spec fn samples_taken(held: int, incoming: int, needed: int) -> int {
    if held >= needed {
        0
    } else if needed - held < incoming {
        needed - held
    } else {
        incoming
    }
}

/// Adds the captured samples `incoming` to `buf` while it holds fewer than
/// `needed`; the samples that do not fit are dropped.
pub fn append_samples<T: Copy>(buf: &mut Vec<T>, incoming: &[T], needed: usize)
    ensures
        final(buf)@ == old(buf)@ + incoming@.take(
            samples_taken(old(buf)@.len() as int, incoming@.len() as int, needed as int),
        ),
{
    let ghost start = buf@;
    let mut i: usize = 0;
    while i < incoming.len()
        invariant
            i <= incoming@.len(),
            buf@ == start + incoming@.take(samples_taken(start.len() as int, i as int, needed as int)),
        decreases incoming.len() - i,
    {
        if buf.len() < needed {
            buf.push(incoming[i]);
        }
        assert(incoming@.take(samples_taken(start.len() as int, i + 1, needed as int)) =~= if buf@.len()
            > start.len() + samples_taken(start.len() as int, i as int, needed as int) {
            incoming@.take(samples_taken(start.len() as int, i as int, needed as int)).push(incoming@[i as int])
        } else {
            incoming@.take(samples_taken(start.len() as int, i as int, needed as int))
        });
        i = i + 1;
    }
}

/// The samples of one channel: frame `i` of channel `channel` out of
/// `channels` interleaved ones, or `fill` where the buffer ends early.
pub open spec fn channel_samples<T>(samples: Seq<T>, channel: int, channels: int, frames: int, fill: T) -> Seq<T> {
    Seq::new(
        frames as nat,
        |i: int|
            if i * channels + channel < samples.len() {
                samples[i * channels + channel]
            } else {
                fill
            },
    )
}

/// Picks `frames` samples of channel `channel` out of `channels` interleaved
/// channels; positions past the end of `samples` give `fill`.
pub fn deinterleave<T: Copy>(samples: &[T], channel: usize, channels: usize, frames: usize, fill: T) -> (r: Vec<T>)
    requires
        frames > 0 ==> (frames - 1) * channels + channel <= usize::MAX,
    ensures
        r@ == channel_samples(samples@, channel as int, channels as int, frames as int, fill),
        r@.len() == frames,
        forall|i: int|
            0 <= i < frames ==> #[trigger] r@[i] == if i * channels + channel < samples@.len() {
                samples@[i * channels + channel]
            } else {
                fill
            },
{
    let mut r: Vec<T> = Vec::new();
    let mut i: usize = 0;
    while i < frames
        invariant
            i <= frames,
            frames > 0 ==> (frames - 1) * channels + channel <= usize::MAX,
            r@.len() == i,
            forall|j: int|
                0 <= j < i ==> #[trigger] r@[j] == if j * channels + channel < samples@.len() {
                    samples@[j * channels + channel]
                } else {
                    fill
                },
        decreases frames - i,
    {
        assert(i * channels <= (frames - 1) * channels) by (nonlinear_arith)
            requires
                i < frames,
        ;
        let idx = i * channels + channel;
        if idx < samples.len() {
            r.push(samples[idx]);
        } else {
            r.push(fill);
        }
        i = i + 1;
    }
    assert(r@ =~= channel_samples(samples@, channel as int, channels as int, frames as int, fill));
    r
}

/// Law: frame `i` of a channel is the sample at position
/// `i * channels + channel` of the interleaved buffer, for any number of
/// channels; past the end of the buffer it is `fill`.
pub proof fn lemma_channel_frame<T>(samples: Seq<T>, channel: nat, channels: nat, frames: nat, fill: T, i: nat)
    requires
        i < frames,
    ensures
        channel_samples(samples, channel as int, channels as int, frames as int, fill).len() == frames,
        i * channels + channel < samples.len() ==> channel_samples(
            samples,
            channel as int,
            channels as int,
            frames as int,
            fill,
        )[i as int] == samples[(i * channels + channel) as int],
        i * channels + channel >= samples.len() ==> channel_samples(
            samples,
            channel as int,
            channels as int,
            frames as int,
            fill,
        )[i as int] == fill,
{
}

/// Law: de-interleaving loses and mixes nothing. In a buffer of `frames`
/// complete frames of `channels` samples each, sample `k` is frame
/// `k / channels` of channel `k % channels`.
pub proof fn lemma_deinterleave_complete<T>(samples: Seq<T>, channels: nat, frames: nat, fill: T, k: nat)
    requires
        channels > 0,
        samples.len() == frames * channels,
        k < samples.len(),
    ensures
        k / channels < frames,
        channel_samples(samples, (k % channels) as int, channels as int, frames as int, fill)[(k
            / channels) as int] == samples[k as int],
{
    let c = k % channels;
    let f = k / channels;
    assert(f * channels + c == k) by (nonlinear_arith)
        requires
            c == k % channels,
            f == k / channels,
            channels > 0,
    ;
    assert(f < frames) by (nonlinear_arith)
        requires
            f * channels + c == k,
            k < frames * channels,
            c >= 0,
            channels > 0,
    ;
    lemma_channel_frame(samples, c, channels, frames, fill, f);
}

/// The bins `start..end` that a log-spread bar covers, from the raw bounds of
/// the spreading curve: at least one bin, never past `usable_bins`.
pub fn spread_range(raw_start: usize, raw_end: usize, usable_bins: usize) -> (r: (usize, usize))
    requires
        raw_start < usize::MAX,
    ensures
        r.0 == raw_start,
        r.1 == ({
            let widened = if raw_end > raw_start + 1 {
                raw_end as int
            } else {
                raw_start + 1
            };
            if widened < usable_bins {
                widened
            } else {
                usable_bins as int
            }
        }),
{
    let widened = if raw_end > raw_start + 1 {
        raw_end
    } else {
        raw_start + 1
    };
    let end = if widened < usable_bins {
        widened
    } else {
        usable_bins
    };
    (raw_start, end)
}

/// The bins of a spectrum of `len` bins that the range `start..end` merges:
/// `None` when the range is empty or starts past the spectrum, else the range
/// cut at the end of the spectrum.
pub fn merge_range(len: usize, start: usize, end: usize) -> (r: Option<(usize, usize)>)
    ensures
        r == (if start >= end || start >= len {
            None
        } else {
            Some((start, if end < len { end } else { len }))
        }),
{
    if start >= end || start >= len {
        None
    } else if end < len {
        Some((start, end))
    } else {
        Some((start, len))
    }
}

} // verus!
