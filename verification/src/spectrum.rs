use vstd::prelude::*;

verus! {

/// The analyzed channel: every second sample of the snapshot, starting at
/// offset 0.
pub open spec fn spec_channel_a(s: Seq<i16>) -> Seq<i16> {
    Seq::new((s.len() + 1) / 2, |j: int| s[2 * j])
}

/// The block the spectrum view analyzes: nothing when fewer than
/// `min_samples` channel samples are available, else the first `fft_len`
/// channel samples.
pub open spec fn spec_spectrum_block(s: Seq<i16>, min_samples: nat, fft_len: nat) -> Option<
    Seq<i16>,
> {
    let chan = spec_channel_a(s);
    if chan.len() < min_samples {
        None
    } else {
        Some(chan.take(fft_len as int))
    }
}

/// Selects the fixed-size block of channel samples that the spectrum view
/// analyzes: every second sample starting at offset 0, the first
/// `fft_len` of them. Returns `None` exactly when fewer than
/// `min_samples` channel samples are available — a silent no-render
/// frame, not an error. What follows (windowing, the Fourier transform
/// and the pixel mapping) works in floating point and stays with the
/// caller.
pub fn spectrum_block(samples: &Vec<i16>, min_samples: usize, fft_len: usize) -> (r: Option<
    Vec<i16>,
>)
    requires
        fft_len <= min_samples,
    ensures
        r is Some <==> spec_channel_a(samples@).len() >= min_samples,
        r matches Some(block) ==> block@ == spec_channel_a(samples@).take(fft_len as int),
        r matches Some(block) ==> block@.len() == fft_len,
{
    let total: usize = samples.len();
    let chan_len: usize = total / 2 + total % 2;
    assert(chan_len as nat == spec_channel_a(samples@).len());
    if chan_len < min_samples {
        return None;
    }
    let mut block: Vec<i16> = Vec::new();
    let mut j: usize = 0;
    while j < fft_len
        invariant
            j <= fft_len,
            fft_len <= chan_len,
            chan_len as nat == (samples@.len() + 1) / 2,
            samples@.len() <= usize::MAX,
            block@.len() == j,
            forall|k: int| 0 <= k < j ==> block@[k] == samples@[2 * k],
        decreases fft_len - j,
    {
        block.push(samples[2 * j]);
        j = j + 1;
    }
    proof {
        assert(block@ =~= spec_channel_a(samples@).take(fft_len as int));
    }
    Some(block)
}

/// Law: spectrum preparation depends on the samples alone — equal
/// snapshots yield equal analysis blocks, whatever else differs between
/// two frames.
pub proof fn lemma_spectrum_deterministic(
    s1: Seq<i16>,
    s2: Seq<i16>,
    min_samples: nat,
    fft_len: nat,
)
    requires
        s1 == s2,
    ensures
        spec_spectrum_block(s1, min_samples, fft_len) == spec_spectrum_block(
            s2,
            min_samples,
            fft_len,
        ),
{
}

} // verus!
