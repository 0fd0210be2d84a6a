use vstd::prelude::*;

verus! {

/// One point of a waveform polyline: the de-interleaved sample that stood
/// at position `index` of the drawn prefix, with its raw amplitude. The
/// caller turns `index` into a pixel x and `amplitude` into a pixel y by
/// an affine map of its choosing (pixel coordinates are floating point
/// and stay outside this library).
#[derive(Clone, Copy, PartialEq, Eq, Structural, Debug)]
pub struct PlotPoint {
    pub index: usize,
    pub amplitude: i16,
}

/// How many samples of `s` the waveform draws: at most `limit`.
pub open spec fn spec_wave_len(s: Seq<i16>, limit: nat) -> nat {
    if s.len() <= limit {
        s.len()
    } else {
        limit
    }
}

/// The upper-band polyline: the samples at even positions of the drawn
/// prefix, in order.
pub open spec fn spec_wave_even(s: Seq<i16>, limit: nat) -> Seq<PlotPoint> {
    Seq::new(
        (spec_wave_len(s, limit) + 1) / 2,
        |j: int| (PlotPoint { index: (2 * j) as usize, amplitude: s[2 * j] }),
    )
}

/// The lower-band polyline: the samples at odd positions of the drawn
/// prefix, in order.
pub open spec fn spec_wave_odd(s: Seq<i16>, limit: nat) -> Seq<PlotPoint> {
    Seq::new(
        spec_wave_len(s, limit) / 2,
        |j: int| (PlotPoint { index: (2 * j + 1) as usize, amplitude: s[2 * j + 1] }),
    )
}

/// De-interleaves at most `max_samples` leading samples of the snapshot
/// into the two waveform polylines: even positions feed the first, odd
/// positions the second. A snapshot shorter than `max_samples` simply
/// yields shorter polylines. Within each polyline the indices (and so the
/// pixel x-coordinates any increasing map sends them to) strictly
/// increase.
pub fn plot_wave(samples: &Vec<i16>, max_samples: usize) -> (r: (Vec<PlotPoint>, Vec<PlotPoint>))
    ensures
        r.0@ == spec_wave_even(samples@, max_samples as nat),
        r.1@ == spec_wave_odd(samples@, max_samples as nat),
        r.0@.len() == (spec_wave_len(samples@, max_samples as nat) + 1) / 2,
        r.1@.len() == spec_wave_len(samples@, max_samples as nat) / 2,
        forall|j1: int, j2: int|
            0 <= j1 < j2 < r.0@.len() ==> r.0@[j1].index < r.0@[j2].index,
        forall|j1: int, j2: int|
            0 <= j1 < j2 < r.1@.len() ==> r.1@[j1].index < r.1@[j2].index,
{
    let n: usize = if samples.len() <= max_samples {
        samples.len()
    } else {
        max_samples
    };
    let mut even: Vec<PlotPoint> = Vec::new();
    let mut odd: Vec<PlotPoint> = Vec::new();
    let mut i: usize = 0;
    while i < n
        invariant
            i <= n,
            n <= samples@.len(),
            even@.len() == (i + 1) / 2,
            odd@.len() == i / 2,
            forall|j: int|
                0 <= j < even@.len() ==> even@[j] == (PlotPoint {
                    index: (2 * j) as usize,
                    amplitude: samples@[2 * j],
                }),
            forall|j: int|
                0 <= j < odd@.len() ==> odd@[j] == (PlotPoint {
                    index: (2 * j + 1) as usize,
                    amplitude: samples@[2 * j + 1],
                }),
        decreases n - i,
    {
        let p = PlotPoint { index: i, amplitude: samples[i] };
        if i % 2 == 0 {
            even.push(p);
        } else {
            odd.push(p);
        }
        i = i + 1;
    }
    proof {
        assert(even@ =~= spec_wave_even(samples@, max_samples as nat));
        assert(odd@ =~= spec_wave_odd(samples@, max_samples as nat));
    }
    (even, odd)
}

} // verus!
