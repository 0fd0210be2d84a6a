use vstd::prelude::*;

verus! {

/// The two visual representations of the sample window.
#[derive(Clone, Copy, PartialEq, Eq, Structural, Debug)]
pub enum PlotMode {
    Waveform,
    Spectrum,
}

/// How many modes the round-robin cycle runs through before repeating.
pub open spec fn mode_count() -> nat {
    2
}

/// The mode that follows `m` in the round-robin order.
pub open spec fn spec_next_mode(m: PlotMode) -> PlotMode {
    match m {
        PlotMode::Waveform => PlotMode::Spectrum,
        PlotMode::Spectrum => PlotMode::Waveform,
    }
}

/// `n` advances applied to `m`.
pub open spec fn spec_advance_n(m: PlotMode, n: nat) -> PlotMode
    decreases n,
{
    if n == 0 {
        m
    } else {
        spec_next_mode(spec_advance_n(m, (n - 1) as nat))
    }
}

/// Holds the active plot mode and advances it in round-robin order.
/// A fresh cycle starts at `Waveform`.
pub struct PlotModeCycle {
    mode: PlotMode,
}

impl PlotModeCycle {
    /// The active mode.
    pub closed spec fn spec_current(self) -> PlotMode {
        self.mode
    }

    /// A cycle starting at `Waveform`.
    pub fn new() -> (c: Self)
        ensures
            c.spec_current() == PlotMode::Waveform,
    {
        PlotModeCycle { mode: PlotMode::Waveform }
    }

    /// The active mode, without advancing.
    pub fn current(&self) -> (m: PlotMode)
        ensures
            m == self.spec_current(),
    {
        self.mode
    }

    /// Moves to the next mode, wrapping after the last.
    pub fn advance(&mut self)
        ensures
            final(self).spec_current() == spec_next_mode(old(self).spec_current()),
    {
        self.mode = match self.mode {
            PlotMode::Waveform => PlotMode::Spectrum,
            PlotMode::Spectrum => PlotMode::Waveform,
        };
    }
}

/// Law: advancing as many times as there are modes returns to the
/// starting mode, from any starting mode.
pub proof fn lemma_mode_cycle_wraps(m: PlotMode)
    ensures
        spec_advance_n(m, mode_count()) == m,
{
    reveal_with_fuel(spec_advance_n, 3);
    assert(spec_advance_n(m, 1) == spec_next_mode(m));
    assert(spec_advance_n(m, 2) == spec_next_mode(spec_next_mode(m)));
}

} // verus!
