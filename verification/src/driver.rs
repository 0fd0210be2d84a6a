use vstd::prelude::*;

use crate::decode::decode_samples;
use crate::decode::spec_decoded;
use crate::window::ring_push_all;
use crate::window::SampleWindow;

verus! {

/// What one non-blocking read of the sample source produced on a tick.
pub enum ReadOutcome {
    /// Bytes arrived; their number need not be a multiple of two.
    Data(Vec<u8>),
    /// The source had nothing available; a normal idle tick.
    NoDataYet,
    /// The producer end of the stream is closed.
    Closed,
    /// An unexpected I/O failure, carried as a message for the caller to
    /// report; the frame loop keeps running.
    Fatal(String),
}

/// The samples the window holds after a tick that saw `outcome`: arriving
/// bytes are decoded and pushed with overwrite, every other outcome leaves
/// the window untouched.
pub open spec fn spec_ingest(c: Seq<i16>, outcome: ReadOutcome, cap: nat) -> Seq<i16> {
    match outcome {
        ReadOutcome::Data(bytes) => ring_push_all(c, spec_decoded(bytes@), cap),
        ReadOutcome::NoDataYet => c,
        ReadOutcome::Closed => c,
        ReadOutcome::Fatal(_) => c,
    }
}

/// One frame tick's buffer update: decode and push newly arrived bytes;
/// on `NoDataYet`, `Closed` or `Fatal` skip the update and leave the
/// window exactly as it was. Never fails.
pub fn ingest_frame(window: &mut SampleWindow, outcome: &ReadOutcome)
    requires
        old(window).wf(),
    ensures
        final(window).wf(),
        final(window).capacity() == old(window).capacity(),
        final(window).contents() == spec_ingest(
            old(window).contents(),
            *outcome,
            old(window).capacity(),
        ),
{
    match outcome {
        ReadOutcome::Data(bytes) => {
            let samples = decode_samples(bytes.as_slice());
            window.push_overwrite(&samples);
        },
        ReadOutcome::NoDataYet => {},
        ReadOutcome::Closed => {},
        ReadOutcome::Fatal(_) => {},
    }
}

} // verus!
