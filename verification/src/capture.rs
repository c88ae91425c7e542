//! Sizing and bookkeeping of a microphone recording session.

use vstd::prelude::*;
use vstd::string::*;
use crate::text::{append_decimal, decimal};

verus! {

/// How many seconds of audio the capture ring buffer holds.
pub const RING_SECONDS: usize = 60;

/// The capacity, in samples, of the ring buffer between the audio callback
/// and the drain thread: sixty seconds of interleaved audio at the device's
/// native rate and channel count.
pub fn ring_buffer_len(sample_rate: u32, channels: u16) -> (len: usize)
    requires
        sample_rate as int * channels as int * 60 <= usize::MAX,
    ensures
        len as int == sample_rate as int * channels as int * 60,
{
    let rate = sample_rate as usize;
    let ch = channels as usize;
    assert(rate as int * ch as int <= usize::MAX) by (nonlinear_arith)
        requires
            rate as int * ch as int * 60 <= usize::MAX,
    ;
    rate * ch * RING_SECONDS
}

/// The warning printed when a recording stops, given how many samples the
/// ring buffer had to drop: none when nothing was dropped.
pub fn dropped_warning(dropped: usize) -> (warning: Option<String>)
    ensures
        dropped == 0 <==> warning is None,
        warning matches Some(w) ==> w@ == "Warning: "@ + decimal(dropped as nat)
            + " audio samples were dropped due to ring buffer overrun"@,
{
    if dropped == 0 {
        None
    } else {
        let mut w = String::from_str("Warning: ");
        append_decimal(&mut w, dropped as u64);
        w.append(" audio samples were dropped due to ring buffer overrun");
        Some(w)
    }
}

} // verus!
