//! Wall-clock timing of a piece of work.
//!
//! The monotonic clock of the standard library is the only thing in this
//! crate that is taken on trust: what is assumed of it is written out on the
//! declarations below, and nothing else in the crate depends on what the
//! clock returns.

use std::time::{Duration, Instant};
use vstd::prelude::*;

verus! {

/// `std::time::Instant`, a reading of the monotonic clock. Nothing is known
/// of a value of this type; it is only handed back to the clock.
#[verifier::external_type_specification]
#[verifier::external_body]
pub struct ExInstant(std::time::Instant);

/// `Instant::now`: the current reading of the clock. Nothing is assumed of it.
pub assume_specification[ Instant::now ]() -> Instant;

/// `Instant::elapsed`: the time that has passed since the reading was taken.
/// Nothing is assumed of it.
pub assume_specification[ Instant::elapsed ](start: &Instant) -> Duration;

/// `Duration::as_secs`: the whole seconds of the duration. Nothing is
/// assumed of the number.
pub assume_specification[ Duration::as_secs ](duration: &Duration) -> u64;

/// `Duration::subsec_nanos`: the part of the duration beyond its whole
/// seconds, in nanoseconds. Assumed: it is less than one second, as the
/// standard library documents.
pub assume_specification[ Duration::subsec_nanos ](duration: &Duration) -> (nanos: u32)
    ensures
        nanos < 1_000_000_000,
;

/// A span of time: whole seconds and the nanoseconds beyond them.
#[derive(Clone, Copy, Debug, PartialEq, Eq, Structural)]
pub struct FrameTime {
    pub secs: u64,
    pub subsec_nanos: u32,
}

impl FrameTime {
    /// The nanosecond part of a well-formed span is less than one second.
    pub open spec fn wf(self) -> bool {
        self.subsec_nanos < 1_000_000_000
    }

    /// The empty span.
    pub open spec fn zero() -> FrameTime {
        FrameTime { secs: 0, subsec_nanos: 0 }
    }
}

/// The time since `start`, whatever the clock says it is.
pub(crate) fn elapsed_since(start: &Instant) -> (elapsed: FrameTime)
    ensures
        elapsed.wf(),
{
    let duration = start.elapsed();
    FrameTime { secs: duration.as_secs(), subsec_nanos: duration.subsec_nanos() }
}

} // verus!
