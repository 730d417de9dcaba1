use vstd::prelude::*;

verus! {

/// The kinds of failure a core operation can report.
///
/// `NotFound` is a resolved entity that is absent (an unknown chat or
/// notification key).  `Validation` is a malformed wire message.
/// `Upstream` is a failed store round trip, mapped in by the process
/// edge.  `Internal` is a violated invariant, such as a profile slice
/// without a main image.
#[derive(Clone, Copy, Debug, PartialEq, Eq, Structural)]
pub enum AppError {
    NotFound,
    Validation,
    Upstream,
    Internal,
}

} // verus!
