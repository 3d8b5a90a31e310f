//! Interpretation of a bounded-time existence probe. The probe itself runs
//! the filesystem check on a second thread and races it against a timer;
//! this module fixes what each outcome means for the run: only a check that
//! completed in time and found the path counts as existing, everything else
//! is skipped (default-deny under uncertainty).

use vstd::prelude::*;

verus! {

/// What a bounded-time existence check reported.
#[derive(Clone, Copy, Debug, PartialEq, Eq, Structural)]
pub enum ProbeOutcome {
    /// The check finished in time and said whether the path exists.
    Completed(bool),
    /// The check finished in time but failed with an error.
    CheckError,
    /// The check did not finish within the timeout.
    TimedOut,
}

/// A path counts as present only when the check completed and found it.
pub open spec fn probe_found(o: ProbeOutcome) -> bool {
    o == ProbeOutcome::Completed(true)
}

/// Decides whether a probed path is treated as existing. A timed-out or
/// failed check never is: uncertainty maps to "does not exist".
pub fn path_present_after_probe(o: &ProbeOutcome) -> (r: bool)
    ensures
        r == probe_found(*o),
{
    match o {
        ProbeOutcome::Completed(e) => *e,
        ProbeOutcome::CheckError => false,
        ProbeOutcome::TimedOut => false,
    }
}

/// Why a probed path is left out of the overlay, kept apart so the warning
/// can distinguish a timeout from a failed check.
#[derive(Clone, Copy, Debug, PartialEq, Eq, Structural)]
pub enum SkipReason {
    ProbeTimedOut,
    ProbeFailed,
    NotPresent,
}

/// The reason a probed path is skipped, or nothing when it is kept.
pub fn skip_reason(o: &ProbeOutcome) -> (r: Option<SkipReason>)
    ensures
        r is None <==> probe_found(*o),
        *o == ProbeOutcome::Completed(false) ==> r == Some(SkipReason::NotPresent),
        *o is TimedOut ==> r == Some(SkipReason::ProbeTimedOut),
        *o is CheckError ==> r == Some(SkipReason::ProbeFailed),
{
    match o {
        ProbeOutcome::Completed(true) => None,
        ProbeOutcome::Completed(false) => Some(SkipReason::NotPresent),
        ProbeOutcome::TimedOut => Some(SkipReason::ProbeTimedOut),
        ProbeOutcome::CheckError => Some(SkipReason::ProbeFailed),
    }
}

} // verus!
