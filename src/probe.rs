//! Readiness probing with a bounded number of attempts.
use vstd::prelude::*;

verus! {

/// Retry policy of a readiness probe: the pause before each attempt and the
/// number of attempts before giving up.
#[derive(Clone, Copy, PartialEq, Eq, Structural, Debug)]
pub struct ProbePolicy {
    pub interval_ms: u64,
    pub max_attempts: u32,
}

/// What one readiness check reported.
#[derive(Clone, Copy, PartialEq, Eq, Structural, Debug)]
pub enum ProbeOutcome {
    Ready,
    NotReady,
    ProbeError,
}

/// What to do after one readiness check.
#[derive(Clone, Copy, PartialEq, Eq, Structural, Debug)]
pub enum ProbeVerdict {
    Ready,
    Retry,
    Exhausted,
}

impl ProbePolicy {
    /// One second between attempts, ten attempts.
    pub fn standard() -> (r: ProbePolicy)
        ensures
            r.interval_ms == 1000,
            r.max_attempts == 10,
    {
        ProbePolicy { interval_ms: 1000, max_attempts: 10 }
    }
}

/// The verdict on a check after `done` earlier failed attempts: a ready
/// service is ready; any other report is retried until `max_attempts`
/// attempts have failed.
pub open spec fn verdict(policy: ProbePolicy, done: nat, o: ProbeOutcome) -> ProbeVerdict {
    if o == ProbeOutcome::Ready {
        ProbeVerdict::Ready
    } else if done + 1 >= policy.max_attempts {
        ProbeVerdict::Exhausted
    } else {
        ProbeVerdict::Retry
    }
}

/// Judges one check after `done` failed attempts.
pub fn judge_attempt(policy: &ProbePolicy, done: u32, o: ProbeOutcome) -> (r: ProbeVerdict)
    requires
        done <= policy.max_attempts,
    ensures
        r == verdict(*policy, done as nat, o),
{
    match o {
        ProbeOutcome::Ready => ProbeVerdict::Ready,
        _ => {
            if policy.max_attempts - done <= 1 {
                ProbeVerdict::Exhausted
            } else {
                ProbeVerdict::Retry
            }
        },
    }
}

/// The outcome of a version check: an exit status that reports success means
/// ready, any other status not ready, and a check that could not run an error.
pub fn exit_probe_outcome(checked: Result<bool, String>) -> (r: ProbeOutcome)
    ensures
        checked == Ok::<bool, String>(true) ==> r == ProbeOutcome::Ready,
        checked == Ok::<bool, String>(false) ==> r == ProbeOutcome::NotReady,
        checked is Err ==> r == ProbeOutcome::ProbeError,
{
    match checked {
        Ok(true) => ProbeOutcome::Ready,
        Ok(false) => ProbeOutcome::NotReady,
        Err(_) => ProbeOutcome::ProbeError,
    }
}

/// The outcome of an HTTP liveness request: a 2xx status means ready, any
/// other status not ready, and a failed request an error.
pub fn http_probe_outcome(status: Result<u16, String>) -> (r: ProbeOutcome)
    ensures
        status is Ok ==> (r == ProbeOutcome::Ready <==> 200 <= status->Ok_0 <= 299),
        status is Ok ==> r != ProbeOutcome::ProbeError,
        status is Err ==> r == ProbeOutcome::ProbeError,
{
    match status {
        Ok(code) => if 200 <= code && code <= 299 {
            ProbeOutcome::Ready
        } else {
            ProbeOutcome::NotReady
        },
        Err(_) => ProbeOutcome::ProbeError,
    }
}

} // verus!
