use vstd::prelude::*;

verus! {

/// How many times one remote operation is attempted at most.
pub const MAX_ATTEMPTS: u32 = 3;

/// The wait, in seconds, before an operation is attempted again.
pub const RETRY_WAIT_SECONDS: u64 = 3;

/// How a remote call failed, as the storage client reports it.
#[derive(Clone, Copy, Debug, PartialEq, Eq, Structural)]
pub enum RemoteErrorKind {
    /// The request could not be dispatched (network failure).
    Dispatch,
    /// The service failed for a reason it did not classify.
    Unknown,
    /// Any other failure, such as a denial or a missing object.
    Service,
}

/// Whether a failed call is worth attempting again.
#[derive(Clone, Copy, Debug, PartialEq, Eq, Structural)]
pub enum ErrorClass {
    Transient,
    Permanent,
}

pub open spec fn classify_spec(kind: RemoteErrorKind) -> ErrorClass {
    match kind {
        RemoteErrorKind::Dispatch | RemoteErrorKind::Unknown => ErrorClass::Transient,
        RemoteErrorKind::Service => ErrorClass::Permanent,
    }
}

/// Dispatch and unclassified failures are transient, all others permanent.
pub fn classify(kind: RemoteErrorKind) -> (r: ErrorClass)
    ensures
        r == classify_spec(kind),
{
    match kind {
        RemoteErrorKind::Dispatch | RemoteErrorKind::Unknown => ErrorClass::Transient,
        RemoteErrorKind::Service => ErrorClass::Permanent,
    }
}

/// What to do after a failed attempt.
#[derive(Clone, Copy, Debug, PartialEq, Eq, Structural)]
pub enum RetryStep {
    /// Wait this long, then attempt the operation once more.
    Again { delay_secs: u64 },
    /// Report the failure.
    GiveUp,
}

/// After attempt number `attempt` failed with `class`: a transient failure
/// short of the last attempt is retried after the fixed wait; anything else
/// ends the operation.
pub open spec fn after_failure_spec(attempt: nat, class: ErrorClass) -> RetryStep {
    if class == ErrorClass::Transient && attempt < MAX_ATTEMPTS {
        RetryStep::Again { delay_secs: RETRY_WAIT_SECONDS }
    } else {
        RetryStep::GiveUp
    }
}

/// Decides what follows failed attempt number `attempt`.
pub fn after_failure(attempt: u32, class: ErrorClass) -> (r: RetryStep)
    ensures
        r == after_failure_spec(attempt as nat, class),
{
    match class {
        ErrorClass::Transient => {
            if attempt < MAX_ATTEMPTS {
                RetryStep::Again { delay_secs: RETRY_WAIT_SECONDS }
            } else {
                RetryStep::GiveUp
            }
        },
        ErrorClass::Permanent => RetryStep::GiveUp,
    }
}

/// The steps taken when attempts `attempt`, `attempt + 1`, ... fail with the
/// classes `classes[attempt - 1]`, `classes[attempt]`, ...: one step per
/// attempt made, until the policy gives up or the classes run out.
pub open spec fn failing_run(classes: Seq<ErrorClass>, attempt: nat) -> Seq<RetryStep>
    decreases classes.len() + 1 - attempt,
{
    if attempt < 1 || attempt > classes.len() {
        Seq::empty()
    } else {
        let step = after_failure_spec(attempt, classes[attempt - 1]);
        match step {
            RetryStep::GiveUp => seq![step],
            RetryStep::Again { .. } => seq![step] + failing_run(classes, attempt + 1),
        }
    }
}

/// An operation that fails transiently on every attempt is attempted exactly
/// `MAX_ATTEMPTS` times, with one fixed wait between each pair of attempts,
/// and then reported as failed.
pub proof fn lemma_transient_failures_exhaust_attempts(classes: Seq<ErrorClass>)
    requires
        classes.len() >= MAX_ATTEMPTS,
        forall|i: int| 0 <= i < classes.len() ==> classes[i] == ErrorClass::Transient,
    ensures
        failing_run(classes, 1).len() == MAX_ATTEMPTS,
        forall|i: int|
            0 <= i < MAX_ATTEMPTS - 1 ==> failing_run(classes, 1)[i] == (RetryStep::Again {
                delay_secs: RETRY_WAIT_SECONDS,
            }),
        failing_run(classes, 1).last() == RetryStep::GiveUp,
{
    let again = RetryStep::Again { delay_secs: RETRY_WAIT_SECONDS };
    assert(failing_run(classes, 3) == seq![RetryStep::GiveUp]);
    assert(failing_run(classes, 2) =~= seq![again, RetryStep::GiveUp]);
    assert(failing_run(classes, 1) =~= seq![again, again, RetryStep::GiveUp]);
}

/// An operation that fails permanently on its first attempt is attempted once.
pub proof fn lemma_permanent_failure_single_attempt(classes: Seq<ErrorClass>)
    requires
        classes.len() >= 1,
        classes[0] == ErrorClass::Permanent,
    ensures
        failing_run(classes, 1) == seq![RetryStep::GiveUp],
{
}

} // verus!
