//! The course of an ioctl on the NPU card once it has been routed: which
//! outside step comes next, and what the ioctl returns, given the outcome of
//! each step.
//!
//! A generic request copies its argument in, runs on the kernel-side copy,
//! makes the user copies the request asked for one after the other, and
//! copies the argument back out. Each step is taken only after the ones
//! before it succeeded. A driver-specific request is answered by the NPU
//! service.

use vstd::prelude::*;
use crate::error::{map_service_error, service_to_vfs, DevError, ServiceError};

verus! {

/// The outside step a generic request waits on.
#[derive(Debug, Clone, Copy, PartialEq, Eq, Structural)]
pub enum GenericPhase {
    /// The argument is being copied in from user memory.
    CopyIn,
    /// The request is running on the kernel-side copy.
    Run,
    /// User copy number `next` of `total` is being made.
    CopyOut { next: usize, total: usize },
    /// The argument is being copied back to user memory.
    CopyBack,
}

/// The outcome of the step a generic request waited on.
#[derive(Debug, Clone, Copy, PartialEq, Eq)]
pub enum GenericEvent {
    /// The argument copy-in ended.
    CopiedIn(Result<(), DevError>),
    /// The request ran: it asks for this many user copies, or failed.
    Ran(Result<usize, DevError>),
    /// A user copy succeeded (`true`) or failed (`false`).
    CopiedOut(bool),
    /// The argument copy-back ended.
    CopiedBack(Result<(), DevError>),
}

/// What a generic request does next.
#[derive(Debug, Clone, Copy, PartialEq, Eq)]
pub enum GenericAction {
    /// Run the request on the kernel-side copy.
    Run,
    /// Make user copy number `index` of `total`.
    CopyOut { index: usize, total: usize },
    /// Copy the argument back to user memory.
    CopyBack,
    /// The ioctl is over and returns this.
    Finish(Result<usize, DevError>),
}

/// `event` is the outcome of the step `phase` waits on.
pub open spec fn event_fits(phase: GenericPhase, event: GenericEvent) -> bool {
    match (phase, event) {
        (GenericPhase::CopyIn, GenericEvent::CopiedIn(_)) => true,
        (GenericPhase::Run, GenericEvent::Ran(_)) => true,
        (GenericPhase::CopyOut { next, total }, GenericEvent::CopiedOut(_)) => next < total,
        (GenericPhase::CopyBack, GenericEvent::CopiedBack(_)) => true,
        _ => false,
    }
}

/// The next action of a generic request in `phase` after `event`: an
/// outside error ends the ioctl with that error, a failed user copy ends it
/// with invalid data, and it succeeds with 0 once the argument is copied
/// back.
pub open spec fn spec_generic_step(phase: GenericPhase, event: GenericEvent) -> GenericAction {
    match event {
        GenericEvent::CopiedIn(Err(e)) => GenericAction::Finish(Err(e)),
        GenericEvent::CopiedIn(Ok(_)) => GenericAction::Run,
        GenericEvent::Ran(Err(e)) => GenericAction::Finish(Err(e)),
        GenericEvent::Ran(Ok(n)) => if n > 0 {
            GenericAction::CopyOut { index: 0, total: n }
        } else {
            GenericAction::CopyBack
        },
        GenericEvent::CopiedOut(false) => GenericAction::Finish(Err(DevError::InvalidData)),
        GenericEvent::CopiedOut(true) => match phase {
            GenericPhase::CopyOut { next, total } => if next + 1 < total {
                GenericAction::CopyOut { index: (next + 1) as usize, total }
            } else {
                GenericAction::CopyBack
            },
            _ => GenericAction::CopyBack,
        },
        GenericEvent::CopiedBack(Err(e)) => GenericAction::Finish(Err(e)),
        GenericEvent::CopiedBack(Ok(_)) => GenericAction::Finish(Ok(0)),
    }
}

/// The phase a generic request is in after `action`; none once it is over.
pub open spec fn spec_phase_after(action: GenericAction) -> Option<GenericPhase> {
    match action {
        GenericAction::Run => Some(GenericPhase::Run),
        GenericAction::CopyOut { index, total } => Some(GenericPhase::CopyOut { next: index, total }),
        GenericAction::CopyBack => Some(GenericPhase::CopyBack),
        GenericAction::Finish(_) => None,
    }
}

/// Decides what a generic request does after the step it waited on.
pub fn generic_step(phase: GenericPhase, event: GenericEvent) -> (a: GenericAction)
    requires
        event_fits(phase, event),
    ensures
        a == spec_generic_step(phase, event),
{
    match event {
        GenericEvent::CopiedIn(Err(e)) => GenericAction::Finish(Err(e)),
        GenericEvent::CopiedIn(Ok(_)) => GenericAction::Run,
        GenericEvent::Ran(Err(e)) => GenericAction::Finish(Err(e)),
        GenericEvent::Ran(Ok(n)) => if n > 0 {
            GenericAction::CopyOut { index: 0, total: n }
        } else {
            GenericAction::CopyBack
        },
        GenericEvent::CopiedOut(false) => GenericAction::Finish(Err(DevError::InvalidData)),
        GenericEvent::CopiedOut(true) => match phase {
            GenericPhase::CopyOut { next, total } => if next + 1 < total {
                GenericAction::CopyOut { index: next + 1, total }
            } else {
                GenericAction::CopyBack
            },
            _ => GenericAction::CopyBack,
        },
        GenericEvent::CopiedBack(Err(e)) => GenericAction::Finish(Err(e)),
        GenericEvent::CopiedBack(Ok(_)) => GenericAction::Finish(Ok(0)),
    }
}

/// The phase a generic request is in after an action.
pub fn phase_after(action: GenericAction) -> (p: Option<GenericPhase>)
    ensures
        p == spec_phase_after(action),
{
    match action {
        GenericAction::Run => Some(GenericPhase::Run),
        GenericAction::CopyOut { index, total } => Some(GenericPhase::CopyOut { next: index, total }),
        GenericAction::CopyBack => Some(GenericPhase::CopyBack),
        GenericAction::Finish(_) => None,
    }
}

/// Index of the first failed user copy among the first `n`, if any.
pub open spec fn first_failure(copies: Seq<bool>, n: int) -> Option<int>
    decreases n,
{
    if n <= 0 {
        None
    } else {
        match first_failure(copies, n - 1) {
            Some(i) => Some(i),
            None => if copies[n - 1] {
                None
            } else {
                Some(n - 1)
            },
        }
    }
}

/// What a generic request returns when its argument copy-in ended with
/// `copy_in`, the request ran with `ran` (the number of user copies it asks
/// for, or its error), the user copies it asked for ended as `copies` says,
/// and the copy-back ended with `copy_back`. A step that is never taken
/// does not matter.
pub open spec fn spec_generic_result(
    copy_in: Result<(), DevError>,
    ran: Result<usize, DevError>,
    copies: Seq<bool>,
    copy_back: Result<(), DevError>,
) -> Result<usize, DevError> {
    match copy_in {
        Err(e) => Err(e),
        Ok(_) => match ran {
            Err(e) => Err(e),
            Ok(n) => if first_failure(copies, n as int) is Some {
                Err(DevError::InvalidData)
            } else {
                match copy_back {
                    Err(e) => Err(e),
                    Ok(_) => Ok(0),
                }
            },
        },
    }
}

/// The result a generic request finishes with when it steps from `phase`
/// and each step it waits on ends as `copy_in`, `ran`, `copies` (user copy
/// by index) and `copy_back` say; none if it has not finished within `fuel`
/// steps.
pub open spec fn spec_run_from(
    phase: GenericPhase,
    copy_in: Result<(), DevError>,
    ran: Result<usize, DevError>,
    copies: Seq<bool>,
    copy_back: Result<(), DevError>,
    fuel: nat,
) -> Option<Result<usize, DevError>>
    decreases fuel,
{
    if fuel == 0 {
        None
    } else {
        let event = match phase {
            GenericPhase::CopyIn => GenericEvent::CopiedIn(copy_in),
            GenericPhase::Run => GenericEvent::Ran(ran),
            GenericPhase::CopyOut { next, total } => GenericEvent::CopiedOut(copies[next as int]),
            GenericPhase::CopyBack => GenericEvent::CopiedBack(copy_back),
        };
        let action = spec_generic_step(phase, event);
        match action {
            GenericAction::Finish(r) => Some(r),
            _ => spec_run_from(
                spec_phase_after(action).unwrap(),
                copy_in,
                ran,
                copies,
                copy_back,
                (fuel - 1) as nat,
            ),
        }
    }
}

proof fn lemma_first_failure_step(copies: Seq<bool>, k: int)
    requires
        0 <= k,
        first_failure(copies, k) is None,
    ensures
        first_failure(copies, k + 1) == (if copies[k] { None::<int> } else { Some(k) }),
{
}

proof fn lemma_run_copies(
    copies: Seq<bool>,
    copy_in: Result<(), DevError>,
    ran: Result<usize, DevError>,
    copy_back: Result<(), DevError>,
    next: usize,
    total: usize,
    fuel: nat,
)
    requires
        ran == Ok::<usize, DevError>(total),
        next < total,
        copies.len() >= total,
        first_failure(copies, next as int) is None,
        fuel >= total - next + 1,
    ensures
        spec_run_from(GenericPhase::CopyOut { next, total }, copy_in, ran, copies, copy_back, fuel)
            == Some(
            if first_failure(copies, total as int) is Some {
                Err(DevError::InvalidData)
            } else {
                match copy_back {
                    Err(e) => Err(e),
                    Ok(_) => Ok::<usize, DevError>(0),
                }
            },
        ),
    decreases total - next,
{
    reveal_with_fuel(spec_run_from, 3);
    lemma_first_failure_step(copies, next as int);
    if !copies[next as int] {
        lemma_first_failure_stays(copies, next as int + 1, total as int);
    } else if next + 1 < total {
        lemma_run_copies(copies, copy_in, ran, copy_back, (next + 1) as usize, total, (fuel - 1) as nat);
    } else {
        assert(next + 1 == total);
    }
}

proof fn lemma_first_failure_stays(copies: Seq<bool>, k: int, n: int)
    requires
        0 <= k <= n,
        first_failure(copies, k) is Some,
    ensures
        first_failure(copies, n) == first_failure(copies, k),
    decreases n - k,
{
    if k < n {
        lemma_first_failure_stays(copies, k, n - 1);
    }
}

/// Run from its start with enough steps, a generic request finishes with
/// what `spec_generic_result` says: the first outside error it meets, invalid
/// data for a failed user copy, and 0 when every step succeeded.
pub proof fn lemma_generic_request_result(
    copy_in: Result<(), DevError>,
    ran: Result<usize, DevError>,
    copies: Seq<bool>,
    copy_back: Result<(), DevError>,
    fuel: nat,
)
    requires
        ran matches Ok(n) ==> fuel >= n + 3 && copies.len() >= n,
        fuel >= 3,
    ensures
        spec_run_from(GenericPhase::CopyIn, copy_in, ran, copies, copy_back, fuel) == Some(
            spec_generic_result(copy_in, ran, copies, copy_back),
        ),
{
    reveal_with_fuel(spec_run_from, 4);
    match (copy_in, ran) {
        (Ok(_), Ok(n)) => {
            if n > 0 {
                lemma_run_copies(copies, copy_in, ran, copy_back, 0, n, (fuel - 2) as nat);
            } else {
                assert(first_failure(copies, 0) is None);
            }
        },
        _ => {},
    }
}

/// What an ioctl routed to the NPU service returns, given the service's
/// answer: 0 on success, and the service's error returned through the VFS
/// otherwise.
pub open spec fn spec_driver_result(answer: Result<usize, ServiceError>) -> Result<usize, DevError> {
    match answer {
        Ok(_) => Ok(0),
        Err(e) => Err(service_to_vfs(e)),
    }
}

/// Decides what an ioctl routed to the NPU service returns.
pub fn driver_result(answer: Result<usize, ServiceError>) -> (r: Result<usize, DevError>)
    ensures
        r == spec_driver_result(answer),
        r is Ok <==> answer is Ok,
        r is Ok ==> r == Ok::<usize, DevError>(0),
{
    match answer {
        Ok(_) => Ok(0),
        Err(e) => Err(map_service_error(e)),
    }
}

/// A driver command succeeds, with 0, exactly when the service answered it;
/// a refusal by the service fails the ioctl with the matching VFS error.
pub proof fn lemma_driver_result(answer: Result<usize, ServiceError>)
    ensures
        spec_driver_result(answer) is Ok <==> answer is Ok,
        answer is Ok ==> spec_driver_result(answer) == Ok::<usize, DevError>(0),
        answer == Err::<usize, ServiceError>(ServiceError::InvalidInput) ==> spec_driver_result(answer)
            == Err::<usize, DevError>(DevError::InvalidInput),
        answer == Err::<usize, ServiceError>(ServiceError::InvalidData) ==> spec_driver_result(answer)
            == Err::<usize, DevError>(DevError::InvalidData),
        answer == Err::<usize, ServiceError>(ServiceError::NotFound) ==> spec_driver_result(answer)
            == Err::<usize, DevError>(DevError::NotFound),
        answer == Err::<usize, ServiceError>(ServiceError::Busy) ==> spec_driver_result(answer)
            == Err::<usize, DevError>(DevError::AddrInUse),
        answer == Err::<usize, ServiceError>(ServiceError::Interrupted) ==> spec_driver_result(answer)
            == Err::<usize, DevError>(DevError::Interrupted),
        answer == Err::<usize, ServiceError>(ServiceError::BadIoctl) ==> spec_driver_result(answer)
            == Err::<usize, DevError>(DevError::OperationNotSupported),
        answer == Err::<usize, ServiceError>(ServiceError::Driver) ==> spec_driver_result(answer)
            == Err::<usize, DevError>(DevError::InvalidData),
        answer == Err::<usize, ServiceError>(ServiceError::Internal) ==> spec_driver_result(answer)
            == Err::<usize, DevError>(DevError::InvalidData),
{
}

} // verus!
