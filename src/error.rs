//! Errors of the governance state machines and the funding ledger.
use vstd::prelude::*;

verus! {

/// The operation that was attempted when a transition was refused.
#[derive(PartialEq, Eq, Structural, Clone, Copy, Debug)]
pub enum Transition {
    StartReview,
    ApproveTeamConsent,
    ApproveGrant,
    Close,
    StartMilestoneReview,
    RequestChanges,
    ApproveTransfer,
}

/// The stage an application or milestone was in when a transition was refused.
#[derive(PartialEq, Eq, Structural, Clone, Copy, Debug)]
pub enum Stage {
    SubmittedAwaitingResponse,
    UnderReviewByAcceptanceCommittee,
    ApprovedByFoundationAwaitingTeamConsent,
    ApprovedAndLive,
    Closed,
    MilestoneFiled,
    MilestoneSubmittedAwaitingResponse,
    MilestoneReviewStarted,
    MilestoneChangesRequested,
    MilestoneApprovedAndTransferEnabled,
}

/// Errors raised by the governance state machines and the funding ledger.
#[derive(PartialEq, Eq, Structural, Clone, Copy, Debug)]
pub enum BountyError {
    /// The attempted operation does not accept the stage the record is in.
    InvalidTransition { attempted: Transition, actual: Stage },
    /// A cross-entity invariant does not hold (team/foundation mismatch,
    /// payment ledger overdrawn).
    ConsistencyError,
    /// Reserved funds are too small a share of the claimed funds.
    InsufficientCollateralization,
    /// No record is stored under the given key.
    NotFound,
    /// The caller is not allowed to perform the operation.
    Unauthorized,
    /// An outside action reported completion without its confirming event.
    EventNotFound,
}

/// The confirming event of an outside action that reported completion, or
/// `EventNotFound` when the action's events did not hold it.
pub fn confirm_event<T>(event: Option<T>) -> (r: Result<T, BountyError>)
    ensures
        r == match event {
            Some(e) => Ok(e),
            None => Err(BountyError::EventNotFound),
        },
{
    match event {
        Some(e) => Ok(e),
        None => Err(BountyError::EventNotFound),
    }
}

/// The outcome of a transition whose next state is given by `next`.
pub open spec fn status<T>(next: Result<T, BountyError>) -> Result<(), BountyError> {
    match next {
        Ok(_) => Ok(()),
        Err(e) => Err(e),
    }
}

/// The state after a transition: the next state when it was accepted,
/// `current` unchanged when it was refused.
pub open spec fn after<T>(current: T, next: Result<T, BountyError>) -> T {
    match next {
        Ok(t) => t,
        Err(_) => current,
    }
}

} // verus!
