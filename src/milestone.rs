//! The review lifecycle of one milestone, up to the approval that
//! authorizes the release of its amount.
use vstd::prelude::*;

use crate::error::{after, status, BountyError, Stage, Transition};
use crate::types::{Balance, IpfsReference, VoteID};

verus! {

/// Review lifecycle of one milestone.
#[derive(PartialEq, Eq, Structural, Clone, Copy, Debug)]
pub enum MilestoneStatus {
    SubmittedAwaitingResponse,
    SubmittedReviewStarted(VoteID),
    ChangesRequestedAwaitingChanges(VoteID),
    /// Terminal: the treasury may release the milestone's amount.
    ApprovedAndTransferEnabled,
}

/// Position of a review status in the lifecycle order; `None` is a
/// freshly filed milestone.
pub open spec fn review_rank(review: Option<MilestoneStatus>) -> nat {
    match review {
        None => 0,
        Some(MilestoneStatus::SubmittedAwaitingResponse) => 1,
        Some(MilestoneStatus::SubmittedReviewStarted(_)) => 2,
        Some(MilestoneStatus::ChangesRequestedAwaitingChanges(_)) => 3,
        Some(MilestoneStatus::ApprovedAndTransferEnabled) => 4,
    }
}

pub open spec fn review_stage(review: Option<MilestoneStatus>) -> Stage {
    match review {
        None => Stage::MilestoneFiled,
        Some(MilestoneStatus::SubmittedAwaitingResponse) => Stage::MilestoneSubmittedAwaitingResponse,
        Some(MilestoneStatus::SubmittedReviewStarted(_)) => Stage::MilestoneReviewStarted,
        Some(MilestoneStatus::ChangesRequestedAwaitingChanges(_)) => Stage::MilestoneChangesRequested,
        Some(MilestoneStatus::ApprovedAndTransferEnabled) => Stage::MilestoneApprovedAndTransferEnabled,
    }
}

/// Whether `review` is the terminal, funds-releasing status.
pub open spec fn is_transfer_enabled(review: Option<MilestoneStatus>) -> bool {
    review == Some(MilestoneStatus::ApprovedAndTransferEnabled)
}

/// One step of the milestone lifecycle: the transitions that the operations
/// of `MilestoneSubmission` may perform.
pub open spec fn milestone_step(from: Option<MilestoneStatus>, to: Option<MilestoneStatus>) -> bool {
    match (from, to) {
        (None, Some(MilestoneStatus::SubmittedReviewStarted(_))) => true,
        (
            Some(MilestoneStatus::SubmittedReviewStarted(_)),
            Some(MilestoneStatus::ChangesRequestedAwaitingChanges(_)),
        ) => true,
        (
            Some(MilestoneStatus::SubmittedReviewStarted(_)),
            Some(MilestoneStatus::ApprovedAndTransferEnabled),
        ) => true,
        (
            Some(MilestoneStatus::ChangesRequestedAwaitingChanges(_)),
            Some(MilestoneStatus::ApprovedAndTransferEnabled),
        ) => true,
        _ => false,
    }
}

/// The refusal of `attempted` under review status `review`.
pub open spec fn review_refused(attempted: Transition, review: Option<MilestoneStatus>) -> Result<
    Option<MilestoneStatus>,
    BountyError,
> {
    Err(BountyError::InvalidTransition { attempted, actual: review_stage(review) })
}

/// `start_milestone_review`: only a freshly filed milestone.
pub open spec fn start_milestone_review_next(
    review: Option<MilestoneStatus>,
    vote_id: VoteID,
) -> Result<Option<MilestoneStatus>, BountyError> {
    match review {
        None => Ok(Some(MilestoneStatus::SubmittedReviewStarted(vote_id))),
        _ => review_refused(Transition::StartMilestoneReview, review),
    }
}

/// Asking for changes: accepted only from `SubmittedReviewStarted`.
pub open spec fn request_changes_next(review: Option<MilestoneStatus>, vote_id: VoteID) -> Result<
    Option<MilestoneStatus>,
    BountyError,
> {
    match review {
        Some(MilestoneStatus::SubmittedReviewStarted(_)) => Ok(
            Some(MilestoneStatus::ChangesRequestedAwaitingChanges(vote_id)),
        ),
        _ => review_refused(Transition::RequestChanges, review),
    }
}

/// `approve_transfer`: only once a review has started, whether it is still
/// running or has asked for changes.
pub open spec fn approve_transfer_next(review: Option<MilestoneStatus>) -> Result<
    Option<MilestoneStatus>,
    BountyError,
> {
    match review {
        Some(MilestoneStatus::SubmittedReviewStarted(_)) => Ok(
            Some(MilestoneStatus::ApprovedAndTransferEnabled),
        ),
        Some(MilestoneStatus::ChangesRequestedAwaitingChanges(_)) => Ok(
            Some(MilestoneStatus::ApprovedAndTransferEnabled),
        ),
        _ => review_refused(Transition::ApproveTransfer, review),
    }
}

/// One unit of delivered work, reviewed before its amount is released.
#[derive(PartialEq, Eq, Structural, Clone, Copy, Debug)]
pub struct MilestoneSubmission {
    submission: IpfsReference,
    amount: Balance,
    review: Option<MilestoneStatus>,
}

impl MilestoneSubmission {
    pub closed spec fn spec_submission(self) -> IpfsReference {
        self.submission
    }

    pub closed spec fn spec_amount(self) -> Balance {
        self.amount
    }

    pub closed spec fn spec_review(self) -> Option<MilestoneStatus> {
        self.review
    }

    /// `self` is the milestone `before`, whatever the review status of either.
    pub open spec fn same_work(self, before: MilestoneSubmission) -> bool {
        self.spec_submission() == before.spec_submission() && self.spec_amount()
            == before.spec_amount()
    }

    /// A freshly filed milestone: no review yet.
    pub fn new(submission: IpfsReference, amount: Balance) -> (r: MilestoneSubmission)
        ensures
            r.spec_submission() == submission,
            r.spec_amount() == amount,
            r.spec_review() == None::<MilestoneStatus>,
    {
        MilestoneSubmission { submission, amount, review: None }
    }

    pub fn submission(&self) -> (r: IpfsReference)
        ensures
            r == self.spec_submission(),
    {
        self.submission
    }

    pub fn amount(&self) -> (r: Balance)
        ensures
            r == self.spec_amount(),
    {
        self.amount
    }

    pub fn review(&self) -> (r: Option<MilestoneStatus>)
        ensures
            r == self.spec_review(),
    {
        self.review
    }

    fn refuse(&self, attempted: Transition) -> (r: Result<(), BountyError>)
        ensures
            r == status(review_refused(attempted, self.spec_review())),
    {
        let actual = match self.review {
            None => Stage::MilestoneFiled,
            Some(MilestoneStatus::SubmittedAwaitingResponse) => Stage::MilestoneSubmittedAwaitingResponse,
            Some(MilestoneStatus::SubmittedReviewStarted(_)) => Stage::MilestoneReviewStarted,
            Some(MilestoneStatus::ChangesRequestedAwaitingChanges(_)) => Stage::MilestoneChangesRequested,
            Some(MilestoneStatus::ApprovedAndTransferEnabled) => Stage::MilestoneApprovedAndTransferEnabled,
        };
        Err(BountyError::InvalidTransition { attempted, actual })
    }

    /// Opens the supervisors' review under `vote_id`.
    pub fn start_milestone_review(&mut self, vote_id: VoteID) -> (r: Result<(), BountyError>)
        ensures
            final(self).same_work(*old(self)),
            r == status(start_milestone_review_next(old(self).spec_review(), vote_id)),
            final(self).spec_review() == after(
                old(self).spec_review(),
                start_milestone_review_next(old(self).spec_review(), vote_id),
            ),
    {
        match self.review {
            None => {
                self.review = Some(MilestoneStatus::SubmittedReviewStarted(vote_id));
                Ok(())
            },
            _ => self.refuse(Transition::StartMilestoneReview),
        }
    }

    /// The review asks for changes, recorded under `vote_id`.
    pub fn request_changes(&mut self, vote_id: VoteID) -> (r: Result<(), BountyError>)
        ensures
            final(self).same_work(*old(self)),
            r == status(request_changes_next(old(self).spec_review(), vote_id)),
            final(self).spec_review() == after(
                old(self).spec_review(),
                request_changes_next(old(self).spec_review(), vote_id),
            ),
    {
        match self.review {
            Some(MilestoneStatus::SubmittedReviewStarted(_)) => {
                self.review = Some(MilestoneStatus::ChangesRequestedAwaitingChanges(vote_id));
                Ok(())
            },
            _ => self.refuse(Transition::RequestChanges),
        }
    }

    /// Approves the milestone: the single point at which the release of its
    /// amount is authorized.
    pub fn approve_transfer(&mut self) -> (r: Result<(), BountyError>)
        ensures
            final(self).same_work(*old(self)),
            r == status(approve_transfer_next(old(self).spec_review())),
            final(self).spec_review() == after(
                old(self).spec_review(),
                approve_transfer_next(old(self).spec_review()),
            ),
    {
        match self.review {
            Some(MilestoneStatus::SubmittedReviewStarted(_))
            | Some(MilestoneStatus::ChangesRequestedAwaitingChanges(_)) => {
                self.review = Some(MilestoneStatus::ApprovedAndTransferEnabled);
                Ok(())
            },
            _ => self.refuse(Transition::ApproveTransfer),
        }
    }
}

} // verus!
