//! The lifecycle of a grant application, from submission to a live grant
//! with its registered team, or to closing.
use vstd::prelude::*;

use crate::error::{after, status, BountyError, Stage, Transition};
use crate::ledger::BountyInformation;
use crate::milestone::MilestoneSubmission;
use crate::types::{Balance, IpfsReference, ShareID, TeamID, TermsOfAgreement, VoteID};

verus! {

/// Lifecycle of a grant application. Forward-only, except that every
/// non-terminal state may be closed.
#[derive(PartialEq, Eq, Structural, Clone, Copy, Debug)]
pub enum ApplicationState {
    SubmittedAwaitingResponse,
    /// Under vote by the acceptance committee.
    UnderReviewByAcceptanceCommittee(VoteID),
    /// Approved by the foundation; the team's flat share group is asked to consent.
    ApprovedByFoundationAwaitingTeamConsent(ShareID, VoteID),
    /// Approved, with the registered team doing the work.
    ApprovedAndLive(TeamID),
    Closed,
}

impl ApplicationState {
    /// Position in the lifecycle order.
    pub open spec fn rank(self) -> nat {
        match self {
            ApplicationState::SubmittedAwaitingResponse => 0,
            ApplicationState::UnderReviewByAcceptanceCommittee(_) => 1,
            ApplicationState::ApprovedByFoundationAwaitingTeamConsent(_, _) => 2,
            ApplicationState::ApprovedAndLive(_) => 3,
            ApplicationState::Closed => 4,
        }
    }

    pub open spec fn spec_stage(self) -> Stage {
        match self {
            ApplicationState::SubmittedAwaitingResponse => Stage::SubmittedAwaitingResponse,
            ApplicationState::UnderReviewByAcceptanceCommittee(_) => Stage::UnderReviewByAcceptanceCommittee,
            ApplicationState::ApprovedByFoundationAwaitingTeamConsent(_, _) => {
                Stage::ApprovedByFoundationAwaitingTeamConsent
            },
            ApplicationState::ApprovedAndLive(_) => Stage::ApprovedAndLive,
            ApplicationState::Closed => Stage::Closed,
        }
    }

    pub fn stage(&self) -> (r: Stage)
        ensures
            r == self.spec_stage(),
    {
        match self {
            ApplicationState::SubmittedAwaitingResponse => Stage::SubmittedAwaitingResponse,
            ApplicationState::UnderReviewByAcceptanceCommittee(_) => Stage::UnderReviewByAcceptanceCommittee,
            ApplicationState::ApprovedByFoundationAwaitingTeamConsent(_, _) => {
                Stage::ApprovedByFoundationAwaitingTeamConsent
            },
            ApplicationState::ApprovedAndLive(_) => Stage::ApprovedAndLive,
            ApplicationState::Closed => Stage::Closed,
        }
    }

    /// Whether the application can still be reviewed (and is not yet approved).
    pub fn live(&self) -> (r: bool)
        ensures
            r == (self is SubmittedAwaitingResponse || self is UnderReviewByAcceptanceCommittee),
    {
        match self {
            ApplicationState::SubmittedAwaitingResponse => true,
            ApplicationState::UnderReviewByAcceptanceCommittee(_) => true,
            _ => false,
        }
    }

    /// Whether the application is live with exactly `team_id` as its team.
    pub fn matches_registered_team(&self, team_id: TeamID) -> (r: bool)
        ensures
            r == (*self == ApplicationState::ApprovedAndLive(team_id)),
    {
        match self {
            ApplicationState::ApprovedAndLive(tid) => *tid == team_id,
            _ => false,
        }
    }
}

/// One step of the application lifecycle: the transitions that the
/// operations of `GrantApplication` may perform.
pub open spec fn application_step(from: ApplicationState, to: ApplicationState) -> bool {
    match (from, to) {
        (
            ApplicationState::SubmittedAwaitingResponse,
            ApplicationState::UnderReviewByAcceptanceCommittee(_),
        ) => true,
        (
            ApplicationState::UnderReviewByAcceptanceCommittee(_),
            ApplicationState::ApprovedByFoundationAwaitingTeamConsent(_, _),
        ) => true,
        (
            ApplicationState::ApprovedByFoundationAwaitingTeamConsent(_, _),
            ApplicationState::ApprovedAndLive(_),
        ) => true,
        (ApplicationState::ApprovedAndLive(_), ApplicationState::Closed) => false,
        (_, ApplicationState::Closed) => true,
        _ => false,
    }
}

/// The refusal of `attempted` in state `s`.
pub open spec fn refused(attempted: Transition, s: ApplicationState) -> Result<
    ApplicationState,
    BountyError,
> {
    Err(BountyError::InvalidTransition { attempted, actual: s.spec_stage() })
}

/// `start_review`: only a freshly submitted application goes under review.
pub open spec fn start_review_next(s: ApplicationState, vote_id: VoteID) -> Result<
    ApplicationState,
    BountyError,
> {
    match s {
        ApplicationState::SubmittedAwaitingResponse => Ok(
            ApplicationState::UnderReviewByAcceptanceCommittee(vote_id),
        ),
        _ => refused(Transition::StartReview, s),
    }
}

/// `approve_pending_team_consent`: only from review by the acceptance committee.
pub open spec fn approve_team_consent_next(
    s: ApplicationState,
    share_id: ShareID,
    vote_id: VoteID,
) -> Result<ApplicationState, BountyError> {
    match s {
        ApplicationState::UnderReviewByAcceptanceCommittee(_) => Ok(
            ApplicationState::ApprovedByFoundationAwaitingTeamConsent(share_id, vote_id),
        ),
        _ => refused(Transition::ApproveTeamConsent, s),
    }
}

/// `approve_grant` for a bounty whose foundation is `foundation`: a team of
/// another organization is a consistency error in any state; otherwise only
/// an application awaiting team consent goes live.
pub open spec fn approve_grant_next(s: ApplicationState, team_id: TeamID, foundation: u32) -> Result<
    ApplicationState,
    BountyError,
> {
    if team_id.org != foundation {
        Err(BountyError::ConsistencyError)
    } else {
        match s {
            ApplicationState::ApprovedByFoundationAwaitingTeamConsent(_, _) => Ok(
                ApplicationState::ApprovedAndLive(team_id),
            ),
            _ => refused(Transition::ApproveGrant, s),
        }
    }
}

/// `close`: every state but a live grant closes, a closed one included.
pub open spec fn close_next(s: ApplicationState) -> Result<ApplicationState, BountyError> {
    match s {
        ApplicationState::ApprovedAndLive(_) => refused(Transition::Close, s),
        _ => Ok(ApplicationState::Closed),
    }
}

/// A request for a portion of a bounty's funds.
#[derive(Clone, Debug)]
pub struct GrantApplication {
    description: IpfsReference,
    total_amount: Balance,
    terms_of_agreement: TermsOfAgreement,
    state: ApplicationState,
}

impl GrantApplication {
    pub closed spec fn spec_description(self) -> IpfsReference {
        self.description
    }

    pub closed spec fn spec_total_amount(self) -> Balance {
        self.total_amount
    }

    pub closed spec fn spec_terms(self) -> TermsOfAgreement {
        self.terms_of_agreement
    }

    pub closed spec fn spec_state(self) -> ApplicationState {
        self.state
    }

    /// `self` and `other` are the same request, whatever their states.
    pub open spec fn same_request(self, other: GrantApplication) -> bool {
        &&& self.spec_description() == other.spec_description()
        &&& self.spec_total_amount() == other.spec_total_amount()
        &&& self.spec_terms() == other.spec_terms()
    }

    /// Files an application. The caller has checked `total_amount` against
    /// the bounty's remaining capacity.
    pub fn new(
        description: IpfsReference,
        total_amount: Balance,
        terms_of_agreement: TermsOfAgreement,
    ) -> (r: GrantApplication)
        ensures
            r.spec_description() == description,
            r.spec_total_amount() == total_amount,
            r.spec_terms() == terms_of_agreement,
            r.spec_state() == ApplicationState::SubmittedAwaitingResponse,
    {
        GrantApplication {
            description,
            total_amount,
            terms_of_agreement,
            state: ApplicationState::SubmittedAwaitingResponse,
        }
    }

    pub fn state(&self) -> (r: ApplicationState)
        ensures
            r == self.spec_state(),
    {
        self.state
    }

    pub fn description(&self) -> (r: IpfsReference)
        ensures
            r == self.spec_description(),
    {
        self.description
    }

    pub fn total_amount(&self) -> (r: Balance)
        ensures
            r == self.spec_total_amount(),
    {
        self.total_amount
    }

    pub fn terms_of_agreement(&self) -> (r: &TermsOfAgreement)
        ensures
            *r == self.spec_terms(),
    {
        &self.terms_of_agreement
    }
    fn refuse(&self, attempted: Transition) -> (r: Result<(), BountyError>)
        ensures
            r == status(refused(attempted, self.spec_state())),
    {
        Err(BountyError::InvalidTransition { attempted, actual: self.state.stage() })
    }

    /// Opens the acceptance committee's review under `vote_id`.
    pub fn start_review(&mut self, vote_id: VoteID) -> (r: Result<(), BountyError>)
        ensures
            final(self).same_request(*old(self)),
            r == status(start_review_next(old(self).spec_state(), vote_id)),
            final(self).spec_state() == after(
                old(self).spec_state(),
                start_review_next(old(self).spec_state(), vote_id),
            ),
    {
        match self.state {
            ApplicationState::SubmittedAwaitingResponse => {
                self.state = ApplicationState::UnderReviewByAcceptanceCommittee(vote_id);
                Ok(())
            },
            _ => self.refuse(Transition::StartReview),
        }
    }

    /// Records the foundation's approval: the team's flat share group
    /// `share_id` is asked to consent under `vote_id`.
    pub fn approve_pending_team_consent(&mut self, share_id: ShareID, vote_id: VoteID) -> (r:
        Result<(), BountyError>)
        ensures
            final(self).same_request(*old(self)),
            r == status(approve_team_consent_next(old(self).spec_state(), share_id, vote_id)),
            final(self).spec_state() == after(
                old(self).spec_state(),
                approve_team_consent_next(old(self).spec_state(), share_id, vote_id),
            ),
    {
        match self.state {
            ApplicationState::UnderReviewByAcceptanceCommittee(_) => {
                self.state = ApplicationState::ApprovedByFoundationAwaitingTeamConsent(
                    share_id,
                    vote_id,
                );
                Ok(())
            },
            _ => self.refuse(Transition::ApproveTeamConsent),
        }
    }

    /// Makes the grant live with `team_id` as its team, which must belong to
    /// the bounty's foundation.
    pub fn approve_grant(&mut self, team_id: TeamID, bounty: &BountyInformation) -> (r: Result<
        (),
        BountyError,
    >)
        ensures
            final(self).same_request(*old(self)),
            r == status(
                approve_grant_next(old(self).spec_state(), team_id, bounty.spec_foundation()),
            ),
            final(self).spec_state() == after(
                old(self).spec_state(),
                approve_grant_next(old(self).spec_state(), team_id, bounty.spec_foundation()),
            ),
            team_id.org != bounty.spec_foundation() ==> r == Err::<(), BountyError>(
                BountyError::ConsistencyError,
            ) && *final(self) == *old(self),
    {
        if team_id.org != bounty.foundation() {
            return Err(BountyError::ConsistencyError);
        }
        match self.state {
            ApplicationState::ApprovedByFoundationAwaitingTeamConsent(_, _) => {
                self.state = ApplicationState::ApprovedAndLive(team_id);
                Ok(())
            },
            _ => self.refuse(Transition::ApproveGrant),
        }
    }

    /// Closes the application; closing a closed application is a no-op that
    /// succeeds.
    pub fn close(&mut self) -> (r: Result<(), BountyError>)
        ensures
            final(self).same_request(*old(self)),
            r == status(close_next(old(self).spec_state())),
            final(self).spec_state() == after(old(self).spec_state(), close_next(old(self).spec_state())),
    {
        match self.state {
            ApplicationState::ApprovedAndLive(_) => self.refuse(Transition::Close),
            _ => {
                self.state = ApplicationState::Closed;
                Ok(())
            },
        }
    }

    /// The acceptance committee's vote, while the application is under review.
    pub fn get_application_review_id(&self) -> (r: Option<VoteID>)
        ensures
            r == match self.spec_state() {
                ApplicationState::UnderReviewByAcceptanceCommittee(vote_id) => Some(vote_id),
                _ => None,
            },
    {
        match self.state {
            ApplicationState::UnderReviewByAcceptanceCommittee(vote_id) => Some(vote_id),
            _ => None,
        }
    }

    /// The team's flat share group, while its consent is awaited.
    pub fn get_team_flat_id(&self) -> (r: Option<ShareID>)
        ensures
            r == match self.spec_state() {
                ApplicationState::ApprovedByFoundationAwaitingTeamConsent(share_id, _) => Some(
                    share_id,
                ),
                _ => None,
            },
    {
        match self.state {
            ApplicationState::ApprovedByFoundationAwaitingTeamConsent(share_id, _) => Some(
                share_id,
            ),
            _ => None,
        }
    }

    /// The team's consent vote, while it is awaited.
    pub fn get_team_consent_id(&self) -> (r: Option<VoteID>)
        ensures
            r == match self.spec_state() {
                ApplicationState::ApprovedByFoundationAwaitingTeamConsent(_, vote_id) => Some(
                    vote_id,
                ),
                _ => None,
            },
    {
        match self.state {
            ApplicationState::ApprovedByFoundationAwaitingTeamConsent(_, vote_id) => Some(vote_id),
            _ => None,
        }
    }

    /// The registered team, once the grant is live.
    pub fn get_full_team_id(&self) -> (r: Option<TeamID>)
        ensures
            r == match self.spec_state() {
                ApplicationState::ApprovedAndLive(team_id) => Some(team_id),
                _ => None,
            },
    {
        match self.state {
            ApplicationState::ApprovedAndLive(team_id) => Some(team_id),
            _ => None,
        }
    }

    /// Files a milestone of this grant for `team_id`, which must be the
    /// team the grant went live with.
    pub fn submit_milestone(
        &self,
        team_id: TeamID,
        submission: IpfsReference,
        amount: Balance,
    ) -> (r: Result<MilestoneSubmission, BountyError>)
        ensures
            r is Ok <==> self.spec_state() == ApplicationState::ApprovedAndLive(team_id),
            r is Err ==> r == Err::<MilestoneSubmission, BountyError>(BountyError::Unauthorized),
            r matches Ok(m) ==> {
                &&& m.spec_submission() == submission
                &&& m.spec_amount() == amount
                &&& m.spec_review() is None
            },
    {
        if !self.state.matches_registered_team(team_id) {
            return Err(BountyError::Unauthorized);
        }
        Ok(MilestoneSubmission::new(submission, amount))
    }
}

} // verus!
