//! The store that owns every record and applies each operation to one
//! consistent state. Keys: a bounty by `BountyId`, an application by
//! `(BountyId, ApplicationId)`, a milestone by `(ApplicationId, MilestoneId)`.
//! Records are never removed, so each id is the record's position.
use vstd::prelude::*;

use crate::application::{
    approve_grant_next, approve_team_consent_next, close_next, start_review_next,
    ApplicationState, GrantApplication,
};
use crate::error::{after, status, BountyError};
use crate::ledger::{BountyInformation, BountyPaymentTracker};
use crate::milestone::{
    approve_transfer_next, request_changes_next, start_milestone_review_next, MilestoneStatus,
    MilestoneSubmission,
};
use crate::types::{
    ApplicationId, Balance, BountyId, IpfsReference, MilestoneId, ShareID, TeamID,
    TermsOfAgreement, VoteID,
};

verus! {

/// All bounties, applications and milestones, with each bounty's payments.
#[derive(Debug)]
pub struct BountyStore {
    bounties: Vec<(BountyInformation, BountyPaymentTracker)>,
    applications: Vec<(BountyId, GrantApplication)>,
    milestones: Vec<(ApplicationId, MilestoneSubmission)>,
}

impl BountyStore {
    /// Every application belongs to a stored bounty, every milestone to a
    /// stored application.
    pub closed spec fn wf(self) -> bool {
        &&& forall|i: int|
            0 <= i < self.applications@.len() ==> (#[trigger] self.applications@[i]).0
                < self.bounties@.len()
        &&& forall|i: int|
            0 <= i < self.milestones@.len() ==> (#[trigger] self.milestones@[i]).0
                < self.applications@.len()
    }

    /// Bounty `id` with its payment ledger is entry `id`.
    pub closed spec fn spec_bounties(self) -> Seq<(BountyInformation, BountyPaymentTracker)> {
        self.bounties@
    }

    /// Application `id`, with the bounty it was filed against, is entry `id`.
    pub closed spec fn spec_applications(self) -> Seq<(BountyId, GrantApplication)> {
        self.applications@
    }

    /// Milestone `id`, with the application it was filed under, is entry `id`.
    pub closed spec fn spec_milestones(self) -> Seq<(ApplicationId, MilestoneSubmission)> {
        self.milestones@
    }

    /// Whether `(bounty_id, application_id)` names a stored application.
    pub open spec fn has_application(self, bounty_id: BountyId, application_id: ApplicationId) -> bool {
        &&& application_id < self.spec_applications().len()
        &&& self.spec_applications()[application_id as int].0 == bounty_id
    }

    /// Whether `(application_id, milestone_id)` names a stored milestone.
    pub open spec fn has_milestone(self, application_id: ApplicationId, milestone_id: MilestoneId) -> bool {
        &&& milestone_id < self.spec_milestones().len()
        &&& self.spec_milestones()[milestone_id as int].0 == application_id
    }

    pub fn new() -> (r: BountyStore)
        ensures
            r.wf(),
            r.spec_bounties().len() == 0,
            r.spec_applications().len() == 0,
            r.spec_milestones().len() == 0,
    {
        BountyStore { bounties: Vec::new(), applications: Vec::new(), milestones: Vec::new() }
    }

    /// Stores a posted bounty under the next id, with a payment ledger owing
    /// its claimed funds.
    pub fn post_bounty(&mut self, info: BountyInformation) -> (id: BountyId)
        requires
            old(self).wf(),
        ensures
            final(self).wf(),
            id == old(self).spec_bounties().len(),
            final(self).spec_bounties().len() == id + 1,
            final(self).spec_bounties().drop_last() == old(self).spec_bounties(),
            final(self).spec_bounties()[id as int].0 == info,
            final(self).spec_bounties()[id as int].1.spec_received() == 0,
            final(self).spec_bounties()[id as int].1.spec_due() == info.spec_claimed_funding_available(),
            final(self).spec_applications() == old(self).spec_applications(),
            final(self).spec_milestones() == old(self).spec_milestones(),
    {
        let id = self.bounties.len() as u64;
        let payments = BountyPaymentTracker::new(info.claimed_funding_available());
        self.bounties.push((info, payments));
        proof {
            assert(self.bounties@.drop_last() =~= old(self).bounties@);
        }
        id
    }

    /// The bounty stored under `id`.
    pub fn bounty(&self, id: BountyId) -> (r: Result<BountyInformation, BountyError>)
        ensures
            r is Ok <==> id < self.spec_bounties().len(),
            r matches Ok(info) ==> info == self.spec_bounties()[id as int].0,
            r is Err ==> r == Err::<BountyInformation, BountyError>(BountyError::NotFound),
    {
        if id >= self.bounties.len() as u64 {
            return Err(BountyError::NotFound);
        }
        Ok(self.bounties[id as usize].0)
    }

    /// The payment ledger of the bounty stored under `id`.
    pub fn payments(&self, id: BountyId) -> (r: Result<BountyPaymentTracker, BountyError>)
        ensures
            r is Ok <==> id < self.spec_bounties().len(),
            r matches Ok(t) ==> t == self.spec_bounties()[id as int].1,
            r is Err ==> r == Err::<BountyPaymentTracker, BountyError>(BountyError::NotFound),
    {
        if id >= self.bounties.len() as u64 {
            return Err(BountyError::NotFound);
        }
        Ok(self.bounties[id as usize].1)
    }

    /// The application stored under `(bounty_id, application_id)`.
    pub fn application(&self, bounty_id: BountyId, application_id: ApplicationId) -> (r: Result<
        &GrantApplication,
        BountyError,
    >)
        ensures
            r is Ok <==> self.has_application(bounty_id, application_id),
            r matches Ok(a) ==> *a == self.spec_applications()[application_id as int].1,
            r is Err ==> r == Err::<&GrantApplication, BountyError>(BountyError::NotFound),
    {
        if application_id >= self.applications.len() as u64 {
            return Err(BountyError::NotFound);
        }
        let entry = &self.applications[application_id as usize];
        if entry.0 != bounty_id {
            return Err(BountyError::NotFound);
        }
        Ok(&entry.1)
    }

    /// The milestone stored under `(application_id, milestone_id)`.
    pub fn milestone(&self, application_id: ApplicationId, milestone_id: MilestoneId) -> (r: Result<
        MilestoneSubmission,
        BountyError,
    >)
        ensures
            r is Ok <==> self.has_milestone(application_id, milestone_id),
            r matches Ok(m) ==> m == self.spec_milestones()[milestone_id as int].1,
            r is Err ==> r == Err::<MilestoneSubmission, BountyError>(BountyError::NotFound),
    {
        if milestone_id >= self.milestones.len() as u64 {
            return Err(BountyError::NotFound);
        }
        let entry = &self.milestones[milestone_id as usize];
        if entry.0 != application_id {
            return Err(BountyError::NotFound);
        }
        Ok(entry.1)
    }

    /// The ids of the applications filed against bounty `bounty_id`, in
    /// increasing order.
    pub fn applications_of(&self, bounty_id: BountyId) -> (r: Vec<ApplicationId>)
        ensures
            forall|id: ApplicationId| r@.contains(id) <==> self.has_application(bounty_id, id),
            forall|i: int, j: int| 0 <= i < j < r@.len() ==> r@[i] < r@[j],
    {
        let mut ids: Vec<ApplicationId> = Vec::new();
        let mut i: usize = 0;
        while i < self.applications.len()
            invariant
                i <= self.applications@.len(),
                forall|id: ApplicationId|
                    ids@.contains(id) <==> id < i && self.has_application(bounty_id, id),
                forall|a: int, b: int| 0 <= a < b < ids@.len() ==> ids@[a] < ids@[b],
                forall|a: int| 0 <= a < ids@.len() ==> ids@[a] < i,
            decreases self.applications@.len() - i,
        {
            let ghost prev = ids@;
            if self.applications[i].0 == bounty_id {
                ids.push(i as u64);
            }
            proof {
                assert(ids@ == prev || ids@ == prev.push(i as u64));
                assert forall|id: ApplicationId|
                    ids@.contains(id) <==> id < i + 1 && self.has_application(bounty_id, id) by {
                    if ids@ == prev.push(i as u64) {
                        if prev.contains(id) {
                            let k = choose|k: int| 0 <= k < prev.len() && prev[k] == id;
                            assert(ids@[k] == id);
                        }
                        if ids@.contains(id) && id != i as u64 {
                            let k = choose|k: int| 0 <= k < ids@.len() && ids@[k] == id;
                            assert(prev[k] == id);
                        }
                        if id == i as u64 {
                            assert(ids@[prev.len() as int] == id);
                        }
                    }
                }
            }
            i = i + 1;
        }
        ids
    }

    /// The ids of the milestones filed under application `application_id`,
    /// in increasing order.
    pub fn milestones_of(&self, application_id: MilestoneId) -> (r: Vec<MilestoneId>)
        ensures
            forall|id: MilestoneId| r@.contains(id) <==> self.has_milestone(application_id, id),
            forall|i: int, j: int| 0 <= i < j < r@.len() ==> r@[i] < r@[j],
    {
        let mut ids: Vec<MilestoneId> = Vec::new();
        let mut i: usize = 0;
        while i < self.milestones.len()
            invariant
                i <= self.milestones@.len(),
                forall|id: MilestoneId|
                    ids@.contains(id) <==> id < i && self.has_milestone(application_id, id),
                forall|a: int, b: int| 0 <= a < b < ids@.len() ==> ids@[a] < ids@[b],
                forall|a: int| 0 <= a < ids@.len() ==> ids@[a] < i,
            decreases self.milestones@.len() - i,
        {
            let ghost prev = ids@;
            if self.milestones[i].0 == application_id {
                ids.push(i as u64);
            }
            proof {
                assert(ids@ == prev || ids@ == prev.push(i as u64));
                assert forall|id: MilestoneId|
                    ids@.contains(id) <==> id < i + 1 && self.has_milestone(application_id, id) by {
                    if ids@ == prev.push(i as u64) {
                        if prev.contains(id) {
                            let k = choose|k: int| 0 <= k < prev.len() && prev[k] == id;
                            assert(ids@[k] == id);
                        }
                        if ids@.contains(id) && id != i as u64 {
                            let k = choose|k: int| 0 <= k < ids@.len() && ids@[k] == id;
                            assert(prev[k] == id);
                        }
                        if id == i as u64 {
                            assert(ids@[prev.len() as int] == id);
                        }
                    }
                }
            }
            i = i + 1;
        }
        ids
    }

    /// The state of application `id`.
    pub open spec fn application_state(self, id: ApplicationId) -> ApplicationState {
        self.spec_applications()[id as int].1.spec_state()
    }

    /// `self` is `before` with only application `id` changed, by the
    /// transition whose next state is `next`.
    pub open spec fn application_moved(
        self,
        before: BountyStore,
        id: ApplicationId,
        next: Result<ApplicationState, BountyError>,
    ) -> bool {
        let a = self.spec_applications()[id as int].1;
        &&& self.spec_applications() == before.spec_applications().update(
            id as int,
            (before.spec_applications()[id as int].0, a),
        )
        &&& a.same_request(before.spec_applications()[id as int].1)
        &&& a.spec_state() == after(before.application_state(id), next)
        &&& self.spec_bounties() == before.spec_bounties()
        &&& self.spec_milestones() == before.spec_milestones()
    }

    fn find_application(&self, bounty_id: BountyId, application_id: ApplicationId) -> (r: bool)
        ensures
            r == self.has_application(bounty_id, application_id),
            r ==> application_id < self.applications.len(),
    {
        application_id < self.applications.len() as u64
            && self.applications[application_id as usize].0 == bounty_id
    }

    /// Files an application against bounty `bounty_id` under the next id.
    /// Refused when the amount exceeds what the bounty has left to pay.
    pub fn submit_application(
        &mut self,
        bounty_id: BountyId,
        description: IpfsReference,
        total_amount: Balance,
        terms_of_agreement: TermsOfAgreement,
    ) -> (r: Result<ApplicationId, BountyError>)
        requires
            old(self).wf(),
        ensures
            final(self).wf(),
            bounty_id >= old(self).spec_bounties().len() ==> r == Err::<ApplicationId, BountyError>(
                BountyError::NotFound,
            ),
            bounty_id < old(self).spec_bounties().len() ==> {
                let ledger = old(self).spec_bounties()[bounty_id as int].1;
                (r is Ok <==> ledger.spec_received() + total_amount <= ledger.spec_due()) && (r
                    is Err ==> r == Err::<ApplicationId, BountyError>(BountyError::ConsistencyError))
            },
            r is Err ==> *final(self) == *old(self),
            r matches Ok(id) ==> {
                &&& id == old(self).spec_applications().len()
                &&& final(self).spec_applications().len() == id + 1
                &&& final(self).spec_applications().drop_last() == old(self).spec_applications()
                &&& final(self).spec_applications()[id as int].0 == bounty_id
                &&& final(self).spec_applications()[id as int].1.spec_description() == description
                &&& final(self).spec_applications()[id as int].1.spec_total_amount() == total_amount
                &&& final(self).spec_applications()[id as int].1.spec_terms() == terms_of_agreement
                &&& final(self).application_state(id) == ApplicationState::SubmittedAwaitingResponse
                &&& final(self).spec_bounties() == old(self).spec_bounties()
                &&& final(self).spec_milestones() == old(self).spec_milestones()
            },
    {
        if bounty_id >= self.bounties.len() as u64 {
            return Err(BountyError::NotFound);
        }
        let ledger = self.bounties[bounty_id as usize].1;
        if total_amount > ledger.due() - ledger.received() {
            return Err(BountyError::ConsistencyError);
        }
        let id = self.applications.len() as u64;
        let application = GrantApplication::new(description, total_amount, terms_of_agreement);
        self.applications.push((bounty_id, application));
        proof {
            assert(self.applications@.drop_last() =~= old(self).applications@);
            assert forall|i: int| 0 <= i < self.applications@.len() implies (
            #[trigger] self.applications@[i]).0 < self.bounties@.len() by {
                if i < id {
                    assert(self.applications@[i] == old(self).applications@[i]);
                }
            }
        }
        Ok(id)
    }

    /// Starts the review of application `(bounty_id, application_id)`.
    pub fn start_review(
        &mut self,
        bounty_id: BountyId,
        application_id: ApplicationId,
        vote_id: VoteID,
    ) -> (r: Result<(), BountyError>)
        requires
            old(self).wf(),
        ensures
            final(self).wf(),
            !old(self).has_application(bounty_id, application_id) ==> r == Err::<(), BountyError>(
                BountyError::NotFound,
            ) && *final(self) == *old(self),
            old(self).has_application(bounty_id, application_id) ==> {
                let next = start_review_next(old(self).application_state(application_id), vote_id);
                r == status(next) && final(self).application_moved(*old(self), application_id, next)
            },
    {
        if !self.find_application(bounty_id, application_id) {
            return Err(BountyError::NotFound);
        }
        let i = application_id as usize;
        let r = self.applications[i].1.start_review(vote_id);
        proof {
            self.lemma_application_entry_kept(*old(self), application_id);
        }
        r
    }

    /// Records the foundation's approval of application
    /// `(bounty_id, application_id)`, asking `share_id` to consent.
    pub fn approve_pending_team_consent(
        &mut self,
        bounty_id: BountyId,
        application_id: ApplicationId,
        share_id: ShareID,
        vote_id: VoteID,
    ) -> (r: Result<(), BountyError>)
        requires
            old(self).wf(),
        ensures
            final(self).wf(),
            !old(self).has_application(bounty_id, application_id) ==> r == Err::<(), BountyError>(
                BountyError::NotFound,
            ) && *final(self) == *old(self),
            old(self).has_application(bounty_id, application_id) ==> {
                let next = approve_team_consent_next(
                    old(self).application_state(application_id),
                    share_id,
                    vote_id,
                );
                r == status(next) && final(self).application_moved(*old(self), application_id, next)
            },
    {
        if !self.find_application(bounty_id, application_id) {
            return Err(BountyError::NotFound);
        }
        let i = application_id as usize;
        let r = self.applications[i].1.approve_pending_team_consent(share_id, vote_id);
        proof {
            self.lemma_application_entry_kept(*old(self), application_id);
        }
        r
    }

    /// Makes application `(bounty_id, application_id)` live with `team_id`,
    /// checked against the stored bounty's foundation.
    pub fn approve_grant(
        &mut self,
        bounty_id: BountyId,
        application_id: ApplicationId,
        team_id: TeamID,
    ) -> (r: Result<(), BountyError>)
        requires
            old(self).wf(),
        ensures
            final(self).wf(),
            !old(self).has_application(bounty_id, application_id) ==> r == Err::<(), BountyError>(
                BountyError::NotFound,
            ) && *final(self) == *old(self),
            old(self).has_application(bounty_id, application_id) ==> {
                let next = approve_grant_next(
                    old(self).application_state(application_id),
                    team_id,
                    old(self).spec_bounties()[bounty_id as int].0.spec_foundation(),
                );
                r == status(next) && final(self).application_moved(*old(self), application_id, next)
            },
    {
        if !self.find_application(bounty_id, application_id) {
            return Err(BountyError::NotFound);
        }
        assert(self.applications@[application_id as int].0 < self.bounties@.len());
        assert(bounty_id < self.bounties.len());
        let info = self.bounties[bounty_id as usize].0;
        let i = application_id as usize;
        let r = self.applications[i].1.approve_grant(team_id, &info);
        proof {
            self.lemma_application_entry_kept(*old(self), application_id);
        }
        r
    }

    /// Closes application `(bounty_id, application_id)`.
    pub fn close(&mut self, bounty_id: BountyId, application_id: ApplicationId) -> (r: Result<
        (),
        BountyError,
    >)
        requires
            old(self).wf(),
        ensures
            final(self).wf(),
            !old(self).has_application(bounty_id, application_id) ==> r == Err::<(), BountyError>(
                BountyError::NotFound,
            ) && *final(self) == *old(self),
            old(self).has_application(bounty_id, application_id) ==> {
                let next = close_next(old(self).application_state(application_id));
                r == status(next) && final(self).application_moved(*old(self), application_id, next)
            },
    {
        if !self.find_application(bounty_id, application_id) {
            return Err(BountyError::NotFound);
        }
        let i = application_id as usize;
        let r = self.applications[i].1.close();
        proof {
            self.lemma_application_entry_kept(*old(self), application_id);
        }
        r
    }

    /// The review status of milestone `id`.
    pub open spec fn milestone_review(self, id: MilestoneId) -> Option<MilestoneStatus> {
        self.spec_milestones()[id as int].1.spec_review()
    }

    /// `self` is `before` with only milestone `id` changed, by the transition
    /// whose next status is `next`.
    pub open spec fn milestone_moved(
        self,
        before: BountyStore,
        id: MilestoneId,
        next: Result<Option<MilestoneStatus>, BountyError>,
    ) -> bool {
        let m = self.spec_milestones()[id as int].1;
        &&& self.spec_milestones() == before.spec_milestones().update(
            id as int,
            (before.spec_milestones()[id as int].0, m),
        )
        &&& m.same_work(before.spec_milestones()[id as int].1)
        &&& m.spec_review() == after(before.milestone_review(id), next)
        &&& self.spec_bounties() == before.spec_bounties()
        &&& self.spec_applications() == before.spec_applications()
    }

    fn find_milestone(&self, application_id: ApplicationId, milestone_id: MilestoneId) -> (r: bool)
        ensures
            r == self.has_milestone(application_id, milestone_id),
            r ==> milestone_id < self.milestones.len(),
    {
        milestone_id < self.milestones.len() as u64
            && self.milestones[milestone_id as usize].0 == application_id
    }

    /// Files a milestone of application `(bounty_id, application_id)` under
    /// the next id, for `team_id`, which must be the grant's registered team.
    pub fn submit_milestone(
        &mut self,
        bounty_id: BountyId,
        application_id: ApplicationId,
        team_id: TeamID,
        submission: IpfsReference,
        amount: Balance,
    ) -> (r: Result<MilestoneId, BountyError>)
        requires
            old(self).wf(),
        ensures
            final(self).wf(),
            !old(self).has_application(bounty_id, application_id) ==> r == Err::<
                MilestoneId,
                BountyError,
            >(BountyError::NotFound),
            old(self).has_application(bounty_id, application_id) ==> {
                &&& r is Ok <==> old(self).application_state(application_id)
                    == ApplicationState::ApprovedAndLive(team_id)
                &&& r is Err ==> r == Err::<MilestoneId, BountyError>(BountyError::Unauthorized)
            },
            r is Err ==> *final(self) == *old(self),
            r matches Ok(id) ==> {
                &&& id == old(self).spec_milestones().len()
                &&& final(self).spec_milestones().len() == id + 1
                &&& final(self).spec_milestones().drop_last() == old(self).spec_milestones()
                &&& final(self).spec_milestones()[id as int].0 == application_id
                &&& final(self).spec_milestones()[id as int].1.spec_submission() == submission
                &&& final(self).spec_milestones()[id as int].1.spec_amount() == amount
                &&& final(self).milestone_review(id) is None
                &&& final(self).spec_bounties() == old(self).spec_bounties()
                &&& final(self).spec_applications() == old(self).spec_applications()
            },
    {
        if !self.find_application(bounty_id, application_id) {
            return Err(BountyError::NotFound);
        }
        let milestone = match self.applications[application_id as usize].1.submit_milestone(
            team_id,
            submission,
            amount,
        ) {
            Ok(m) => m,
            Err(e) => {
                return Err(e);
            },
        };
        let id = self.milestones.len() as u64;
        self.milestones.push((application_id, milestone));
        proof {
            assert(self.milestones@.drop_last() =~= old(self).milestones@);
            assert forall|i: int| 0 <= i < self.milestones@.len() implies (
            #[trigger] self.milestones@[i]).0 < self.applications@.len() by {
                if i < id {
                    assert(self.milestones@[i] == old(self).milestones@[i]);
                }
            }
        }
        Ok(id)
    }

    /// Starts the review of milestone `(application_id, milestone_id)`.
    pub fn start_milestone_review(
        &mut self,
        application_id: ApplicationId,
        milestone_id: MilestoneId,
        vote_id: VoteID,
    ) -> (r: Result<(), BountyError>)
        requires
            old(self).wf(),
        ensures
            final(self).wf(),
            !old(self).has_milestone(application_id, milestone_id) ==> r == Err::<(), BountyError>(
                BountyError::NotFound,
            ) && *final(self) == *old(self),
            old(self).has_milestone(application_id, milestone_id) ==> {
                let next = start_milestone_review_next(old(self).milestone_review(milestone_id), vote_id);
                r == status(next) && final(self).milestone_moved(*old(self), milestone_id, next)
            },
    {
        if !self.find_milestone(application_id, milestone_id) {
            return Err(BountyError::NotFound);
        }
        let i = milestone_id as usize;
        let r = self.milestones[i].1.start_milestone_review(vote_id);
        proof {
            self.lemma_milestone_entry_kept(*old(self), milestone_id);
        }
        r
    }

    /// Asks for changes to milestone `(application_id, milestone_id)`.
    pub fn request_changes(
        &mut self,
        application_id: ApplicationId,
        milestone_id: MilestoneId,
        vote_id: VoteID,
    ) -> (r: Result<(), BountyError>)
        requires
            old(self).wf(),
        ensures
            final(self).wf(),
            !old(self).has_milestone(application_id, milestone_id) ==> r == Err::<(), BountyError>(
                BountyError::NotFound,
            ) && *final(self) == *old(self),
            old(self).has_milestone(application_id, milestone_id) ==> {
                let next = request_changes_next(old(self).milestone_review(milestone_id), vote_id);
                r == status(next) && final(self).milestone_moved(*old(self), milestone_id, next)
            },
    {
        if !self.find_milestone(application_id, milestone_id) {
            return Err(BountyError::NotFound);
        }
        let i = milestone_id as usize;
        let r = self.milestones[i].1.request_changes(vote_id);
        proof {
            self.lemma_milestone_entry_kept(*old(self), milestone_id);
        }
        r
    }

    /// Approves milestone `(application_id, milestone_id)` and records its
    /// amount as paid on the bounty's ledger, both or neither: refused with
    /// `ConsistencyError` when the ledger cannot take the amount.
    pub fn approve_transfer(&mut self, application_id: ApplicationId, milestone_id: MilestoneId) -> (r:
        Result<(), BountyError>)
        requires
            old(self).wf(),
        ensures
            final(self).wf(),
            !old(self).has_milestone(application_id, milestone_id) ==> r == Err::<(), BountyError>(
                BountyError::NotFound,
            ) && *final(self) == *old(self),
            old(self).has_milestone(application_id, milestone_id) ==> {
                let next = approve_transfer_next(old(self).milestone_review(milestone_id));
                let amount = old(self).spec_milestones()[milestone_id as int].1.spec_amount();
                let bounty_id = old(self).spec_applications()[application_id as int].0;
                let ledger = old(self).spec_bounties()[bounty_id as int].1;
                let fits = ledger.spec_received() + amount <= ledger.spec_due();
                &&& next is Err ==> r == status(next)
                &&& next is Ok ==> (r is Ok <==> fits)
                &&& next is Ok && !fits ==> r == Err::<(), BountyError>(BountyError::ConsistencyError)
                &&& r is Err ==> *final(self) == *old(self)
                &&& r is Ok ==> {
                    let paid = final(self).spec_bounties()[bounty_id as int].1;
                    &&& final(self).spec_milestones() == old(self).spec_milestones().update(
                        milestone_id as int,
                        (application_id, final(self).spec_milestones()[milestone_id as int].1),
                    )
                    &&& final(self).spec_milestones()[milestone_id as int].1.same_work(
                        old(self).spec_milestones()[milestone_id as int].1,
                    )
                    &&& final(self).milestone_review(milestone_id) == Some(
                        MilestoneStatus::ApprovedAndTransferEnabled,
                    )
                    &&& final(self).spec_bounties() == old(self).spec_bounties().update(
                        bounty_id as int,
                        (old(self).spec_bounties()[bounty_id as int].0, paid),
                    )
                    &&& paid.spec_received() == ledger.spec_received() + amount
                    &&& paid.spec_due() == ledger.spec_due()
                    &&& final(self).spec_applications() == old(self).spec_applications()
                }
            },
    {
        if !self.find_milestone(application_id, milestone_id) {
            return Err(BountyError::NotFound);
        }
        let i = milestone_id as usize;
        let mut milestone = self.milestones[i].1;
        let moved = milestone.approve_transfer();
        if moved.is_err() {
            return moved;
        }
        assert(self.milestones@[i as int].0 < self.applications@.len());
        assert(application_id < self.applications.len());
        let bounty_id = self.applications[application_id as usize].0;
        assert(self.applications@[application_id as int].0 < self.bounties@.len());
        assert(bounty_id < self.bounties.len());
        let b = bounty_id as usize;
        let mut ledger = self.bounties[b].1;
        let paid = ledger.update(milestone.amount());
        if paid.is_err() {
            return paid;
        }
        self.milestones[i].1 = milestone;
        self.bounties[b].1 = ledger;
        proof {
            assert(self.milestones@ =~= old(self).milestones@.update(
                i as int,
                (application_id, milestone),
            ));
            assert(self.bounties@ =~= old(self).bounties@.update(
                b as int,
                (old(self).bounties@[b as int].0, ledger),
            ));
            assert forall|k: int| 0 <= k < self.milestones@.len() implies (
            #[trigger] self.milestones@[k]).0 < self.applications@.len() by {
                if k != i {
                    assert(self.milestones@[k] == old(self).milestones@[k]);
                }
            }
        }
        Ok(())
    }

    proof fn lemma_milestone_entry_kept(self, before: BountyStore, id: MilestoneId)
        requires
            before.wf(),
            id < before.milestones@.len(),
            self.milestones@.len() == before.milestones@.len(),
            self.milestones@[id as int].0 == before.milestones@[id as int].0,
            forall|i: int|
                0 <= i < before.milestones@.len() && i != id ==> self.milestones@[i]
                    == before.milestones@[i],
            self.bounties@ == before.bounties@,
            self.applications@ == before.applications@,
        ensures
            self.wf(),
            self.spec_milestones() == before.spec_milestones().update(
                id as int,
                (before.spec_milestones()[id as int].0, self.spec_milestones()[id as int].1),
            ),
    {
        assert(self.milestones@ =~= before.milestones@.update(
            id as int,
            (before.milestones@[id as int].0, self.milestones@[id as int].1),
        ));
        assert forall|i: int| 0 <= i < self.milestones@.len() implies (
        #[trigger] self.milestones@[i]).0 < self.applications@.len() by {
            if i != id {
                assert(self.milestones@[i] == before.milestones@[i]);
            }
        }
    }

    proof fn lemma_application_entry_kept(self, before: BountyStore, id: ApplicationId)
        requires
            before.wf(),
            id < before.applications@.len(),
            self.applications@.len() == before.applications@.len(),
            self.applications@[id as int].0 == before.applications@[id as int].0,
            forall|i: int|
                0 <= i < before.applications@.len() && i != id ==> self.applications@[i]
                    == before.applications@[i],
            self.bounties@ == before.bounties@,
            self.milestones@ == before.milestones@,
        ensures
            self.wf(),
            self.spec_applications() == before.spec_applications().update(
                id as int,
                (before.spec_applications()[id as int].0, self.spec_applications()[id as int].1),
            ),
    {
        assert(self.applications@ =~= before.applications@.update(
            id as int,
            (before.applications@[id as int].0, self.applications@[id as int].1),
        ));
        assert forall|i: int| 0 <= i < self.applications@.len() implies (
        #[trigger] self.applications@[i]).0 < self.bounties@.len() by {
            if i != id {
                assert(self.applications@[i] == before.applications@[i]);
            }
        }
    }
}

} // verus!
