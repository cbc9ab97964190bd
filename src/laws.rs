//! Laws of the two lifecycles, stated over the transition functions that
//! the operations of `GrantApplication` and `MilestoneSubmission` follow.
use vstd::prelude::*;

use crate::application::{
    application_step, approve_grant_next, approve_team_consent_next, close_next,
    start_review_next, ApplicationState,
};
use crate::error::{after, BountyError, Stage, Transition};
use crate::milestone::{
    approve_transfer_next, is_transfer_enabled, milestone_step, request_changes_next,
    review_rank, start_milestone_review_next, MilestoneStatus,
};
use crate::types::{ShareID, TeamID, VoteID};

verus! {

/// What one operation does to an application's state: nothing (it was
/// refused, or it closed a closed application), or one lifecycle step.
pub open spec fn application_moves(from: ApplicationState, to: ApplicationState) -> bool {
    from == to || application_step(from, to)
}

/// Successive states of one application under a series of operations.
pub open spec fn application_history(trace: Seq<ApplicationState>) -> bool {
    forall|i: int|
        0 <= i < trace.len() - 1 ==> #[trigger] application_moves(trace[i], trace[i + 1])
}

/// Each operation on an application, accepted or refused, moves its state
/// by at most one lifecycle step.
pub proof fn lemma_application_op_moves(s: ApplicationState, op: ApplicationOp)
    ensures
        application_moves(s, after(s, application_op_next(s, op))),
{
}

proof fn lemma_application_move_rank(from: ApplicationState, to: ApplicationState)
    requires
        application_moves(from, to),
    ensures
        from == to || from.rank() < to.rank(),
{
}

proof fn lemma_application_monotone(trace: Seq<ApplicationState>, i: int, j: int)
    requires
        application_history(trace),
        0 <= i <= j < trace.len(),
    ensures
        trace[i] == trace[j] || trace[i].rank() < trace[j].rank(),
    decreases j - i,
{
    if i < j {
        lemma_application_monotone(trace, i, j - 1);
        assert(application_moves(trace[j - 1], trace[j - 1 + 1]));
        lemma_application_move_rank(trace[j - 1], trace[j]);
    }
}

/// Forward or closed: along any history of an application the lifecycle
/// order never goes back, and a state once left is never reached again.
pub proof fn lemma_application_forward_or_closed(trace: Seq<ApplicationState>)
    requires
        application_history(trace),
    ensures
        forall|i: int, j: int|
            0 <= i <= j < trace.len() ==> trace[i] == trace[j] || #[trigger] trace[i].rank()
                < #[trigger] trace[j].rank(),
        forall|i: int, j: int, k: int|
            #![trigger trace[i], trace[j], trace[k]]
            0 <= i < j <= k < trace.len() && trace[j] != trace[i] ==> trace[k] != trace[i],
{
    assert forall|i: int, j: int| 0 <= i <= j < trace.len() implies trace[i] == trace[j]
        || #[trigger] trace[i].rank() < #[trigger] trace[j].rank() by {
        lemma_application_monotone(trace, i, j);
    }
    assert forall|i: int, j: int, k: int|
        #![trigger trace[i], trace[j], trace[k]]
        0 <= i < j <= k < trace.len() && trace[j] != trace[i] implies trace[k] != trace[i] by {
        lemma_application_monotone(trace, i, j);
        lemma_application_monotone(trace, j, k);
    }
}

/// Closing twice: the second close returns what the first returned and
/// leaves the state as the first left it; on any application that is not a
/// live grant both succeed and leave it `Closed`.
pub proof fn lemma_close_idempotent(s: ApplicationState)
    ensures
        close_next(after(s, close_next(s))) == close_next(s),
        after(after(s, close_next(s)), close_next(after(s, close_next(s)))) == after(
            s,
            close_next(s),
        ),
        !(s is ApprovedAndLive) ==> close_next(s) == Ok::<ApplicationState, BountyError>(
            ApplicationState::Closed,
        ),
{
}

/// What one operation does to a milestone's review status: nothing (it was
/// refused), or one lifecycle step.
pub open spec fn milestone_moves(from: Option<MilestoneStatus>, to: Option<MilestoneStatus>) -> bool {
    from == to || milestone_step(from, to)
}

/// Successive review statuses of one milestone under a series of operations.
pub open spec fn milestone_history(trace: Seq<Option<MilestoneStatus>>) -> bool {
    forall|i: int| 0 <= i < trace.len() - 1 ==> #[trigger] milestone_moves(trace[i], trace[i + 1])
}

/// Each operation on a milestone, accepted or refused, moves its review
/// status by at most one lifecycle step.
pub proof fn lemma_milestone_op_moves(review: Option<MilestoneStatus>, op: MilestoneOp)
    ensures
        milestone_moves(review, after(review, milestone_op_next(review, op))),
{
}

proof fn lemma_milestone_monotone(trace: Seq<Option<MilestoneStatus>>, i: int, j: int)
    requires
        milestone_history(trace),
        0 <= i <= j < trace.len(),
    ensures
        trace[i] == trace[j] || review_rank(trace[i]) < review_rank(trace[j]),
    decreases j - i,
{
    if i < j {
        lemma_milestone_monotone(trace, i, j - 1);
        assert(milestone_moves(trace[j - 1], trace[j - 1 + 1]));
    }
}

/// Forward only: along any history of a milestone the lifecycle order never
/// goes back, and a status once left is never reached again.
pub proof fn lemma_milestone_forward_only(trace: Seq<Option<MilestoneStatus>>)
    requires
        milestone_history(trace),
    ensures
        forall|i: int, j: int|
            0 <= i <= j < trace.len() ==> trace[i] == trace[j] || #[trigger] review_rank(trace[i])
                < #[trigger] review_rank(trace[j]),
        forall|i: int, j: int, k: int|
            #![trigger trace[i], trace[j], trace[k]]
            0 <= i < j <= k < trace.len() && trace[j] != trace[i] ==> trace[k] != trace[i],
{
    assert forall|i: int, j: int| 0 <= i <= j < trace.len() implies trace[i] == trace[j]
        || #[trigger] review_rank(trace[i]) < #[trigger] review_rank(trace[j]) by {
        lemma_milestone_monotone(trace, i, j);
    }
    assert forall|i: int, j: int, k: int|
        #![trigger trace[i], trace[j], trace[k]]
        0 <= i < j <= k < trace.len() && trace[j] != trace[i] implies trace[k] != trace[i] by {
        lemma_milestone_monotone(trace, i, j);
        lemma_milestone_monotone(trace, j, k);
    }
}

/// An approved milestone refuses every further operation with
/// `InvalidTransition`, and keeps its status.
pub proof fn lemma_approved_milestone_is_final(vote_id: VoteID)
    ensures
        ({
            let approved = Some(MilestoneStatus::ApprovedAndTransferEnabled);
            let actual = Stage::MilestoneApprovedAndTransferEnabled;
            &&& start_milestone_review_next(approved, vote_id) == Err::<
                Option<MilestoneStatus>,
                BountyError,
            >(BountyError::InvalidTransition { attempted: Transition::StartMilestoneReview, actual })
            &&& request_changes_next(approved, vote_id) == Err::<
                Option<MilestoneStatus>,
                BountyError,
            >(BountyError::InvalidTransition { attempted: Transition::RequestChanges, actual })
            &&& approve_transfer_next(approved) == Err::<Option<MilestoneStatus>, BountyError>(
                BountyError::InvalidTransition { attempted: Transition::ApproveTransfer, actual },
            )
        }),
{
}

/// At-most-once release: along any history of a milestone, the status
/// `ApprovedAndTransferEnabled` is entered at most once and never left.
pub proof fn lemma_transfer_enabled_at_most_once(trace: Seq<Option<MilestoneStatus>>)
    requires
        milestone_history(trace),
    ensures
        forall|i: int, j: int|
            0 <= i <= j < trace.len() && is_transfer_enabled(trace[i]) ==> #[trigger] trace[j]
                == #[trigger] trace[i],
        forall|i: int, j: int|
            0 < i < trace.len() && 0 < j < trace.len() && !is_transfer_enabled(trace[i - 1])
                && #[trigger] is_transfer_enabled(trace[i]) && !is_transfer_enabled(trace[j - 1])
                && #[trigger] is_transfer_enabled(trace[j]) ==> i == j,
{
    lemma_milestone_forward_only(trace);
    assert forall|i: int, j: int|
        0 <= i <= j < trace.len() && is_transfer_enabled(trace[i]) implies #[trigger] trace[j]
        == #[trigger] trace[i] by {
        lemma_milestone_monotone(trace, i, j);
    }
    assert forall|i: int, j: int|
        0 < i < trace.len() && 0 < j < trace.len() && !is_transfer_enabled(trace[i - 1])
            && #[trigger] is_transfer_enabled(trace[i]) && !is_transfer_enabled(trace[j - 1])
            && #[trigger] is_transfer_enabled(trace[j]) implies i == j by {
        if i < j {
            lemma_milestone_monotone(trace, i, j - 1);
        } else if j < i {
            lemma_milestone_monotone(trace, j, i - 1);
        }
    }
}

/// One operation on an application, with its arguments (`ApproveGrant`
/// carries the foundation of the bounty it is checked against).
#[derive(PartialEq, Eq, Structural, Clone, Copy, Debug)]
pub enum ApplicationOp {
    StartReview(VoteID),
    ApproveTeamConsent(ShareID, VoteID),
    ApproveGrant(TeamID, u32),
    Close,
}

/// The transition that `op` performs in state `s`.
pub open spec fn application_op_next(s: ApplicationState, op: ApplicationOp) -> Result<
    ApplicationState,
    BountyError,
> {
    match op {
        ApplicationOp::StartReview(vote_id) => start_review_next(s, vote_id),
        ApplicationOp::ApproveTeamConsent(share_id, vote_id) => approve_team_consent_next(
            s,
            share_id,
            vote_id,
        ),
        ApplicationOp::ApproveGrant(team_id, foundation) => approve_grant_next(s, team_id, foundation),
        ApplicationOp::Close => close_next(s),
    }
}

/// The states of an application that starts in `s` and undergoes `ops`,
/// accepted or refused: `s`, then the state after each operation.
pub open spec fn application_run(s: ApplicationState, ops: Seq<ApplicationOp>) -> Seq<
    ApplicationState,
>
    decreases ops.len(),
{
    if ops.len() == 0 {
        seq![s]
    } else {
        let before = application_run(s, ops.drop_last());
        before.push(after(before.last(), application_op_next(before.last(), ops.last())))
    }
}

proof fn lemma_application_run_history(s: ApplicationState, ops: Seq<ApplicationOp>)
    ensures
        application_run(s, ops).len() == ops.len() + 1,
        application_run(s, ops)[0] == s,
        application_history(application_run(s, ops)),
        forall|k: int|
            0 <= k < ops.len() ==> #[trigger] application_run(s, ops)[k + 1] == after(
                application_run(s, ops)[k],
                application_op_next(application_run(s, ops)[k], ops[k]),
            ),
    decreases ops.len(),
{
    if ops.len() > 0 {
        let before = application_run(s, ops.drop_last());
        lemma_application_run_history(s, ops.drop_last());
        let run = application_run(s, ops);
        lemma_application_op_moves(before.last(), ops.last());
        assert forall|i: int| 0 <= i < run.len() - 1 implies #[trigger] application_moves(
            run[i],
            run[i + 1],
        ) by {
            if i < before.len() - 1 {
                assert(run[i] == before[i] && run[i + 1] == before[i + 1]);
                assert(application_moves(before[i], before[i + 1]));
            }
        }
        assert forall|k: int| 0 <= k < ops.len() implies #[trigger] run[k + 1] == after(
            run[k],
            application_op_next(run[k], ops[k]),
        ) by {
            if k < ops.len() - 1 {
                assert(run[k] == before[k] && run[k + 1] == before[k + 1]);
                assert(ops[k] == ops.drop_last()[k]);
                assert(before[k + 1] == after(before[k], application_op_next(before[k], ops.drop_last()[k])));
            }
        }
    }
}

/// Forward or closed, for any series of operations on any application:
/// the lifecycle order never goes back, and a state once left is never
/// reached again.
pub proof fn lemma_application_ops_forward_or_closed(s: ApplicationState, ops: Seq<ApplicationOp>)
    ensures
        ({
            let run = application_run(s, ops);
            &&& forall|i: int, j: int|
                0 <= i <= j < run.len() ==> run[i] == run[j] || #[trigger] run[i].rank()
                    < #[trigger] run[j].rank()
            &&& forall|i: int, j: int, k: int|
                #![trigger run[i], run[j], run[k]]
                0 <= i < j <= k < run.len() && run[j] != run[i] ==> run[k] != run[i]
        }),
{
    lemma_application_run_history(s, ops);
    lemma_application_forward_or_closed(application_run(s, ops));
}

/// One operation on a milestone, with its arguments.
#[derive(PartialEq, Eq, Structural, Clone, Copy, Debug)]
pub enum MilestoneOp {
    StartMilestoneReview(VoteID),
    RequestChanges(VoteID),
    ApproveTransfer,
}

/// The transition that `op` performs under review status `review`.
pub open spec fn milestone_op_next(review: Option<MilestoneStatus>, op: MilestoneOp) -> Result<
    Option<MilestoneStatus>,
    BountyError,
> {
    match op {
        MilestoneOp::StartMilestoneReview(vote_id) => start_milestone_review_next(review, vote_id),
        MilestoneOp::RequestChanges(vote_id) => request_changes_next(review, vote_id),
        MilestoneOp::ApproveTransfer => approve_transfer_next(review),
    }
}

/// The review statuses of a milestone that starts under `review` and
/// undergoes `ops`, accepted or refused.
pub open spec fn milestone_run(review: Option<MilestoneStatus>, ops: Seq<MilestoneOp>) -> Seq<
    Option<MilestoneStatus>,
>
    decreases ops.len(),
{
    if ops.len() == 0 {
        seq![review]
    } else {
        let before = milestone_run(review, ops.drop_last());
        before.push(after(before.last(), milestone_op_next(before.last(), ops.last())))
    }
}

proof fn lemma_milestone_run_history(review: Option<MilestoneStatus>, ops: Seq<MilestoneOp>)
    ensures
        milestone_run(review, ops).len() == ops.len() + 1,
        milestone_run(review, ops)[0] == review,
        milestone_history(milestone_run(review, ops)),
        forall|k: int|
            0 <= k < ops.len() ==> #[trigger] milestone_run(review, ops)[k + 1] == after(
                milestone_run(review, ops)[k],
                milestone_op_next(milestone_run(review, ops)[k], ops[k]),
            ),
    decreases ops.len(),
{
    if ops.len() > 0 {
        let before = milestone_run(review, ops.drop_last());
        lemma_milestone_run_history(review, ops.drop_last());
        let run = milestone_run(review, ops);
        lemma_milestone_op_moves(before.last(), ops.last());
        assert forall|i: int| 0 <= i < run.len() - 1 implies #[trigger] milestone_moves(
            run[i],
            run[i + 1],
        ) by {
            if i < before.len() - 1 {
                assert(run[i] == before[i] && run[i + 1] == before[i + 1]);
                assert(milestone_moves(before[i], before[i + 1]));
            }
        }
        assert forall|k: int| 0 <= k < ops.len() implies #[trigger] run[k + 1] == after(
            run[k],
            milestone_op_next(run[k], ops[k]),
        ) by {
            if k < ops.len() - 1 {
                assert(run[k] == before[k] && run[k + 1] == before[k + 1]);
                assert(ops[k] == ops.drop_last()[k]);
                assert(before[k + 1] == after(before[k], milestone_op_next(before[k], ops.drop_last()[k])));
            }
        }
    }
}

/// Forward only, for any series of operations on a milestone filed fresh:
/// the lifecycle order never goes back, and a status once left is never
/// reached again.
pub proof fn lemma_milestone_ops_forward_only(ops: Seq<MilestoneOp>)
    ensures
        ({
            let run = milestone_run(None, ops);
            &&& forall|i: int, j: int|
                0 <= i <= j < run.len() ==> run[i] == run[j] || #[trigger] review_rank(run[i])
                    < #[trigger] review_rank(run[j])
            &&& forall|i: int, j: int, k: int|
                #![trigger run[i], run[j], run[k]]
                0 <= i < j <= k < run.len() && run[j] != run[i] ==> run[k] != run[i]
        }),
{
    lemma_milestone_run_history(None, ops);
    lemma_milestone_forward_only(milestone_run(None, ops));
}

/// At-most-once release, for any series of operations on a milestone filed
/// fresh: at most one of them is accepted with `ApprovedAndTransferEnabled`
/// as its outcome.
pub proof fn lemma_milestone_ops_release_at_most_once(ops: Seq<MilestoneOp>)
    ensures
        forall|k1: int, k2: int|
            #![trigger ops[k1], ops[k2]]
            0 <= k1 < ops.len() && 0 <= k2 < ops.len() && milestone_op_next(
                milestone_run(None, ops)[k1],
                ops[k1],
            ) == Ok::<Option<MilestoneStatus>, BountyError>(
                Some(MilestoneStatus::ApprovedAndTransferEnabled),
            ) && milestone_op_next(milestone_run(None, ops)[k2], ops[k2]) == Ok::<
                Option<MilestoneStatus>,
                BountyError,
            >(Some(MilestoneStatus::ApprovedAndTransferEnabled)) ==> k1 == k2,
{
    let run = milestone_run(None, ops);
    lemma_milestone_run_history(None, ops);
    lemma_transfer_enabled_at_most_once(run);
    assert forall|k1: int, k2: int|
        #![trigger ops[k1], ops[k2]]
        0 <= k1 < ops.len() && 0 <= k2 < ops.len() && milestone_op_next(run[k1], ops[k1]) == Ok::<
            Option<MilestoneStatus>,
            BountyError,
        >(Some(MilestoneStatus::ApprovedAndTransferEnabled)) && milestone_op_next(run[k2], ops[k2])
            == Ok::<Option<MilestoneStatus>, BountyError>(
            Some(MilestoneStatus::ApprovedAndTransferEnabled),
        ) implies k1 == k2 by {
        lemma_approved_milestone_is_final(VoteID::Petition(0));
        assert(run[k1 + 1] == after(run[k1], milestone_op_next(run[k1], ops[k1])));
        assert(run[k2 + 1] == after(run[k2], milestone_op_next(run[k2], ops[k2])));
        assert(is_transfer_enabled(run[k1 + 1]) && !is_transfer_enabled(run[(k1 + 1) - 1]));
        assert(is_transfer_enabled(run[k2 + 1]) && !is_transfer_enabled(run[(k2 + 1) - 1]));
    }
}

} // verus!
