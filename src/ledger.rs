//! The funding ledger: posted bounties with their collateral, and the
//! per-bounty record of payments against what is due.
use vstd::prelude::*;

use crate::error::BountyError;
use crate::review::ReviewBoard;
use crate::types::{Balance, IpfsReference};

verus! {

/// Denominator of a ratio given in parts per million.
pub const PPM: u64 = 1_000_000;

/// `reserved / claimed` is at least `bound_ppm / PPM`, compared without
/// division (so a bounty that claims nothing is always collateralized).
pub open spec fn is_collateralized(reserved: int, claimed: int, bound_ppm: int) -> bool {
    reserved * (PPM as int) >= bound_ppm * claimed
}

/// The information most often read about a posted bounty.
#[derive(PartialEq, Eq, Structural, Clone, Copy, Debug)]
pub struct BountyInformation {
    description: IpfsReference,
    foundation_id: u32,
    bank_account: u32,
    spend_reservation_id: u32,
    funding_reserved: Balance,
    claimed_funding_available: Balance,
    acceptance_committee: ReviewBoard,
    supervision_committee: Option<ReviewBoard>,
}

impl BountyInformation {
    pub closed spec fn spec_description(self) -> IpfsReference {
        self.description
    }

    pub closed spec fn spec_foundation(self) -> u32 {
        self.foundation_id
    }

    pub closed spec fn spec_bank_account(self) -> u32 {
        self.bank_account
    }

    pub closed spec fn spec_spend_reservation_id(self) -> u32 {
        self.spend_reservation_id
    }

    pub closed spec fn spec_funding_reserved(self) -> Balance {
        self.funding_reserved
    }

    pub closed spec fn spec_claimed_funding_available(self) -> Balance {
        self.claimed_funding_available
    }

    pub closed spec fn spec_acceptance_committee(self) -> ReviewBoard {
        self.acceptance_committee
    }

    /// The board that reviews milestones: the supervision committee when one
    /// was named, the acceptance committee otherwise.
    pub closed spec fn spec_supervision_committee(self) -> ReviewBoard {
        match self.supervision_committee {
            Some(board) => board,
            None => self.acceptance_committee,
        }
    }

    /// Posts a bounty, refusing it when the reserved funds fall below
    /// `collateral_lower_bound_ppm` parts per million of the claimed funds.
    pub fn new(
        description: IpfsReference,
        foundation_id: u32,
        bank_account: u32,
        spend_reservation_id: u32,
        funding_reserved: Balance,
        claimed_funding_available: Balance,
        acceptance_committee: ReviewBoard,
        supervision_committee: Option<ReviewBoard>,
        collateral_lower_bound_ppm: u32,
    ) -> (r: Result<BountyInformation, BountyError>)
        ensures
            is_collateralized(
                funding_reserved as int,
                claimed_funding_available as int,
                collateral_lower_bound_ppm as int,
            ) <==> r is Ok,
            r is Err ==> r == Err::<BountyInformation, BountyError>(
                BountyError::InsufficientCollateralization,
            ),
            r matches Ok(b) ==> {
                &&& b.spec_description() == description
                &&& b.spec_foundation() == foundation_id
                &&& b.spec_bank_account() == bank_account
                &&& b.spec_spend_reservation_id() == spend_reservation_id
                &&& b.spec_funding_reserved() == funding_reserved
                &&& b.spec_claimed_funding_available() == claimed_funding_available
                &&& b.spec_acceptance_committee() == acceptance_committee
                &&& b.spec_supervision_committee() == match supervision_committee {
                    Some(board) => board,
                    None => acceptance_committee,
                }
            },
    {
        let reserved_scaled: u128 = funding_reserved as u128 * PPM as u128;
        assert(collateral_lower_bound_ppm as int * claimed_funding_available as int
            <= u32::MAX as int * u64::MAX as int) by (nonlinear_arith);
        let claimed_scaled: u128 = collateral_lower_bound_ppm as u128
            * claimed_funding_available as u128;
        if reserved_scaled < claimed_scaled {
            return Err(BountyError::InsufficientCollateralization);
        }
        Ok(BountyInformation {
            description,
            foundation_id,
            bank_account,
            spend_reservation_id,
            funding_reserved,
            claimed_funding_available,
            acceptance_committee,
            supervision_committee,
        })
    }

    /// The sponsoring organization.
    pub fn foundation(&self) -> (r: u32)
        ensures
            r == self.spec_foundation(),
    {
        self.foundation_id
    }

    pub fn claimed_funding_available(&self) -> (r: Balance)
        ensures
            r == self.spec_claimed_funding_available(),
    {
        self.claimed_funding_available
    }

    pub fn funding_reserved(&self) -> (r: Balance)
        ensures
            r == self.spec_funding_reserved(),
    {
        self.funding_reserved
    }

    pub fn acceptance_committee(&self) -> (r: ReviewBoard)
        ensures
            r == self.spec_acceptance_committee(),
    {
        self.acceptance_committee
    }

    pub fn supervision_committee(&self) -> (r: ReviewBoard)
        ensures
            r == self.spec_supervision_committee(),
    {
        match self.supervision_committee {
            Some(board) => board,
            None => self.acceptance_committee,
        }
    }
}

/// Reconciliation ledger of one bounty: what was received against what is due.
#[derive(PartialEq, Eq, Structural, Clone, Copy, Debug)]
pub struct BountyPaymentTracker {
    received: Balance,
    due: Balance,
}

impl BountyPaymentTracker {
    #[verifier::type_invariant]
    spec fn received_within_due(self) -> bool {
        self.received <= self.due
    }

    pub closed spec fn spec_received(self) -> Balance {
        self.received
    }

    pub closed spec fn spec_due(self) -> Balance {
        self.due
    }

    /// A ledger on which `due` is owed and nothing was received yet.
    pub fn new(due: Balance) -> (r: BountyPaymentTracker)
        ensures
            r.spec_received() == 0,
            r.spec_due() == due,
    {
        BountyPaymentTracker { received: 0, due }
    }

    pub fn received(&self) -> (r: Balance)
        ensures
            r == self.spec_received(),
            r <= self.spec_due(),
    {
        proof {
            use_type_invariant(self);
        }
        self.received
    }

    pub fn due(&self) -> (r: Balance)
        ensures
            r == self.spec_due(),
    {
        self.due
    }

    /// Records `received_delta` more funds as received. Refuses, leaving the
    /// ledger unchanged, when that would take `received` past `due`.
    pub fn update(&mut self, received_delta: Balance) -> (r: Result<(), BountyError>)
        ensures
            old(self).spec_received() + received_delta <= old(self).spec_due() <==> r is Ok,
            r is Ok ==> final(self).spec_received() == old(self).spec_received() + received_delta
                && final(self).spec_due() == old(self).spec_due(),
            r is Err ==> r == Err::<(), BountyError>(BountyError::ConsistencyError)
                && *final(self) == *old(self),
    {
        proof {
            use_type_invariant(&*self);
        }
        if received_delta > self.due - self.received {
            return Err(BountyError::ConsistencyError);
        }
        self.received = self.received + received_delta;
        Ok(())
    }
}

} // verus!
