//! Review boards: who approves an application or a milestone, and how.
use vstd::prelude::*;

use crate::types::{AccountId, IpfsReference, ShareID};

verus! {

/// Kind of weighted vote that a board opens.
#[derive(PartialEq, Eq, Structural, Clone, Copy, Debug)]
pub enum SupportedVoteTypes {
    SignalThreshold,
    PercentThreshold,
    UnanimousConsent,
}

/// Passing requirement of a weighted vote: support and optional turnout,
/// either as absolute signal or in parts per million of the issued signal.
#[derive(PartialEq, Eq, Structural, Clone, Copy, Debug)]
pub enum WeightedThreshold {
    Signal { support: u64, turnout: Option<u64> },
    Percent { support_ppm: u32, turnout_ppm: Option<u32> },
}

/// A petition counted against the members of a flat share group.
#[derive(PartialEq, Eq, Structural, Clone, Copy, Debug)]
pub struct FlatPetitionBoard {
    pub sudo: Option<AccountId>,
    pub org: u32,
    pub flat_share_id: ShareID,
    pub approval_threshold: u32,
    pub rejection_threshold: Option<u32>,
    pub topic: Option<IpfsReference>,
}

/// A vote weighted by the shares of a weighted share group.
#[derive(PartialEq, Eq, Structural, Clone, Copy, Debug)]
pub struct WeightedThresholdBoard {
    pub sudo: Option<AccountId>,
    pub org: u32,
    pub weighted_share_id: ShareID,
    pub vote_type: SupportedVoteTypes,
    pub threshold: WeightedThreshold,
}

/// True iff an administrator is set and equals `acc`.
pub open spec fn sudo_matches(sudo: Option<AccountId>, acc: AccountId) -> bool {
    sudo == Some(acc)
}

fn check_sudo(sudo: Option<AccountId>, acc: &AccountId) -> (r: bool)
    ensures
        r == sudo_matches(sudo, *acc),
{
    match sudo {
        Some(the_sudo) => the_sudo == *acc,
        None => false,
    }
}

impl FlatPetitionBoard {
    pub fn is_sudo(&self, acc: &AccountId) -> (r: bool)
        ensures
            r == sudo_matches(self.sudo, *acc),
    {
        check_sudo(self.sudo, acc)
    }
}

impl WeightedThresholdBoard {
    pub fn is_sudo(&self, acc: &AccountId) -> (r: bool)
        ensures
            r == sudo_matches(self.sudo, *acc),
    {
        check_sudo(self.sudo, acc)
    }
}

/// Who may approve an application or a milestone, and how.
#[derive(PartialEq, Eq, Structural, Clone, Copy, Debug)]
pub enum ReviewBoard {
    FlatPetitionReview(FlatPetitionBoard),
    WeightedThresholdReview(WeightedThresholdBoard),
}

impl ReviewBoard {
    /// The board's administrator, if any.
    pub open spec fn spec_sudo(self) -> Option<AccountId> {
        match self {
            ReviewBoard::FlatPetitionReview(b) => b.sudo,
            ReviewBoard::WeightedThresholdReview(b) => b.sudo,
        }
    }

    /// The organization whose shares decide.
    pub open spec fn spec_org(self) -> u32 {
        match self {
            ReviewBoard::FlatPetitionReview(b) => b.org,
            ReviewBoard::WeightedThresholdReview(b) => b.org,
        }
    }

    pub fn is_sudo(&self, acc: &AccountId) -> (r: bool)
        ensures
            r == sudo_matches(self.spec_sudo(), *acc),
    {
        match self {
            ReviewBoard::FlatPetitionReview(b) => b.is_sudo(acc),
            ReviewBoard::WeightedThresholdReview(b) => b.is_sudo(acc),
        }
    }

    pub fn org(&self) -> (r: u32)
        ensures
            r == self.spec_org(),
    {
        match self {
            ReviewBoard::FlatPetitionReview(b) => b.org,
            ReviewBoard::WeightedThresholdReview(b) => b.org,
        }
    }
}

} // verus!
