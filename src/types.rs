//! Identifiers and plain values shared by the bounty records.
use vstd::prelude::*;

verus! {

/// An account on the ledger.
pub type AccountId = u64;

/// A content reference (for example the digest of an IPFS object).
pub type IpfsReference = u64;

/// An amount of funds.
pub type Balance = u64;

/// A share group registered in an organization.
pub type ShareID = u32;

/// A number of shares held by one account.
pub type Shares = u64;

/// A bounty posted by a sponsoring organization.
pub type BountyId = u64;

/// An application filed against a bounty; unique across all bounties.
pub type ApplicationId = u64;

/// A milestone filed under an application; unique across all applications.
pub type MilestoneId = u64;

/// Which of the two per-bounty record maps a key addresses.
#[derive(PartialEq, Eq, Structural, Clone, Copy, Debug)]
pub enum BountyMapID {
    ApplicationId,
    MilestoneId,
}

impl Default for BountyMapID {
    fn default() -> (r: BountyMapID)
        ensures
            r == BountyMapID::ApplicationId,
    {
        BountyMapID::ApplicationId
    }
}

/// Strongly typed reference to a vote or petition tracked outside the core.
#[derive(PartialEq, Eq, Structural, Clone, Copy, Debug)]
pub enum VoteID {
    Petition(u32),
    Threshold(u32),
}

/// Identifier of a registered team; its `org` must be the bounty's foundation.
#[derive(PartialEq, Eq, Structural, Clone, Copy, Debug)]
pub struct TeamID {
    pub org: u32,
    pub team_sudo: Option<AccountId>,
    pub flat_share_id: ShareID,
    pub weighted_share_id: ShareID,
}

impl TeamID {
    pub fn new(
        org: u32,
        team_sudo: Option<AccountId>,
        flat_share_id: ShareID,
        weighted_share_id: ShareID,
    ) -> (r: TeamID)
        ensures
            r == (TeamID { org, team_sudo, flat_share_id, weighted_share_id }),
    {
        TeamID { org, team_sudo, flat_share_id, weighted_share_id }
    }
}

/// Storage key of the number of votes that are open.
#[derive(PartialEq, Eq, Structural, Clone, Copy, Debug)]
pub struct OpenVoteCounterStore {
    pub counter: u32,
}

/// The terms that every member of a team agrees to before work starts.
#[derive(Clone, Debug)]
pub struct TermsOfAgreement {
    pub supervisor: Option<AccountId>,
    pub share_metadata: Vec<(AccountId, Shares)>,
}

} // verus!
