//! Share-based membership decisions of a guild-style DAO: proposal majority,
//! pro-rata withdrawal from the pool, membership lookup.
use vstd::prelude::*;

verus! {

/// The pool account holding the DAO's funds, with the shares issued against them.
#[derive(PartialEq, Eq, Structural, Clone, Copy, Debug)]
pub struct Pool<AccountId> {
    pub account: AccountId,
    pub shares: u32,
    pub funds: u64,
}

/// The fields of a proposal that its hash is computed from.
#[derive(PartialEq, Eq, Structural, Clone, Copy, Debug)]
pub struct Base<AccountId, Balance> {
    pub proposer: AccountId,
    pub applicant: AccountId,
    pub shares_requested: u32,
    pub token_tribute: Balance,
}

/// A proposal to lock up tokens in exchange for shares.
#[derive(PartialEq, Eq, Structural, Clone, Copy, Debug)]
pub struct Proposal<H, AccountId, Balance, BlockNumber> {
    pub base_hash: H,
    pub proposer: AccountId,
    pub applicant: AccountId,
    /// Number of requested shares.
    pub shares: u32,
    pub start_time: BlockNumber,
    /// Start of the grace period, once the proposal passed.
    pub grace_start: Option<BlockNumber>,
    /// Shares that voted yes.
    pub yes_votes: u32,
    /// Shares that voted no.
    pub no_votes: u32,
    /// Shares outstanding, against which a majority is counted.
    pub max_votes: u32,
    pub processed: bool,
    pub passed: bool,
    pub token_tribute: Balance,
}

/// More than half of `max_votes` shares voted yes.
pub open spec fn is_majority(yes_votes: int, max_votes: int) -> bool {
    2 * yes_votes > max_votes
}

impl<H, AccountId, Balance, BlockNumber> Proposal<H, AccountId, Balance, BlockNumber> {
    /// Whether the yes votes exceed half of the outstanding shares.
    pub fn majority_passed(&self) -> (r: bool)
        ensures
            r == is_majority(self.yes_votes as int, self.max_votes as int),
    {
        2 * (self.yes_votes as u64) > self.max_votes as u64
    }
}

/// The amount paid out for `shares_burned` of `shares` issued shares
/// against `funds`, rounded down.
pub open spec fn pro_rata(funds: int, shares_burned: int, shares: int) -> int {
    funds * shares_burned / shares
}

impl<AccountId> Pool<AccountId> {
    /// The amount that burning `shares_burned` shares withdraws from the
    /// pool; `None` when no shares are issued or more are burned than exist.
    /// The transfer itself is the caller's.
    pub fn withdraw(&self, shares_burned: u32) -> (r: Option<u64>)
        ensures
            r is None <==> self.shares == 0 || shares_burned > self.shares,
            r matches Some(amount) ==> amount == pro_rata(
                self.funds as int,
                shares_burned as int,
                self.shares as int,
            ),
            r matches Some(amount) ==> amount <= self.funds,
    {
        if self.shares == 0 || shares_burned > self.shares {
            return None;
        }
        let funds = self.funds as u128;
        let burned = shares_burned as u128;
        let shares = self.shares as u128;
        proof {
            let (f, b, n) = (funds as int, burned as int, shares as int);
            assert(f * b <= f * n) by (nonlinear_arith)
                requires
                    0 <= b <= n,
                    0 <= f,
            ;
            assert(f * n <= u64::MAX as int * u32::MAX as int) by (nonlinear_arith)
                requires
                    0 <= f <= u64::MAX as int,
                    0 <= n <= u32::MAX as int,
            ;
            assert(f * b / n <= f) by (nonlinear_arith)
                requires
                    0 <= b <= n,
                    0 < n,
                    0 <= f,
            ;
        }
        let amount = funds * burned / shares;
        Some(amount as u64)
    }
}

/// Whether `who` is among the active members (account, shares held).
pub fn is_member(active_members: &Vec<(u64, u32)>, who: u64) -> (r: bool)
    ensures
        r == exists|i: int| 0 <= i < active_members@.len() && (#[trigger] active_members@[i]).0 == who,
{
    let mut i: usize = 0;
    while i < active_members.len()
        invariant
            i <= active_members@.len(),
            forall|k: int| 0 <= k < i ==> (#[trigger] active_members@[k]).0 != who,
        decreases active_members@.len() - i,
    {
        if active_members[i].0 == who {
            return true;
        }
        i = i + 1;
    }
    false
}

} // verus!
