use sunshine_bounty::dao::{is_member, Pool, Proposal};

fn proposal(yes_votes: u32, max_votes: u32) -> Proposal<u64, u64, u64, u32> {
    Proposal {
        base_hash: 1,
        proposer: 2,
        applicant: 3,
        shares: 10,
        start_time: 0,
        grace_start: None,
        yes_votes,
        no_votes: 0,
        max_votes,
        processed: false,
        passed: false,
        token_tribute: 50,
    }
}

#[test]
fn majority_of_even_total() {
    assert!(!proposal(5, 10).majority_passed());
    assert!(proposal(6, 10).majority_passed());
}

#[test]
fn majority_of_odd_total() {
    assert!(!proposal(2, 5).majority_passed());
    assert!(proposal(3, 5).majority_passed());
    assert!(proposal(4, 5).majority_passed());
    assert!(!proposal(u32::MAX / 2, u32::MAX).majority_passed());
    assert!(proposal(u32::MAX / 2 + 1, u32::MAX).majority_passed());
    assert!(proposal(u32::MAX, u32::MAX).majority_passed());
}

#[test]
fn pool_withdraw_pro_rata() {
    let pool = Pool { account: 1u64, shares: 3, funds: 100 };
    assert_eq!(pool.withdraw(1), Some(33));
    assert_eq!(pool.withdraw(3), Some(100));
    assert_eq!(pool.withdraw(4), None);
    let empty = Pool { account: 1u64, shares: 0, funds: 100 };
    assert_eq!(empty.withdraw(0), None);
    let large = Pool { account: 1u64, shares: u32::MAX, funds: u64::MAX };
    assert_eq!(large.withdraw(u32::MAX), Some(u64::MAX));
}

#[test]
fn membership_lookup() {
    let members = vec![(1u64, 10u32), (2, 20)];
    assert!(is_member(&members, 2));
    assert!(!is_member(&members, 3));
    assert!(!is_member(&Vec::new(), 1));
}
