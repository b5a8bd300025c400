//! End-to-end scenarios: one ledger taken through initialization,
//! membership, the marketplace and governance, checking balances,
//! counters and record state after every step.

use commune::errors::CallError;
use commune::errors::ErrorCode;
use commune::ledger::Ledger;

const A: u64 = 11;
const B: u64 = 22;

/// A ledger with fee 10 and tax 3 where `A` and `B` have joined.
fn commune_with_two_members() -> Ledger {
    let mut l = Ledger::new();
    assert_eq!(l.initialize_market(250, 10, 3), Ok(()));
    assert!(l.fund(A, 1000));
    assert!(l.fund(B, 1000));
    assert_eq!(l.join_commune(A, 1), Ok(()));
    assert_eq!(l.join_commune(B, 2), Ok(()));
    l
}

#[test]
fn initialize_and_join_collects_the_fee() {
    let mut l = Ledger::new();
    assert_eq!(l.initialize_market(250, 10, 3), Ok(()));
    let c = l.commune.unwrap();
    assert_eq!(c.fee, 10);
    assert_eq!(c.tax, 3);
    assert_eq!(c.item_count, 0);
    assert_eq!(c.total_proposal_count, 0);
    assert_eq!(c.bump, 250);

    assert!(l.fund(A, 10));
    assert!(!l.is_approved(A));
    assert_eq!(l.join_commune(A, 7), Ok(()));
    assert!(l.is_approved(A));
    assert_eq!(l.approvers.get(&A).unwrap().approval, true);
    assert_eq!(l.approvers.get(&A).unwrap().bump, 7);
    assert_eq!(l.commune_balance, 10);
    assert_eq!(l.balance_of(A), 0);
}

#[test]
fn listing_withholds_the_floor_tax() {
    let mut l = commune_with_two_members();
    let pool_before = l.commune_balance;
    assert_eq!(
        l.create_item(A, 3, 1, "lamp".to_string(), 100, "a reading lamp".to_string()),
        Ok(())
    );
    let it = l.items.get(&1).unwrap();
    assert_eq!(it.tax, 3);
    assert_eq!(it.price, 103);
    assert_eq!(it.seller, A);
    assert_eq!(it.buyer, None);
    assert!(!it.sold);
    assert_eq!(l.commune_balance, pool_before + 3);
    assert_eq!(l.commune.unwrap().item_count, 1);
    assert_eq!(l.balance_of(A), 990 - 3);
}

#[test]
fn purchase_moves_the_full_price_and_closes_the_item() {
    let mut l = commune_with_two_members();
    assert_eq!(
        l.create_item(A, 3, 1, "lamp".to_string(), 100, "a reading lamp".to_string()),
        Ok(())
    );
    let a_before = l.balance_of(A);
    let b_before = l.balance_of(B);
    assert_eq!(l.create_market_sale(B, 1, A), Ok(()));
    assert_eq!(l.balance_of(B), b_before - 103);
    assert_eq!(l.balance_of(A), a_before + 103);
    let it = l.items.get(&1).unwrap();
    assert!(it.sold);
    assert_eq!(it.buyer, Some(B));
    assert_eq!(l.commune.unwrap().item_count, 0);
}

#[test]
fn approval_after_the_deadline_pays_the_majority_proposal() {
    let mut l = commune_with_two_members();
    // Five yes votes against two no votes, all within the window.
    let voters: [u64; 7] = [31, 32, 33, 34, 35, 41, 42];
    for (i, v) in voters.iter().enumerate() {
        assert!(l.fund(*v, 10));
        assert_eq!(l.join_commune(*v, 50 + i as u8), Ok(()));
    }
    assert_eq!(
        l.add_proposal(A, 9, 1, "well".to_string(), "dig a well".to_string(), 50, 1000, 900),
        Ok(())
    );
    for (i, v) in voters.iter().enumerate() {
        let yes = i < 5;
        assert_eq!(l.vote_for_proposal(*v, 60 + i as u8, 1, yes, 950), Ok(()));
    }
    let p = l.proposals.get(&1).unwrap();
    assert_eq!(p.vote_yes, 5);
    assert_eq!(p.vote_no, 2);
    assert!(!p.approved);

    let pool_before = l.commune_balance;
    let a_before = l.balance_of(A);
    assert_eq!(l.approve_proposal(A, 1, 1001), Ok(()));
    assert_eq!(l.commune_balance, pool_before - 50);
    assert_eq!(l.balance_of(A), a_before + 50);
    assert!(l.proposals.get(&1).unwrap().approved);
}

#[test]
fn no_majority_means_rejection_and_no_transfer() {
    let mut l = commune_with_two_members();
    assert_eq!(
        l.add_proposal(A, 9, 1, "well".to_string(), "dig a well".to_string(), 50, 1000, 900),
        Ok(())
    );
    // One yes against one no: not a strict majority.
    assert_eq!(l.vote_for_proposal(A, 61, 1, true, 950), Ok(()));
    assert_eq!(l.vote_for_proposal(B, 62, 1, false, 960), Ok(()));
    let pool_before = l.commune_balance;
    let a_before = l.balance_of(A);
    assert_eq!(
        l.approve_proposal(A, 1, 1001),
        Err(CallError::Program(ErrorCode::Rejected))
    );
    assert_eq!(l.commune_balance, pool_before);
    assert_eq!(l.balance_of(A), a_before);
    assert!(!l.proposals.get(&1).unwrap().approved);
}

#[test]
fn second_approval_fails_and_pays_nothing() {
    let mut l = commune_with_two_members();
    assert_eq!(
        l.add_proposal(A, 9, 1, "well".to_string(), "dig a well".to_string(), 5, 1000, 900),
        Ok(())
    );
    assert_eq!(l.vote_for_proposal(A, 61, 1, true, 950), Ok(()));
    assert_eq!(l.approve_proposal(A, 1, 1001), Ok(()));
    let pool_after = l.commune_balance;
    let a_after = l.balance_of(A);
    assert_eq!(
        l.approve_proposal(A, 1, 2000),
        Err(CallError::Program(ErrorCode::Approved))
    );
    assert_eq!(l.commune_balance, pool_after);
    assert_eq!(l.balance_of(A), a_after);
}

#[test]
fn one_vote_per_voter_per_proposal() {
    let mut l = commune_with_two_members();
    assert_eq!(
        l.add_proposal(A, 9, 1, "well".to_string(), "dig a well".to_string(), 5, 1000, 900),
        Ok(())
    );
    assert_eq!(l.vote_for_proposal(B, 61, 1, true, 950), Ok(()));
    assert!(l.has_vote(1, B));
    // A second attempt by the same voter collides with the committed
    // record, whatever the new vote value says.
    assert_eq!(l.vote_for_proposal(B, 62, 1, false, 960), Err(CallError::RecordExists));
    let p = l.proposals.get(&1).unwrap();
    assert_eq!(p.vote_yes, 1);
    assert_eq!(p.vote_no, 0);
    assert_eq!(l.votes.len(), 1);
}
