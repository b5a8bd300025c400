//! One test per failure condition: every error variant is produced by an
//! input that triggers it, and the call leaves the ledger untouched.

use commune::errors::CallError;
use commune::errors::ErrorCode;
use commune::ledger::compute_tax;
use commune::ledger::Ledger;

const A: u64 = 11;
const B: u64 = 22;
const STRANGER: u64 = 99;

fn commune_with_member() -> Ledger {
    let mut l = Ledger::new();
    assert_eq!(l.initialize_market(250, 10, 3), Ok(()));
    assert!(l.fund(A, 1000));
    assert_eq!(l.join_commune(A, 1), Ok(()));
    l
}

#[test]
fn tax_is_the_exact_floor() {
    assert_eq!(compute_tax(100, 3), 3);
    assert_eq!(compute_tax(99, 3), 2);
    assert_eq!(compute_tax(33, 3), 0);
    assert_eq!(compute_tax(0, 3), 0);
    assert_eq!(compute_tax(100, 0), 0);
    assert_eq!(compute_tax(7, 100), 7);
    assert_eq!(compute_tax(u64::MAX / 2, 100), u64::MAX / 2);
}

#[test]
fn initialize_twice_collides() {
    let mut l = Ledger::new();
    assert_eq!(l.initialize_market(250, 10, 3), Ok(()));
    assert_eq!(l.initialize_market(251, 20, 5), Err(CallError::RecordExists));
    // The first record stands unchanged.
    assert_eq!(l.commune.unwrap().fee, 10);
}

#[test]
fn join_needs_an_initialized_commune() {
    let mut l = Ledger::new();
    assert!(l.fund(A, 1000));
    assert_eq!(l.join_commune(A, 1), Err(CallError::RecordMissing));
}

#[test]
fn join_without_the_fee_fails_the_transfer() {
    let mut l = Ledger::new();
    assert_eq!(l.initialize_market(250, 10, 3), Ok(()));
    assert!(l.fund(A, 9));
    assert_eq!(
        l.join_commune(A, 1),
        Err(CallError::Program(ErrorCode::SomethingWrong))
    );
    assert!(!l.is_approved(A));
    assert_eq!(l.balance_of(A), 9);
    assert_eq!(l.commune_balance, 0);
}

#[test]
fn joining_twice_collides() {
    let mut l = commune_with_member();
    assert!(l.fund(A, 100));
    let before = l.balance_of(A);
    assert_eq!(l.join_commune(A, 2), Err(CallError::RecordExists));
    assert_eq!(l.balance_of(A), before);
}

#[test]
fn only_members_may_list() {
    let mut l = commune_with_member();
    assert!(l.fund(STRANGER, 1000));
    assert_eq!(
        l.create_item(STRANGER, 3, 1, "lamp".to_string(), 100, "desc".to_string()),
        Err(CallError::Program(ErrorCode::InvalidAddress))
    );
    assert!(l.items.get(&1).is_none());
}

#[test]
fn a_title_of_eighty_one_characters_is_rejected() {
    let mut l = commune_with_member();
    let title: String = "x".repeat(81);
    let before = l.balance_of(A);
    assert_eq!(
        l.create_item(A, 3, 1, title, 100, "desc".to_string()),
        Err(CallError::Program(ErrorCode::TitleIsTooLong))
    );
    // Checked before the transfer: no tax was withheld.
    assert_eq!(l.balance_of(A), before);
    let ok_title: String = "y".repeat(80);
    assert_eq!(l.create_item(A, 3, 1, ok_title, 100, "desc".to_string()), Ok(()));
}

#[test]
fn a_description_of_1025_characters_is_rejected() {
    let mut l = commune_with_member();
    let description: String = "x".repeat(1025);
    assert_eq!(
        l.create_item(A, 3, 1, "lamp".to_string(), 100, description),
        Err(CallError::Program(ErrorCode::DescriptionIsTooLong))
    );
    let ok_description: String = "y".repeat(1024);
    assert_eq!(
        l.create_item(A, 3, 1, "lamp".to_string(), 100, ok_description),
        Ok(())
    );
}

#[test]
fn the_bound_counts_characters_not_bytes() {
    let mut l = commune_with_member();
    // Eighty characters of four bytes each: within the character bound.
    let title: String = "\u{1F600}".repeat(80);
    assert_eq!(l.create_item(A, 3, 1, title, 100, "desc".to_string()), Ok(()));
}

#[test]
fn listing_the_same_id_twice_collides() {
    let mut l = commune_with_member();
    assert_eq!(l.create_item(A, 3, 1, "a".to_string(), 100, "d".to_string()), Ok(()));
    assert_eq!(
        l.create_item(A, 4, 1, "b".to_string(), 200, "e".to_string()),
        Err(CallError::RecordExists)
    );
    assert_eq!(l.commune.unwrap().item_count, 1);
}

#[test]
fn a_seller_who_cannot_pay_the_tax_cannot_list() {
    let mut l = Ledger::new();
    assert_eq!(l.initialize_market(250, 0, 3), Ok(()));
    assert!(l.fund(A, 2));
    assert_eq!(l.join_commune(A, 1), Ok(()));
    assert_eq!(
        l.create_item(A, 3, 1, "lamp".to_string(), 100, "desc".to_string()),
        Err(CallError::Program(ErrorCode::SomethingWrong))
    );
    assert!(l.items.get(&1).is_none());
    assert_eq!(l.commune.unwrap().item_count, 0);
}

#[test]
fn only_members_may_buy() {
    let mut l = commune_with_member();
    assert_eq!(l.create_item(A, 3, 1, "a".to_string(), 100, "d".to_string()), Ok(()));
    assert!(l.fund(STRANGER, 1000));
    assert_eq!(
        l.create_market_sale(STRANGER, 1, A),
        Err(CallError::Program(ErrorCode::InvalidAddress))
    );
}

#[test]
fn buying_a_missing_item_fails() {
    let mut l = commune_with_member();
    assert_eq!(l.create_market_sale(A, 1, A), Err(CallError::RecordMissing));
}

#[test]
fn a_sold_item_cannot_be_bought_again() {
    let mut l = commune_with_member();
    assert!(l.fund(B, 1000));
    assert_eq!(l.join_commune(B, 2), Ok(()));
    assert_eq!(l.create_item(A, 3, 1, "a".to_string(), 100, "d".to_string()), Ok(()));
    assert_eq!(l.create_market_sale(B, 1, A), Ok(()));
    let b_before = l.balance_of(B);
    assert_eq!(
        l.create_market_sale(B, 1, A),
        Err(CallError::Program(ErrorCode::ItemSold))
    );
    assert_eq!(l.balance_of(B), b_before);
    assert_eq!(l.commune.unwrap().item_count, 0);
}

#[test]
fn funds_cannot_be_redirected_to_a_wrong_seller() {
    let mut l = commune_with_member();
    assert!(l.fund(B, 1000));
    assert_eq!(l.join_commune(B, 2), Ok(()));
    assert_eq!(l.create_item(A, 3, 1, "a".to_string(), 100, "d".to_string()), Ok(()));
    assert_eq!(
        l.create_market_sale(B, 1, STRANGER),
        Err(CallError::Program(ErrorCode::WrongSeller))
    );
    assert!(!l.items.get(&1).unwrap().sold);
}

#[test]
fn a_buyer_who_cannot_pay_fails_the_transfer() {
    let mut l = commune_with_member();
    assert!(l.fund(B, 110));
    assert_eq!(l.join_commune(B, 2), Ok(()));
    assert_eq!(l.create_item(A, 3, 1, "a".to_string(), 100, "d".to_string()), Ok(()));
    // B holds 100 after the fee; the listed price is 103.
    assert_eq!(
        l.create_market_sale(B, 1, A),
        Err(CallError::Program(ErrorCode::SomethingWrong))
    );
    assert!(!l.items.get(&1).unwrap().sold);
    assert_eq!(l.commune.unwrap().item_count, 1);
}

#[test]
fn a_holding_cannot_receive_beyond_its_capacity() {
    let mut l = Ledger::new();
    assert!(l.fund(A, u64::MAX));
    assert!(!l.fund(A, 1));
    assert_eq!(l.balance_of(A), u64::MAX);
}

#[test]
fn a_member_may_buy_their_own_item_and_keep_their_balance() {
    let mut l = commune_with_member();
    assert_eq!(l.create_item(A, 3, 1, "a".to_string(), 100, "d".to_string()), Ok(()));
    let before = l.balance_of(A);
    assert_eq!(l.create_market_sale(A, 1, A), Ok(()));
    assert_eq!(l.balance_of(A), before);
    let it = l.items.get(&1).unwrap();
    assert!(it.sold);
    assert_eq!(it.buyer, Some(A));
    assert_eq!(l.commune.unwrap().item_count, 0);
}

#[test]
fn only_members_may_propose() {
    let mut l = commune_with_member();
    assert_eq!(
        l.add_proposal(STRANGER, 9, 1, "t".to_string(), "d".to_string(), 5, 1000, 900),
        Err(CallError::Program(ErrorCode::InvalidAddress))
    );
    assert!(l.proposals.get(&1).is_none());
}

#[test]
fn proposal_records_its_fields() {
    let mut l = commune_with_member();
    assert_eq!(
        l.add_proposal(A, 9, 1, "well".to_string(), "dig".to_string(), 5, 1000, 900),
        Ok(())
    );
    let p = l.proposals.get(&1).unwrap();
    assert_eq!(p.id, 1);
    assert_eq!(p.owner, A);
    assert_eq!(p.created_at, 900);
    assert_eq!(p.end_time_stamp, 1000);
    assert_eq!(p.price, 5);
    assert_eq!(p.vote_yes, 0);
    assert_eq!(p.vote_no, 0);
    assert!(!p.approved);
    assert_eq!(l.commune.unwrap().total_proposal_count, 1);
}

#[test]
fn voting_on_a_missing_proposal_fails() {
    let mut l = commune_with_member();
    assert_eq!(l.vote_for_proposal(A, 61, 1, true, 950), Err(CallError::RecordMissing));
}

#[test]
fn only_members_may_vote() {
    let mut l = commune_with_member();
    assert_eq!(
        l.add_proposal(A, 9, 1, "t".to_string(), "d".to_string(), 5, 1000, 900),
        Ok(())
    );
    assert_eq!(
        l.vote_for_proposal(STRANGER, 61, 1, true, 950),
        Err(CallError::Program(ErrorCode::InvalidAddress))
    );
}

#[test]
fn a_vote_after_the_window_touches_no_tally() {
    let mut l = commune_with_member();
    assert_eq!(
        l.add_proposal(A, 9, 1, "t".to_string(), "d".to_string(), 5, 1000, 900),
        Ok(())
    );
    // The window closes strictly after the end timestamp: a vote exactly
    // at the end still counts, one past it does not.
    assert_eq!(
        l.vote_for_proposal(A, 61, 1, true, 1001),
        Err(CallError::Program(ErrorCode::ProposalHasEnded))
    );
    assert_eq!(l.proposals.get(&1).unwrap().vote_yes, 0);
    assert_eq!(l.votes.len(), 0);
    assert_eq!(l.vote_for_proposal(A, 61, 1, true, 1000), Ok(()));
    assert_eq!(l.proposals.get(&1).unwrap().vote_yes, 1);
}

#[test]
fn only_the_owner_may_approve() {
    let mut l = commune_with_member();
    assert!(l.fund(B, 1000));
    assert_eq!(l.join_commune(B, 2), Ok(()));
    assert_eq!(
        l.add_proposal(A, 9, 1, "t".to_string(), "d".to_string(), 5, 1000, 900),
        Ok(())
    );
    assert_eq!(l.vote_for_proposal(A, 61, 1, true, 950), Ok(()));
    assert_eq!(
        l.approve_proposal(B, 1, 1001),
        Err(CallError::Program(ErrorCode::InvalidAddress))
    );
}

#[test]
fn approval_before_the_deadline_fails_whatever_the_tally() {
    let mut l = commune_with_member();
    assert_eq!(
        l.add_proposal(A, 9, 1, "t".to_string(), "d".to_string(), 5, 1000, 900),
        Ok(())
    );
    assert_eq!(l.vote_for_proposal(A, 61, 1, true, 950), Ok(()));
    // Exactly at the end timestamp the window is still open.
    assert_eq!(
        l.approve_proposal(A, 1, 1000),
        Err(CallError::Program(ErrorCode::Voting))
    );
    assert!(!l.proposals.get(&1).unwrap().approved);
}

#[test]
fn a_pool_that_cannot_pay_fails_the_payout() {
    let mut l = Ledger::new();
    assert_eq!(l.initialize_market(250, 10, 3), Ok(()));
    assert!(l.fund(A, 10));
    assert_eq!(l.join_commune(A, 1), Ok(()));
    // The pool holds the single join fee of 10; the proposal asks 50.
    assert_eq!(
        l.add_proposal(A, 9, 1, "t".to_string(), "d".to_string(), 50, 1000, 900),
        Ok(())
    );
    assert_eq!(l.vote_for_proposal(A, 61, 1, true, 950), Ok(()));
    assert_eq!(
        l.approve_proposal(A, 1, 1001),
        Err(CallError::Program(ErrorCode::SomethingWrong))
    );
    assert_eq!(l.commune_balance, 10);
    assert!(!l.proposals.get(&1).unwrap().approved);
}
