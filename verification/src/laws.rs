//! Engine-wide laws, stated and proved over the specification-level
//! transition functions that the operations' contracts are written with.

use vstd::prelude::*;

use crate::errors::CallError;
use crate::errors::ErrorCode;
use crate::ledger::apply_operation;
use crate::ledger::approve_proposal_spec;
use crate::ledger::create_item_spec;
use crate::ledger::create_market_sale_spec;
use crate::ledger::holding_balance;
use crate::ledger::spec_has_vote;
use crate::ledger::spec_is_approved;
use crate::ledger::spec_tax;
use crate::ledger::vote_for_proposal_spec;
use crate::ledger::wf_view;
use crate::ledger::LedgerView;
use crate::ledger::Operation;
use crate::records::approver_encoded_len;
use crate::records::item_encoded_len;
use crate::records::lemma_item_fits_slot;
use crate::records::lemma_proposal_fits_slot;
use crate::records::proposal_encoded_len;
use crate::records::vote_encoded_len;
use crate::records::Identity;
use crate::records::APPROVER_SLOT;
use crate::records::ITEM_SLOT;
use crate::records::PROPOSAL_SLOT;
use crate::records::VOTE_SLOT;

verus! {

/// Every record a well-formed ledger stores fits the slot pre-allocated
/// for its kind: the length checks made at creation are exactly what
/// keeps the string-bearing kinds inside their budget, and the fixed
/// kinds never exceed theirs.
pub proof fn lemma_stored_records_fit_their_slots(s: LedgerView, k: u64)
    requires
        wf_view(s),
    ensures
        s.items.contains_key(k) ==> item_encoded_len(s.items[k]) <= ITEM_SLOT,
        s.proposals.contains_key(k) ==> proposal_encoded_len(s.proposals[k]) <= PROPOSAL_SLOT,
        approver_encoded_len() <= APPROVER_SLOT,
        vote_encoded_len() <= VOTE_SLOT,
{
    if s.items.contains_key(k) {
        lemma_item_fits_slot(s.items[k]);
    }
    if s.proposals.contains_key(k) {
        lemma_proposal_fits_slot(s.proposals[k]);
    }
}

/// An item's `sold` flag is irreversible: once an item record is sold,
/// no operation of the engine — whatever its inputs — removes the record
/// or clears the flag, and the recorded buyer stands.
pub proof fn lemma_sold_is_terminal(s: LedgerView, op: Operation, item_id: u64)
    requires
        s.items.contains_key(item_id),
        s.items[item_id].sold,
    ensures
        ({
            let (s1, _) = apply_operation(s, op);
            &&& s1.items.contains_key(item_id)
            &&& s1.items[item_id] == s.items[item_id]
        }),
{
}

/// A proposal's `approved` flag is terminal: once a proposal record is
/// approved, no operation of the engine — whatever its inputs — removes
/// the record or clears the flag.
pub proof fn lemma_approved_is_terminal(s: LedgerView, op: Operation, proposal_id: u64)
    requires
        s.proposals.contains_key(proposal_id),
        s.proposals[proposal_id].approved,
    ensures
        ({
            let (s1, _) = apply_operation(s, op);
            &&& s1.proposals.contains_key(proposal_id)
            &&& s1.proposals[proposal_id].approved
        }),
{
}

/// Membership is never revoked by this engine: an identity whose
/// approval record has its flag set keeps it across every operation.
pub proof fn lemma_approval_is_never_revoked(s: LedgerView, op: Operation, identity: Identity)
    requires
        spec_is_approved(s, identity),
    ensures
        spec_is_approved(apply_operation(s, op).0, identity),
{
}

/// Listing an item withholds exactly the floor of
/// `price * tax_percent / 100` — integer truncation, never rounding up —
/// and records the item's listed price as exactly the asked price plus
/// that tax, whenever a well-formed ledger accepts the listing and the
/// taxed price fits the price field.
pub proof fn lemma_listing_price_adds_floor_tax(
    s: LedgerView,
    seller: Identity,
    item_bump: u8,
    item_id: u64,
    title: String,
    price: u64,
    description: String,
)
    requires
        wf_view(s),
        create_item_spec(s, seller, item_bump, item_id, title, price, description).1 is Ok,
        price + spec_tax(price, s.commune.unwrap().tax) <= u64::MAX,
    ensures
        ({
            let (s1, _) = create_item_spec(s, seller, item_bump, item_id, title, price, description);
            let percent = s.commune.unwrap().tax;
            let tax = spec_tax(price, percent);
            &&& tax == (price * percent) / 100
            &&& s1.items[item_id].tax == tax
            &&& s1.items[item_id].price == price + tax
        }),
{
    let percent = s.commune.unwrap().tax;
    assert((price * percent) / 100 <= price) by (nonlinear_arith)
        requires
            percent <= 100,
    ;
}

/// Purchasing an item whose `sold` flag is already set fails with the
/// "already sold" error and changes nothing, for every approved buyer
/// and every claimed seller: a sale is irreversible and there is no
/// re-sale.
pub proof fn lemma_sold_item_cannot_be_resold(
    s: LedgerView,
    buyer: Identity,
    item_id: u64,
    claimed_seller: Identity,
)
    requires
        s.commune is Some,
        s.items.contains_key(item_id),
        s.items[item_id].sold,
        spec_is_approved(s, buyer),
    ensures
        create_market_sale_spec(s, buyer, item_id, claimed_seller) == (
            s,
            Err::<(), CallError>(CallError::Program(ErrorCode::ItemSold)),
        ),
{
}

/// Approving a proposal whose voting window is still open — the clock
/// not strictly past its end timestamp — fails with the "voting in
/// progress" error and changes nothing, regardless of the vote tally.
pub proof fn lemma_no_approval_while_voting_open(
    s: LedgerView,
    claimed_owner: Identity,
    proposal_id: u64,
    now: u64,
)
    requires
        s.commune is Some,
        s.proposals.contains_key(proposal_id),
        claimed_owner == s.proposals[proposal_id].owner,
        now <= s.proposals[proposal_id].end_time_stamp,
    ensures
        approve_proposal_spec(s, claimed_owner, proposal_id, now) == (
            s,
            Err::<(), CallError>(CallError::Program(ErrorCode::Voting)),
        ),
{
}

/// The payout of a proposal happens exactly once: after an approval
/// succeeds — moving the requested amount from the pool to the owner's
/// holding — a second approval of the same proposal, at any time past
/// the voting window, fails with the "already approved" error and moves
/// nothing.
pub proof fn lemma_approval_pays_out_once(
    s: LedgerView,
    claimed_owner: Identity,
    proposal_id: u64,
    now1: u64,
    now2: u64,
)
    requires
        approve_proposal_spec(s, claimed_owner, proposal_id, now1).1 is Ok,
        now2 > s.proposals[proposal_id].end_time_stamp,
    ensures
        ({
            let (s1, _) = approve_proposal_spec(s, claimed_owner, proposal_id, now1);
            let (s2, r2) = approve_proposal_spec(s1, claimed_owner, proposal_id, now2);
            let p = s.proposals[proposal_id];
            &&& r2 == Err::<(), CallError>(CallError::Program(ErrorCode::Approved))
            &&& s2 == s1
            &&& s1.pool == s.pool - p.price
            &&& holding_balance(s1.holdings, p.owner) == holding_balance(s.holdings, p.owner)
                + p.price
        }),
{
}

/// Whenever a committed vote record for a pair of proposal id and voter
/// exists, any vote attempt by that pair on that proposal — whatever its
/// value, nonce or time — collides with the committed record at the
/// address derived from the pair, is rejected, and changes nothing.
pub proof fn lemma_recorded_vote_blocks_any_retry(
    s: LedgerView,
    voter: Identity,
    vote_bump: u8,
    proposal_id: u64,
    vote: bool,
    now: u64,
)
    requires
        s.proposals.contains_key(proposal_id),
        spec_has_vote(s.votes, proposal_id, voter),
    ensures
        vote_for_proposal_spec(s, voter, vote_bump, proposal_id, vote, now) == (
            s,
            Err::<(), CallError>(CallError::RecordExists),
        ),
{
}

/// A given pair of proposal id and voter commits at most one vote-tally
/// increment: once a vote by `voter` on a proposal has been committed, a
/// second vote attempt by the same voter on the same proposal — whatever
/// its value, nonce or time — collides with the committed record, is
/// rejected, and changes nothing.
pub proof fn lemma_one_vote_per_pair(
    s: LedgerView,
    voter: Identity,
    bump1: u8,
    bump2: u8,
    proposal_id: u64,
    vote1: bool,
    vote2: bool,
    now1: u64,
    now2: u64,
)
    requires
        vote_for_proposal_spec(s, voter, bump1, proposal_id, vote1, now1).1 is Ok,
    ensures
        ({
            let (s1, _) = vote_for_proposal_spec(s, voter, bump1, proposal_id, vote1, now1);
            let (s2, r2) = vote_for_proposal_spec(s1, voter, bump2, proposal_id, vote2, now2);
            &&& r2 == Err::<(), CallError>(CallError::RecordExists)
            &&& s2 == s1
        }),
{
    let (s1, _) = vote_for_proposal_spec(s, voter, bump1, proposal_id, vote1, now1);
    let n = s.votes.len() as int;
    assert(s1.votes[n].proposal_id == proposal_id && s1.votes[n].voter == voter);
    assert(spec_has_vote(s1.votes, proposal_id, voter));
    lemma_recorded_vote_blocks_any_retry(s1, voter, bump2, proposal_id, vote2, now2);
}

} // verus!
