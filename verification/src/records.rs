//! The five record kinds of the store, their field layout constants, and
//! the size budget each kind must fit.
//!
//! Every record is encoded into a pre-allocated storage slot of fixed
//! maximum size. Integer, boolean and identity fields have fixed widths; a
//! string field is length-prefixed and bounded to a declared maximum
//! character count (titles to 80 characters, descriptions to 1024), with
//! four bytes budgeted per character. The length checks performed at
//! record creation are exactly what keeps every record inside its slot.

use vstd::prelude::*;

verus! {

/// An identity is modelled as the numeric key of its 32-byte on-store
/// form; the engine only ever compares identities for equality and uses
/// them as discriminating key material for derived addresses.
pub type Identity = u64;

/// Width of a fixed u64 field in a record slot.
pub const U64_LEN: usize = 8;
/// Width of the record-kind discriminator that precedes every record.
pub const DISCRIMINATOR_LENGTH: usize = 8;
/// Width of the stored derivation nonce.
pub const BUMP_LENGTH: usize = 1;
/// Width of a boolean field.
pub const BOOL_LENGTH: usize = 1;
/// Width of an identity in its on-store form.
pub const PUBKEY_LENGTH: usize = 32;
/// Width of the length prefix of an encoded string field.
pub const STRING_LENGTH_PREFIX: usize = 4;
/// Width of a timestamp field.
pub const TIMESTAMP_LENGTH: usize = 8;
/// Bytes budgeted per character of an encoded string.
pub const BYTES_PER_CHAR: usize = 4;
/// Maximum characters of a title.
pub const MAX_TITLE_CHARS: usize = 80;
/// Maximum characters of a description.
pub const MAX_DESCRIPTION_CHARS: usize = 1024;

/// The singleton record of the commune: its fixed parameters and its
/// aggregate counters.
#[derive(Clone, Copy, PartialEq, Eq, Structural, Debug)]
pub struct Commune {
    /// The fee an identity transfers to the commune's holding when it
    /// joins; fixed at initialization.
    pub fee: u64,
    /// The derivation nonce recorded when the record was created.
    pub bump: u8,
    /// The sales tax, in percent, withheld when an item is listed; fixed
    /// at initialization and never above 100.
    pub tax: u64,
    /// The number of items currently open (listed and not yet sold).
    pub item_count: u64,
    /// The number of proposals ever created.
    pub total_proposal_count: u64,
}

/// The membership record of one identity. Its address is derived from the
/// identity, so there is at most one per identity.
#[derive(Clone, Copy, PartialEq, Eq, Structural, Debug)]
pub struct Approver {
    /// Whether the identity is an approved member; once true, this engine
    /// never revokes it.
    pub approval: bool,
    /// The derivation nonce recorded when the record was created.
    pub bump: u8,
}

/// A marketplace listing. Its address is derived from its numeric id.
#[derive(Debug)]
pub struct Item {
    /// The numeric id the item's address is derived from.
    pub id: u64,
    /// The member who listed the item.
    pub seller: Identity,
    /// The buyer, absent until the item is sold.
    pub buyer: Option<Identity>,
    /// At most [`MAX_TITLE_CHARS`] characters.
    pub title: String,
    /// At most [`MAX_DESCRIPTION_CHARS`] characters.
    pub description: String,
    /// The listed price a buyer pays, tax included.
    pub price: u64,
    /// The tax withheld from the seller when the item was listed.
    pub tax: u64,
    /// False until the item is sold; the transition to true is
    /// irreversible.
    pub sold: bool,
    /// The derivation nonce recorded when the record was created.
    pub bump: u8,
}

/// A governance proposal. Its address is derived from its numeric id.
#[derive(Debug)]
pub struct Proposal {
    /// The numeric id the proposal's address is derived from.
    pub id: u64,
    /// The member who created the proposal and receives the payout.
    pub owner: Identity,
    /// The clock reading at creation.
    pub created_at: u64,
    /// At most [`MAX_TITLE_CHARS`] characters.
    pub title: String,
    /// At most [`MAX_DESCRIPTION_CHARS`] characters.
    pub description: String,
    /// The amount paid from the commune's pooled holding on approval.
    pub price: u64,
    /// Yes votes received during the voting window.
    pub vote_yes: u64,
    /// No votes received during the voting window.
    pub vote_no: u64,
    /// The derivation nonce recorded when the record was created.
    pub bump: u8,
    /// The end of the voting window; votes are accepted while the clock
    /// reads at most this value, approval only strictly after it.
    pub end_time_stamp: u64,
    /// False until the payout is made; the transition to true is terminal.
    pub approved: bool,
}

/// One cast vote. Its address is derived from the proposal id and the
/// voter together, so a given pair can hold at most one vote record.
#[derive(Clone, Copy, PartialEq, Eq, Structural, Debug)]
pub struct Vote {
    /// The proposal voted on.
    pub proposal_id: u64,
    /// True for a yes vote, false for a no vote.
    pub vote: bool,
    /// The member who cast the vote.
    pub voter: Identity,
    /// The clock reading when the vote was cast.
    pub created_at: u64,
    /// The derivation nonce recorded when the record was created.
    pub bump: u8,
}

/// The slot size pre-allocated for an [`Approver`] record.
pub const APPROVER_SLOT: usize = 10;
/// The slot size pre-allocated for an [`Item`] record.
pub const ITEM_SLOT: usize = 4522;
/// The slot size pre-allocated for a [`Proposal`] record.
pub const PROPOSAL_SLOT: usize = 4514;
/// The slot size pre-allocated for a [`Vote`] record.
pub const VOTE_SLOT: usize = 58;

/// The encoded size of a string field with the given character count:
/// a length prefix plus the per-character byte budget.
pub open spec fn string_encoded_len(chars: nat) -> int {
    STRING_LENGTH_PREFIX + BYTES_PER_CHAR * chars
}

/// The encoded size of an [`Approver`] record; every field is fixed.
pub open spec fn approver_encoded_len() -> int {
    DISCRIMINATOR_LENGTH + BOOL_LENGTH + BUMP_LENGTH
}

/// The encoded size of a [`Vote`] record; every field is fixed.
pub open spec fn vote_encoded_len() -> int {
    DISCRIMINATOR_LENGTH + U64_LEN + BOOL_LENGTH + PUBKEY_LENGTH + TIMESTAMP_LENGTH + BUMP_LENGTH
}

/// The worst-case encoded size of an [`Item`] record.
pub open spec fn item_encoded_len(it: Item) -> int {
    DISCRIMINATOR_LENGTH + U64_LEN + PUBKEY_LENGTH + PUBKEY_LENGTH
        + string_encoded_len(it.title@.len()) + string_encoded_len(it.description@.len()) + U64_LEN
        + U64_LEN + BOOL_LENGTH + BUMP_LENGTH
}

/// The worst-case encoded size of a [`Proposal`] record.
pub open spec fn proposal_encoded_len(p: Proposal) -> int {
    DISCRIMINATOR_LENGTH + U64_LEN + PUBKEY_LENGTH + TIMESTAMP_LENGTH
        + string_encoded_len(p.title@.len()) + string_encoded_len(p.description@.len()) + U64_LEN
        + U64_LEN + U64_LEN + BUMP_LENGTH + TIMESTAMP_LENGTH + BOOL_LENGTH
}

/// An item whose title and description respect the declared character
/// bounds fits the slot pre-allocated for its kind.
pub proof fn lemma_item_fits_slot(it: Item)
    requires
        it.title@.len() <= MAX_TITLE_CHARS,
        it.description@.len() <= MAX_DESCRIPTION_CHARS,
    ensures
        item_encoded_len(it) <= ITEM_SLOT,
{
}

/// A proposal whose title and description respect the declared character
/// bounds fits the slot pre-allocated for its kind.
pub proof fn lemma_proposal_fits_slot(p: Proposal)
    requires
        p.title@.len() <= MAX_TITLE_CHARS,
        p.description@.len() <= MAX_DESCRIPTION_CHARS,
    ensures
        proposal_encoded_len(p) <= PROPOSAL_SLOT,
{
}

} // verus!
