//! The error taxonomy of the engine.
//!
//! Every failed precondition surfaces verbatim to the caller; no error is
//! ever downgraded or swallowed, and a returned error means the call
//! committed nothing.

use vstd::prelude::*;

verus! {

/// The rule violations an operation can signal, surfaced verbatim to the
/// caller when one of its precondition checks fails.
#[derive(Clone, Copy, PartialEq, Eq, Structural, Debug)]
pub enum ErrorCode {
    /// A purchase named a seller other than the one the item records.
    WrongSeller,
    /// A balance transfer could not be performed (insufficient source
    /// balance, or the destination is not a valid transfer target).
    SomethingWrong,
    /// The caller is not an approved member of the commune.
    InvalidAddress,
    /// A title exceeds the maximum of 80 characters.
    TitleIsTooLong,
    /// A description exceeds the maximum of 1024 characters.
    DescriptionIsTooLong,
    /// The item was already sold; a sale is irreversible.
    ItemSold,
    /// The proposal's deadline passed without a yes-majority.
    Rejected,
    /// The proposal's voting window is still open, so it cannot be
    /// approved yet.
    Voting,
    /// The proposal's voting window has closed, so no vote can be cast.
    ProposalHasEnded,
    /// The proposal was already approved; a payout happens at most once.
    Approved,
}

/// The failure of a whole call: either the engine refused it by one of its
/// rules, or the record store could not honour the addressing the call
/// declared.
#[derive(Clone, Copy, PartialEq, Eq, Structural, Debug)]
pub enum CallError {
    /// One of the engine's own precondition checks failed.
    Program(ErrorCode),
    /// A record was to be created at an address that is already occupied
    /// (for example a second membership for the same identity, or a second
    /// vote by the same voter on the same proposal).
    RecordExists,
    /// No record exists at the address derived from the declared key parts.
    RecordMissing,
}

} // verus!
