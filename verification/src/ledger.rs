//! The record store and the state-transition engine over it.
//!
//! A [`Ledger`] holds the five record kinds in stores keyed by exactly the
//! key material their addresses are derived from: the commune singleton,
//! approvers by identity, items and proposals by numeric id, and votes by
//! the pair of proposal id and voter. Looking a record up therefore
//! recomputes its address from the operation's declared key parts, and no
//! caller can reach another record's slot by supplying an arbitrary
//! address. The ledger also carries the holdings the transfer primitive
//! moves balance between: one per identity, and the commune's pooled
//! holding.
//!
//! Every public operation is one atomic transition: it checks all its
//! preconditions against the state it was invoked on, and either commits
//! every record mutation and transfer it makes, or returns an error having
//! changed nothing. Each operation's contract says exactly that, by
//! equating the operation's effect with a specification-level transition
//! function over the ledger's mathematical view.

use std::collections::HashMap;
use vstd::prelude::*;
use vstd::string::StrSliceExecFns;

use crate::errors::CallError;
use crate::errors::ErrorCode;
use crate::records::Approver;
use crate::records::Commune;
use crate::records::Identity;
use crate::records::Item;
use crate::records::Proposal;
use crate::records::Vote;
use crate::records::MAX_DESCRIPTION_CHARS;
use crate::records::MAX_TITLE_CHARS;

verus! {

/// The mathematical view of a [`Ledger`]: each store as a map from its
/// discriminating key material to the record held there, the vote store
/// as the sequence of committed vote records, and the balances.
#[verifier::ext_equal]
pub struct LedgerView {
    /// The commune singleton record, absent until initialization.
    pub commune: Option<Commune>,
    /// The commune's pooled holding: join fees and sales taxes flow in,
    /// approved proposal payouts flow out.
    pub pool: u64,
    /// Membership records, keyed by the identity they were derived from.
    pub approvers: Map<Identity, Approver>,
    /// Item records, keyed by the numeric id they were derived from.
    pub items: Map<u64, Item>,
    /// Proposal records, keyed by the numeric id they were derived from.
    pub proposals: Map<u64, Proposal>,
    /// Committed vote records, in the order they were cast.
    pub votes: Seq<Vote>,
    /// The per-identity holdings the transfer primitive moves balance
    /// between.
    pub holdings: Map<Identity, u64>,
}

/// The balance of an identity's holding; an identity without a holding
/// has balance zero.
pub open spec fn holding_balance(m: Map<Identity, u64>, who: Identity) -> u64 {
    if m.contains_key(who) {
        m[who]
    } else {
        0u64
    }
}

/// The map after `amount` is credited to `who`'s holding.
pub open spec fn credit(m: Map<Identity, u64>, who: Identity, amount: u64) -> Map<Identity, u64> {
    m.insert(who, (holding_balance(m, who) + amount) as u64)
}

/// The map after `amount` is debited from `who`'s holding.
pub open spec fn debit(m: Map<Identity, u64>, who: Identity, amount: u64) -> Map<Identity, u64> {
    m.insert(who, (holding_balance(m, who) - amount) as u64)
}

/// Whether the transfer primitive accepts moving `amount` from `from` to
/// `to`: the source balance must suffice, and the destination must be
/// able to receive the amount.
pub open spec fn transfer_admissible(
    m: Map<Identity, u64>,
    from: Identity,
    to: Identity,
    amount: u64,
) -> bool {
    &&& holding_balance(m, from) >= amount
    &&& (from != to ==> holding_balance(m, to) + amount <= u64::MAX)
}

/// The holdings after an admissible transfer of `amount` from `from` to
/// `to`; a transfer to oneself moves nothing.
pub open spec fn transfer_applied(
    m: Map<Identity, u64>,
    from: Identity,
    to: Identity,
    amount: u64,
) -> Map<Identity, u64> {
    if from == to {
        m
    } else {
        credit(debit(m, from, amount), to, amount)
    }
}

/// Whether `identity` holds an approval record with its flag set; absence
/// of a record means "not approved", not an error.
pub open spec fn spec_is_approved(s: LedgerView, identity: Identity) -> bool {
    s.approvers.contains_key(identity) && s.approvers[identity].approval
}

/// The sales tax withheld when listing at `price` under `tax_percent`:
/// the floor of `price * tax_percent / 100`, in the same base unit as the
/// price.
pub open spec fn spec_tax(price: u64, tax_percent: u64) -> u64 {
    ((price * tax_percent) / 100) as u64
}

/// The ids of the items currently open: listed and not yet sold.
pub open spec fn open_items(items: Map<u64, Item>) -> Set<u64> {
    items.dom().filter(|k: u64| !items[k].sold)
}

/// Whether a vote record for the pair of `proposal_id` and `voter` has
/// been committed; the pair is the key material of a vote's derived
/// address, so at most one such record can ever exist.
pub open spec fn spec_has_vote(votes: Seq<Vote>, proposal_id: u64, voter: Identity) -> bool {
    exists|i: int|
        0 <= i < votes.len() && votes[i].proposal_id == proposal_id && votes[i].voter == voter
}

/// Well-formedness of a ledger's view, established by [`Ledger::new`] and
/// preserved by every operation:
/// before initialization no item or proposal record exists; the tax
/// percent is a valid percentage; the commune's open item count equals
/// the number of unsold items; its proposal counter equals the number of
/// proposal records; every record sits at the address derived from its
/// own key material; stored titles and descriptions respect the bounds
/// their slots were budgeted for; and no two vote records share a
/// proposal id and voter.
pub open spec fn wf_view(s: LedgerView) -> bool {
    &&& (s.commune is None ==> s.items == Map::<u64, Item>::empty() && s.proposals == Map::<
        u64,
        Proposal,
    >::empty())
    &&& (match s.commune {
        Some(c) => {
            &&& c.tax <= 100
            &&& c.item_count == open_items(s.items).len()
            &&& c.total_proposal_count == s.proposals.dom().len()
        },
        None => true,
    })
    &&& (forall|k: u64| #[trigger] s.items.contains_key(k) ==> s.items[k].id == k)
    &&& (forall|k: u64| #[trigger]
        s.items.contains_key(k) ==> s.items[k].title@.len() <= MAX_TITLE_CHARS
            && s.items[k].description@.len() <= MAX_DESCRIPTION_CHARS)
    &&& (forall|k: u64| #[trigger] s.proposals.contains_key(k) ==> s.proposals[k].id == k)
    &&& (forall|k: u64| #[trigger]
        s.proposals.contains_key(k) ==> s.proposals[k].title@.len() <= MAX_TITLE_CHARS
            && s.proposals[k].description@.len() <= MAX_DESCRIPTION_CHARS)
    &&& (forall|i: int, j: int|
        0 <= i < j < s.votes.len() ==> !(#[trigger] s.votes[i].proposal_id
            == #[trigger] s.votes[j].proposal_id && s.votes[i].voter == s.votes[j].voter))
}

/// The transition made by [`Ledger::initialize_market`]: creates the
/// commune singleton with the given parameters and zeroed counters, or
/// fails if the record already exists.
pub open spec fn initialize_market_spec(s: LedgerView, commune_bump: u8, fee: u64, tax: u64) -> (
    LedgerView,
    Result<(), CallError>,
) {
    if s.commune is Some {
        (s, Err(CallError::RecordExists))
    } else {
        (
            LedgerView {
                commune: Some(
                    Commune { fee, bump: commune_bump, tax, item_count: 0, total_proposal_count: 0 },
                ),
                ..s
            },
            Ok(()),
        )
    }
}

/// The transition made by [`Ledger::join_commune`]: transfers the join
/// fee from the member's holding to the pool and creates the member's
/// approval record, or fails without effect.
pub open spec fn join_commune_spec(s: LedgerView, member: Identity, approver_bump: u8) -> (
    LedgerView,
    Result<(), CallError>,
) {
    match s.commune {
        None => (s, Err(CallError::RecordMissing)),
        Some(c) => if s.approvers.contains_key(member) {
            (s, Err(CallError::RecordExists))
        } else if holding_balance(s.holdings, member) < c.fee || s.pool + c.fee > u64::MAX {
            (s, Err(CallError::Program(ErrorCode::SomethingWrong)))
        } else {
            (
                LedgerView {
                    holdings: debit(s.holdings, member, c.fee),
                    pool: (s.pool + c.fee) as u64,
                    approvers: s.approvers.insert(
                        member,
                        Approver { approval: true, bump: approver_bump },
                    ),
                    ..s
                },
                Ok(()),
            )
        },
    }
}

/// The transition made by [`Ledger::create_item`]: withholds the sales
/// tax from the seller into the pool and creates the item record, listed
/// at the price plus the tax, or fails without effect.
pub open spec fn create_item_spec(
    s: LedgerView,
    seller: Identity,
    item_bump: u8,
    item_id: u64,
    title: String,
    price: u64,
    description: String,
) -> (LedgerView, Result<(), CallError>) {
    match s.commune {
        None => (s, Err(CallError::RecordMissing)),
        Some(c) => if s.items.contains_key(item_id) {
            (s, Err(CallError::RecordExists))
        } else if !spec_is_approved(s, seller) {
            (s, Err(CallError::Program(ErrorCode::InvalidAddress)))
        } else if title@.len() > MAX_TITLE_CHARS {
            (s, Err(CallError::Program(ErrorCode::TitleIsTooLong)))
        } else if description@.len() > MAX_DESCRIPTION_CHARS {
            (s, Err(CallError::Program(ErrorCode::DescriptionIsTooLong)))
        } else {
            let tax = spec_tax(price, c.tax);
            if holding_balance(s.holdings, seller) < tax || s.pool + tax > u64::MAX {
                (s, Err(CallError::Program(ErrorCode::SomethingWrong)))
            } else {
                (
                    LedgerView {
                        holdings: debit(s.holdings, seller, tax),
                        pool: (s.pool + tax) as u64,
                        items: s.items.insert(
                            item_id,
                            Item {
                                id: item_id,
                                seller,
                                buyer: None,
                                title,
                                description,
                                price: (price + tax) as u64,
                                tax,
                                sold: false,
                                bump: item_bump,
                            },
                        ),
                        commune: Some(Commune { item_count: (c.item_count + 1) as u64, ..c }),
                        ..s
                    },
                    Ok(()),
                )
            }
        },
    }
}

/// The transition made by [`Ledger::create_market_sale`]: transfers the
/// item's full recorded price from the buyer to the seller and marks the
/// item sold, or fails without effect.
pub open spec fn create_market_sale_spec(
    s: LedgerView,
    buyer: Identity,
    item_id: u64,
    claimed_seller: Identity,
) -> (LedgerView, Result<(), CallError>) {
    match s.commune {
        None => (s, Err(CallError::RecordMissing)),
        Some(c) => if !s.items.contains_key(item_id) {
            (s, Err(CallError::RecordMissing))
        } else if !spec_is_approved(s, buyer) {
            (s, Err(CallError::Program(ErrorCode::InvalidAddress)))
        } else {
            let it = s.items[item_id];
            if it.sold {
                (s, Err(CallError::Program(ErrorCode::ItemSold)))
            } else if claimed_seller != it.seller {
                (s, Err(CallError::Program(ErrorCode::WrongSeller)))
            } else if !transfer_admissible(s.holdings, buyer, it.seller, it.price) {
                (s, Err(CallError::Program(ErrorCode::SomethingWrong)))
            } else {
                (
                    LedgerView {
                        holdings: transfer_applied(s.holdings, buyer, it.seller, it.price),
                        items: s.items.insert(
                            item_id,
                            Item { buyer: Some(buyer), sold: true, ..it },
                        ),
                        commune: Some(Commune { item_count: (c.item_count - 1) as u64, ..c }),
                        ..s
                    },
                    Ok(()),
                )
            }
        },
    }
}

/// The transition made by [`Ledger::add_proposal`]: creates the proposal
/// record with zeroed vote counts and counts it, or fails without
/// effect.
pub open spec fn add_proposal_spec(
    s: LedgerView,
    owner: Identity,
    proposal_bump: u8,
    proposal_id: u64,
    title: String,
    description: String,
    price: u64,
    end_time_stamp: u64,
    now: u64,
) -> (LedgerView, Result<(), CallError>) {
    match s.commune {
        None => (s, Err(CallError::RecordMissing)),
        Some(c) => if s.proposals.contains_key(proposal_id) {
            (s, Err(CallError::RecordExists))
        } else if !spec_is_approved(s, owner) {
            (s, Err(CallError::Program(ErrorCode::InvalidAddress)))
        } else if title@.len() > MAX_TITLE_CHARS {
            (s, Err(CallError::Program(ErrorCode::TitleIsTooLong)))
        } else if description@.len() > MAX_DESCRIPTION_CHARS {
            (s, Err(CallError::Program(ErrorCode::DescriptionIsTooLong)))
        } else {
            (
                LedgerView {
                    proposals: s.proposals.insert(
                        proposal_id,
                        Proposal {
                            id: proposal_id,
                            owner,
                            created_at: now,
                            title,
                            description,
                            price,
                            vote_yes: 0,
                            vote_no: 0,
                            bump: proposal_bump,
                            end_time_stamp,
                            approved: false,
                        },
                    ),
                    commune: Some(
                        Commune { total_proposal_count: (c.total_proposal_count + 1) as u64, ..c },
                    ),
                    ..s
                },
                Ok(()),
            )
        },
    }
}

/// The transition made by [`Ledger::vote_for_proposal`]: commits the vote
/// record for the pair of proposal id and voter and increments the
/// matching tally, or fails without effect — in particular, a second
/// vote by the same voter on the same proposal collides with the first
/// vote's record, and a vote after the window never touches the tally.
pub open spec fn vote_for_proposal_spec(
    s: LedgerView,
    voter: Identity,
    vote_bump: u8,
    proposal_id: u64,
    vote: bool,
    now: u64,
) -> (LedgerView, Result<(), CallError>) {
    if !s.proposals.contains_key(proposal_id) {
        (s, Err(CallError::RecordMissing))
    } else if spec_has_vote(s.votes, proposal_id, voter) {
        (s, Err(CallError::RecordExists))
    } else if !spec_is_approved(s, voter) {
        (s, Err(CallError::Program(ErrorCode::InvalidAddress)))
    } else {
        let p = s.proposals[proposal_id];
        if now > p.end_time_stamp {
            (s, Err(CallError::Program(ErrorCode::ProposalHasEnded)))
        } else {
            let tallied = if vote {
                Proposal { vote_yes: (p.vote_yes + 1) as u64, ..p }
            } else {
                Proposal { vote_no: (p.vote_no + 1) as u64, ..p }
            };
            (
                LedgerView {
                    votes: s.votes.push(
                        Vote { proposal_id, vote, voter, created_at: now, bump: vote_bump },
                    ),
                    proposals: s.proposals.insert(proposal_id, tallied),
                    ..s
                },
                Ok(()),
            )
        }
    }
}

/// The transition made by [`Ledger::approve_proposal`]: after the voting
/// window, pays the requested amount from the pool to the proposal's
/// owner and sets the terminal `approved` flag, or fails without effect.
pub open spec fn approve_proposal_spec(
    s: LedgerView,
    claimed_owner: Identity,
    proposal_id: u64,
    now: u64,
) -> (LedgerView, Result<(), CallError>) {
    match s.commune {
        None => (s, Err(CallError::RecordMissing)),
        Some(c) => if !s.proposals.contains_key(proposal_id) {
            (s, Err(CallError::RecordMissing))
        } else {
            let p = s.proposals[proposal_id];
            if claimed_owner != p.owner {
                (s, Err(CallError::Program(ErrorCode::InvalidAddress)))
            } else if now <= p.end_time_stamp {
                (s, Err(CallError::Program(ErrorCode::Voting)))
            } else if p.vote_yes <= p.vote_no {
                (s, Err(CallError::Program(ErrorCode::Rejected)))
            } else if p.approved {
                (s, Err(CallError::Program(ErrorCode::Approved)))
            } else if s.pool < p.price || holding_balance(s.holdings, p.owner) + p.price
                > u64::MAX {
                (s, Err(CallError::Program(ErrorCode::SomethingWrong)))
            } else {
                (
                    LedgerView {
                        pool: (s.pool - p.price) as u64,
                        holdings: credit(s.holdings, p.owner, p.price),
                        proposals: s.proposals.insert(
                            proposal_id,
                            Proposal { approved: true, ..p },
                        ),
                        ..s
                    },
                    Ok(()),
                )
            }
        },
    }
}

/// One invocation of the engine: an operation together with the inputs
/// its caller declared, including the clock reading the host supplied for
/// the call where the operation reads the clock.
pub enum Operation {
    /// See [`Ledger::initialize_market`].
    InitializeMarket { commune_bump: u8, fee: u64, tax: u64 },
    /// See [`Ledger::join_commune`].
    JoinCommune { member: Identity, approver_bump: u8 },
    /// See [`Ledger::create_item`].
    CreateItem {
        seller: Identity,
        item_bump: u8,
        item_id: u64,
        title: String,
        price: u64,
        description: String,
    },
    /// See [`Ledger::create_market_sale`].
    CreateMarketSale { buyer: Identity, item_id: u64, claimed_seller: Identity },
    /// See [`Ledger::add_proposal`].
    AddProposal {
        owner: Identity,
        proposal_bump: u8,
        proposal_id: u64,
        title: String,
        description: String,
        price: u64,
        end_time_stamp: u64,
        now: u64,
    },
    /// See [`Ledger::vote_for_proposal`].
    VoteForProposal { voter: Identity, vote_bump: u8, proposal_id: u64, vote: bool, now: u64 },
    /// See [`Ledger::approve_proposal`].
    ApproveProposal { claimed_owner: Identity, proposal_id: u64, now: u64 },
}

/// The engine's full step function: the transition any one invocation
/// makes, whichever operation it is.
pub open spec fn apply_operation(s: LedgerView, op: Operation) -> (
    LedgerView,
    Result<(), CallError>,
) {
    match op {
        Operation::InitializeMarket { commune_bump, fee, tax } => initialize_market_spec(
            s,
            commune_bump,
            fee,
            tax,
        ),
        Operation::JoinCommune { member, approver_bump } => join_commune_spec(
            s,
            member,
            approver_bump,
        ),
        Operation::CreateItem { seller, item_bump, item_id, title, price, description } => create_item_spec(
            s,
            seller,
            item_bump,
            item_id,
            title,
            price,
            description,
        ),
        Operation::CreateMarketSale { buyer, item_id, claimed_seller } => create_market_sale_spec(
            s,
            buyer,
            item_id,
            claimed_seller,
        ),
        Operation::AddProposal {
            owner,
            proposal_bump,
            proposal_id,
            title,
            description,
            price,
            end_time_stamp,
            now,
        } => add_proposal_spec(
            s,
            owner,
            proposal_bump,
            proposal_id,
            title,
            description,
            price,
            end_time_stamp,
            now,
        ),
        Operation::VoteForProposal { voter, vote_bump, proposal_id, vote, now } => vote_for_proposal_spec(
            s,
            voter,
            vote_bump,
            proposal_id,
            vote,
            now,
        ),
        Operation::ApproveProposal { claimed_owner, proposal_id, now } => approve_proposal_spec(
            s,
            claimed_owner,
            proposal_id,
            now,
        ),
    }
}

/// The set of open items of a store with finitely many records is finite
/// and no larger than the store.
proof fn lemma_open_items_finite(items: Map<u64, Item>)
    requires
        items.dom().finite(),
    ensures
        open_items(items).finite(),
        open_items(items).len() <= items.dom().len(),
{
    assert(open_items(items).subset_of(items.dom()));
    vstd::set_lib::lemma_len_subset(open_items(items), items.dom());
}

/// The record store and the balances, as one value: the state every
/// operation transitions atomically.
pub struct Ledger {
    /// The commune singleton record, absent until initialization.
    pub commune: Option<Commune>,
    /// The commune's pooled holding.
    pub commune_balance: u64,
    /// Membership records, keyed by identity.
    pub approvers: HashMap<Identity, Approver>,
    /// Item records, keyed by numeric id.
    pub items: HashMap<u64, Item>,
    /// Proposal records, keyed by numeric id.
    pub proposals: HashMap<u64, Proposal>,
    /// Committed vote records, in the order they were cast.
    pub votes: Vec<Vote>,
    /// Per-identity holdings.
    pub holdings: HashMap<Identity, u64>,
}

impl View for Ledger {
    type V = LedgerView;

    open spec fn view(&self) -> LedgerView {
        LedgerView {
            commune: self.commune,
            pool: self.commune_balance,
            approvers: self.approvers@,
            items: self.items@,
            proposals: self.proposals@,
            votes: self.votes@,
            holdings: self.holdings@,
        }
    }
}

impl Ledger {
    /// Well-formedness of this ledger; see [`wf_view`].
    pub open spec fn wf(&self) -> bool {
        wf_view(self@)
    }

    /// An empty ledger: no records and no balances.
    pub fn new() -> (l: Ledger)
        ensures
            l.wf(),
            l@.commune is None,
            l@.pool == 0,
            l@.approvers == Map::<Identity, Approver>::empty(),
            l@.items == Map::<u64, Item>::empty(),
            l@.proposals == Map::<u64, Proposal>::empty(),
            l@.votes == Seq::<Vote>::empty(),
            l@.holdings == Map::<Identity, u64>::empty(),
    {
        Ledger {
            commune: None,
            commune_balance: 0,
            approvers: HashMap::new(),
            items: HashMap::new(),
            proposals: HashMap::new(),
            votes: Vec::new(),
            holdings: HashMap::new(),
        }
    }

    /// Deposits `amount` into `who`'s holding from outside the system,
    /// the way the execution host funds a holding; fails without effect
    /// if the holding could not receive the amount.
    pub fn fund(&mut self, who: Identity, amount: u64) -> (ok: bool)
        requires
            old(self).wf(),
        ensures
            final(self).wf(),
            ok == (holding_balance(old(self)@.holdings, who) + amount <= u64::MAX),
            ok ==> final(self)@ == (LedgerView {
                holdings: credit(old(self)@.holdings, who, amount),
                ..old(self)@
            }),
            !ok ==> final(self)@ == old(self)@,
    {
        let bal = match self.holdings.get(&who) {
            Some(b) => *b,
            None => 0,
        };
        if bal > u64::MAX - amount {
            return false;
        }
        self.holdings.insert(who, bal + amount);
        true
    }

    /// The balance of `who`'s holding; an identity without a holding has
    /// balance zero.
    pub fn balance_of(&self, who: Identity) -> (b: u64)
        ensures
            b == holding_balance(self@.holdings, who),
    {
        match self.holdings.get(&who) {
            Some(b) => *b,
            None => 0,
        }
    }

    /// Whether `identity` is an approved member; the access condition
    /// every mutating marketplace and governance operation checks first.
    pub fn is_approved(&self, identity: Identity) -> (r: bool)
        ensures
            r == spec_is_approved(self@, identity),
    {
        match self.approvers.get(&identity) {
            Some(a) => a.approval,
            None => false,
        }
    }

    /// Creates the commune singleton record with the given join fee and
    /// sales tax percent, both fixed thereafter, and zeroed counters.
    /// Fails with a collision error if the commune was already
    /// initialized.
    pub fn initialize_market(&mut self, commune_bump: u8, fee: u64, tax: u64) -> (r: Result<
        (),
        CallError,
    >)
        requires
            old(self).wf(),
            tax <= 100,
        ensures
            final(self).wf(),
            ({
                let (s, res) = initialize_market_spec(old(self)@, commune_bump, fee, tax);
                final(self)@ == s && r == res
            }),
    {
        if self.commune.is_some() {
            return Err(CallError::RecordExists);
        }
        self.commune = Some(
            Commune { fee, bump: commune_bump, tax, item_count: 0, total_proposal_count: 0 },
        );
        proof {
            assert(self@ =~= initialize_market_spec(old(self)@, commune_bump, fee, tax).0);
            assert(open_items(self@.items) =~= Set::<u64>::empty());
            assert(self@.proposals.dom() =~= Set::<u64>::empty());
        }
        Ok(())
    }

    /// Joins the commune: transfers the fixed join fee from `member`'s
    /// holding to the commune's pooled holding and creates an approval
    /// record for `member`, atomically. Fails with a transfer error if
    /// the holding cannot pay the fee, and with a collision error if a
    /// membership record already exists for this identity.
    pub fn join_commune(&mut self, member: Identity, approver_account_bump: u8) -> (r: Result<
        (),
        CallError,
    >)
        requires
            old(self).wf(),
        ensures
            final(self).wf(),
            ({
                let (s, res) = join_commune_spec(old(self)@, member, approver_account_bump);
                final(self)@ == s && r == res
            }),
    {
        let c = match self.commune {
            Some(c) => c,
            None => { return Err(CallError::RecordMissing) },
        };
        if self.approvers.contains_key(&member) {
            return Err(CallError::RecordExists);
        }
        let bal = match self.holdings.get(&member) {
            Some(b) => *b,
            None => 0,
        };
        if bal < c.fee {
            return Err(CallError::Program(ErrorCode::SomethingWrong));
        }
        if self.commune_balance > u64::MAX - c.fee {
            return Err(CallError::Program(ErrorCode::SomethingWrong));
        }
        self.holdings.insert(member, bal - c.fee);
        self.commune_balance = self.commune_balance + c.fee;
        self.approvers.insert(member, Approver { approval: true, bump: approver_account_bump });
        proof {
            assert(self@ =~= join_commune_spec(old(self)@, member, approver_account_bump).0);
        }
        Ok(())
    }

    /// Lists an item for sale: withholds the sales tax — the floor of
    /// `price * tax_percent / 100` — from the seller's holding into the
    /// commune's pool, creates the item record listed at `price` plus
    /// that tax, and counts the item as open, atomically. Fails without
    /// any effect if the seller is not an approved member, if the title
    /// or description exceeds its bound (checked before the transfer),
    /// if the id is already taken, or if the tax cannot be transferred.
    pub fn create_item(
        &mut self,
        seller: Identity,
        item_account_bump: u8,
        item_id: u64,
        title: String,
        price: u64,
        description: String,
    ) -> (r: Result<(), CallError>)
        requires
            old(self).wf(),
            price <= u64::MAX / 2,
            old(self)@.commune matches Some(c) ==> c.item_count < u64::MAX,
        ensures
            final(self).wf(),
            ({
                let (s, res) = create_item_spec(
                    old(self)@,
                    seller,
                    item_account_bump,
                    item_id,
                    title,
                    price,
                    description,
                );
                final(self)@ == s && r == res
            }),
    {
        let c = match self.commune {
            Some(c) => c,
            None => { return Err(CallError::RecordMissing) },
        };
        if self.items.contains_key(&item_id) {
            return Err(CallError::RecordExists);
        }
        if !self.is_approved(seller) {
            return Err(CallError::Program(ErrorCode::InvalidAddress));
        }
        if title.as_str().unicode_len() > MAX_TITLE_CHARS {
            return Err(CallError::Program(ErrorCode::TitleIsTooLong));
        }
        if description.as_str().unicode_len() > MAX_DESCRIPTION_CHARS {
            return Err(CallError::Program(ErrorCode::DescriptionIsTooLong));
        }
        let tax = compute_tax(price, c.tax);
        let bal = match self.holdings.get(&seller) {
            Some(b) => *b,
            None => 0,
        };
        if bal < tax {
            return Err(CallError::Program(ErrorCode::SomethingWrong));
        }
        if self.commune_balance > u64::MAX - tax {
            return Err(CallError::Program(ErrorCode::SomethingWrong));
        }
        self.holdings.insert(seller, bal - tax);
        self.commune_balance = self.commune_balance + tax;
        let item = Item {
            id: item_id,
            seller,
            buyer: None,
            title,
            description,
            price: price + tax,
            tax,
            sold: false,
            bump: item_account_bump,
        };
        self.items.insert(item_id, item);
        let mut c2 = c;
        c2.item_count = c.item_count + 1;
        self.commune = Some(c2);
        proof {
            assert(self@ =~= create_item_spec(
                old(self)@,
                seller,
                item_account_bump,
                item_id,
                title,
                price,
                description,
            ).0);
            let oi_old = open_items(old(self)@.items);
            let oi_new = open_items(self@.items);
            lemma_open_items_finite(old(self)@.items);
            assert(oi_new =~= oi_old.insert(item_id));
            assert(!oi_old.contains(item_id));
            assert(oi_new.len() == oi_old.len() + 1);
        }
        Ok(())
    }

    /// Purchases an open item: transfers the item's full recorded price
    /// from the buyer's holding to the seller's, records the buyer, marks
    /// the item sold — irreversibly — and counts the item as no longer
    /// open, all atomically. Fails without any effect if the buyer is not
    /// an approved member, if the item was already sold, if
    /// `claimed_seller` is not the seller the item records (so funds can
    /// never be redirected to an unrelated party), or if the transfer
    /// cannot be performed.
    pub fn create_market_sale(
        &mut self,
        buyer: Identity,
        item_id: u64,
        claimed_seller: Identity,
    ) -> (r: Result<(), CallError>)
        requires
            old(self).wf(),
        ensures
            final(self).wf(),
            ({
                let (s, res) = create_market_sale_spec(old(self)@, buyer, item_id, claimed_seller);
                final(self)@ == s && r == res
            }),
    {
        let c = match self.commune {
            Some(c) => c,
            None => { return Err(CallError::RecordMissing) },
        };
        let (it_sold, it_seller, it_price) = match self.items.get(&item_id) {
            Some(it) => (it.sold, it.seller, it.price),
            None => { return Err(CallError::RecordMissing) },
        };
        if !self.is_approved(buyer) {
            return Err(CallError::Program(ErrorCode::InvalidAddress));
        }
        if it_sold {
            return Err(CallError::Program(ErrorCode::ItemSold));
        }
        if claimed_seller != it_seller {
            return Err(CallError::Program(ErrorCode::WrongSeller));
        }
        if !transfer_between(&mut self.holdings, buyer, it_seller, it_price) {
            return Err(CallError::Program(ErrorCode::SomethingWrong));
        }
        proof {
            let oi_old = open_items(old(self)@.items);
            lemma_open_items_finite(old(self)@.items);
            assert(oi_old.contains(item_id));
            assert(oi_old.remove(item_id).len() == oi_old.len() - 1);
        }
        let mut it = self.items.remove(&item_id).unwrap();
        it.buyer = Some(buyer);
        it.sold = true;
        self.items.insert(item_id, it);
        let mut c2 = c;
        c2.item_count = c.item_count - 1;
        self.commune = Some(c2);
        proof {
            assert(self@.items =~= create_market_sale_spec(
                old(self)@,
                buyer,
                item_id,
                claimed_seller,
            ).0.items);
            assert(self@ =~= create_market_sale_spec(old(self)@, buyer, item_id, claimed_seller).0);
            let oi_old = open_items(old(self)@.items);
            let oi_new = open_items(self@.items);
            assert(oi_new =~= oi_old.remove(item_id));
        }
        Ok(())
    }

    /// Creates a proposal for an expenditure of `price` from the pool,
    /// with voting open until `end_time_stamp`, vote counts zeroed, and
    /// `now` — the clock reading supplied by the host for this call —
    /// recorded as its creation time; increments the commune's total
    /// proposal count, atomically. Fails without any effect if the owner
    /// is not an approved member, if the title or description exceeds its
    /// bound, or if the id is already taken.
    pub fn add_proposal(
        &mut self,
        owner: Identity,
        proposal_account_bump: u8,
        proposal_id: u64,
        title: String,
        description: String,
        price: u64,
        end_time_stamp: u64,
        now: u64,
    ) -> (r: Result<(), CallError>)
        requires
            old(self).wf(),
            old(self)@.commune matches Some(c) ==> c.total_proposal_count < u64::MAX,
        ensures
            final(self).wf(),
            ({
                let (s, res) = add_proposal_spec(
                    old(self)@,
                    owner,
                    proposal_account_bump,
                    proposal_id,
                    title,
                    description,
                    price,
                    end_time_stamp,
                    now,
                );
                final(self)@ == s && r == res
            }),
    {
        let c = match self.commune {
            Some(c) => c,
            None => { return Err(CallError::RecordMissing) },
        };
        if self.proposals.contains_key(&proposal_id) {
            return Err(CallError::RecordExists);
        }
        if !self.is_approved(owner) {
            return Err(CallError::Program(ErrorCode::InvalidAddress));
        }
        if title.as_str().unicode_len() > MAX_TITLE_CHARS {
            return Err(CallError::Program(ErrorCode::TitleIsTooLong));
        }
        if description.as_str().unicode_len() > MAX_DESCRIPTION_CHARS {
            return Err(CallError::Program(ErrorCode::DescriptionIsTooLong));
        }
        let proposal = Proposal {
            id: proposal_id,
            owner,
            created_at: now,
            title,
            description,
            price,
            vote_yes: 0,
            vote_no: 0,
            bump: proposal_account_bump,
            end_time_stamp,
            approved: false,
        };
        self.proposals.insert(proposal_id, proposal);
        let mut c2 = c;
        c2.total_proposal_count = c.total_proposal_count + 1;
        self.commune = Some(c2);
        proof {
            assert(self@ =~= add_proposal_spec(
                old(self)@,
                owner,
                proposal_account_bump,
                proposal_id,
                title,
                description,
                price,
                end_time_stamp,
                now,
            ).0);
            assert(self@.proposals.dom() =~= old(self)@.proposals.dom().insert(proposal_id));
            assert(open_items(self@.items) =~= open_items(old(self)@.items));
        }
        Ok(())
    }

    /// Casts `voter`'s vote on a proposal: commits the vote record at the
    /// address derived from the pair of proposal id and voter, and
    /// increments the yes or no tally according to `vote`, atomically,
    /// with `now` — the clock reading supplied by the host for this call
    /// — as the vote's timestamp. Fails without any effect if the voter
    /// is not an approved member, if this voter already voted on this
    /// proposal (the addresses collide, so there is no revote), or if
    /// `now` is past the proposal's voting window — in which case the
    /// tally is never touched.
    pub fn vote_for_proposal(
        &mut self,
        voter: Identity,
        vote_account_bump: u8,
        proposal_id: u64,
        vote: bool,
        now: u64,
    ) -> (r: Result<(), CallError>)
        requires
            old(self).wf(),
            old(self)@.proposals.contains_key(proposal_id)
                ==> old(self)@.proposals[proposal_id].vote_yes < u64::MAX
                && old(self)@.proposals[proposal_id].vote_no < u64::MAX,
        ensures
            final(self).wf(),
            ({
                let (s, res) = vote_for_proposal_spec(
                    old(self)@,
                    voter,
                    vote_account_bump,
                    proposal_id,
                    vote,
                    now,
                );
                final(self)@ == s && r == res
            }),
    {
        let (p_end, p_yes, p_no) = match self.proposals.get(&proposal_id) {
            Some(p) => (p.end_time_stamp, p.vote_yes, p.vote_no),
            None => { return Err(CallError::RecordMissing) },
        };
        if self.has_vote(proposal_id, voter) {
            return Err(CallError::RecordExists);
        }
        if !self.is_approved(voter) {
            return Err(CallError::Program(ErrorCode::InvalidAddress));
        }
        if now > p_end {
            return Err(CallError::Program(ErrorCode::ProposalHasEnded));
        }
        self.votes.push(
            Vote { proposal_id, vote, voter, created_at: now, bump: vote_account_bump },
        );
        let mut p = self.proposals.remove(&proposal_id).unwrap();
        if vote {
            p.vote_yes = p_yes + 1;
        } else {
            p.vote_no = p_no + 1;
        }
        self.proposals.insert(proposal_id, p);
        proof {
            assert(self@.proposals =~= vote_for_proposal_spec(
                old(self)@,
                voter,
                vote_account_bump,
                proposal_id,
                vote,
                now,
            ).0.proposals);
            assert(self@ =~= vote_for_proposal_spec(
                old(self)@,
                voter,
                vote_account_bump,
                proposal_id,
                vote,
                now,
            ).0);
            assert(self@.proposals.dom() =~= old(self)@.proposals.dom());
            assert forall|i: int, j: int| 0 <= i < j < self@.votes.len() implies !(
            #[trigger] self@.votes[i].proposal_id == #[trigger] self@.votes[j].proposal_id
                && self@.votes[i].voter == self@.votes[j].voter) by {
                if j == self@.votes.len() - 1 {
                    assert(!(self@.votes[i].proposal_id == proposal_id && self@.votes[i].voter
                        == voter));
                }
            }
        }
        Ok(())
    }

    /// Approves a proposal after its voting window: pays the requested
    /// amount from the commune's pooled holding to the proposal's owner
    /// and sets the terminal `approved` flag, atomically, with `now` the
    /// clock reading supplied by the host for this call. Fails without
    /// any effect if `claimed_owner` is not the recorded owner, if the
    /// voting window is still open (`now` not strictly past the end,
    /// regardless of the tally), if the yes votes do not exceed the no
    /// votes, if the proposal was already approved (so the payout can
    /// never happen twice), or if the pool cannot pay.
    pub fn approve_proposal(&mut self, claimed_owner: Identity, proposal_id: u64, now: u64) -> (r:
        Result<(), CallError>)
        requires
            old(self).wf(),
        ensures
            final(self).wf(),
            ({
                let (s, res) = approve_proposal_spec(old(self)@, claimed_owner, proposal_id, now);
                final(self)@ == s && r == res
            }),
    {
        if self.commune.is_none() {
            return Err(CallError::RecordMissing);
        }
        let (p_owner, p_end, p_yes, p_no, p_approved, p_price) = match self.proposals.get(
            &proposal_id,
        ) {
            Some(p) => (p.owner, p.end_time_stamp, p.vote_yes, p.vote_no, p.approved, p.price),
            None => { return Err(CallError::RecordMissing) },
        };
        if claimed_owner != p_owner {
            return Err(CallError::Program(ErrorCode::InvalidAddress));
        }
        if now <= p_end {
            return Err(CallError::Program(ErrorCode::Voting));
        }
        if p_yes <= p_no {
            return Err(CallError::Program(ErrorCode::Rejected));
        }
        if p_approved {
            return Err(CallError::Program(ErrorCode::Approved));
        }
        if self.commune_balance < p_price {
            return Err(CallError::Program(ErrorCode::SomethingWrong));
        }
        let bal = match self.holdings.get(&p_owner) {
            Some(b) => *b,
            None => 0,
        };
        if bal > u64::MAX - p_price {
            return Err(CallError::Program(ErrorCode::SomethingWrong));
        }
        self.commune_balance = self.commune_balance - p_price;
        self.holdings.insert(p_owner, bal + p_price);
        let mut p = self.proposals.remove(&proposal_id).unwrap();
        p.approved = true;
        self.proposals.insert(proposal_id, p);
        proof {
            assert(self@.proposals =~= approve_proposal_spec(
                old(self)@,
                claimed_owner,
                proposal_id,
                now,
            ).0.proposals);
            assert(self@ =~= approve_proposal_spec(old(self)@, claimed_owner, proposal_id, now).0);
            assert(self@.proposals.dom() =~= old(self)@.proposals.dom());
        }
        Ok(())
    }

    /// Whether a vote record for the pair of `proposal_id` and `voter`
    /// exists.
    pub fn has_vote(&self, proposal_id: u64, voter: Identity) -> (r: bool)
        ensures
            r == spec_has_vote(self@.votes, proposal_id, voter),
    {
        let n = self.votes.len();
        let mut i: usize = 0;
        while i < n
            invariant
                i <= n,
                n == self.votes@.len(),
                forall|j: int|
                    0 <= j < i ==> !(#[trigger] self.votes@[j].proposal_id == proposal_id
                        && self.votes@[j].voter == voter),
            decreases n - i,
        {
            let v = self.votes[i];
            if v.proposal_id == proposal_id && v.voter == voter {
                return true;
            }
            i = i + 1;
        }
        false
    }
}

/// The sales tax on `price` at `tax_percent`, computed without loss in a
/// wider intermediate: exactly the floor of `price * tax_percent / 100`.
pub fn compute_tax(price: u64, tax_percent: u64) -> (tax: u64)
    requires
        tax_percent <= 100,
    ensures
        tax == spec_tax(price, tax_percent),
        tax <= price,
{
    let wide_price = price as u128;
    let wide_percent = tax_percent as u128;
    proof {
        assert(wide_price * wide_percent <= u64::MAX * 100) by (nonlinear_arith)
            requires
                wide_price <= u64::MAX,
                wide_percent <= 100,
        ;
        assert((price * tax_percent) / 100 <= price) by (nonlinear_arith)
            requires
                tax_percent <= 100,
        ;
    }
    let wide: u128 = wide_price * wide_percent / 100;
    wide as u64
}

/// The transfer primitive over per-identity holdings: moves `amount` from
/// `from` to `to`, all-or-nothing. Fails, moving nothing, if the source
/// balance is insufficient or the destination cannot receive the amount.
fn transfer_between(
    m: &mut HashMap<Identity, u64>,
    from: Identity,
    to: Identity,
    amount: u64,
) -> (ok: bool)
    ensures
        ok == transfer_admissible(old(m)@, from, to, amount),
        ok ==> final(m)@ == transfer_applied(old(m)@, from, to, amount),
        !ok ==> final(m)@ == old(m)@,
{
    let bal_from = match m.get(&from) {
        Some(b) => *b,
        None => 0,
    };
    if bal_from < amount {
        return false;
    }
    if from == to {
        return true;
    }
    let bal_to = match m.get(&to) {
        Some(b) => *b,
        None => 0,
    };
    if bal_to > u64::MAX - amount {
        return false;
    }
    m.insert(from, bal_from - amount);
    m.insert(to, bal_to + amount);
    true
}

} // verus!
