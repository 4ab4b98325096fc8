//! The records that the engine keeps, and the ledger that holds them.

use cosmwasm_std::Uint128;
use std::collections::HashMap;
use vstd::bytes::{lemma_auto_spec_u128_to_from_le_bytes, spec_u128_to_le_bytes};
use vstd::hash_map::StringHashMap;
use vstd::prelude::*;

verus! {

broadcast use vstd::std_specs::hash::group_hash_axioms;

/// The configuration, written once at initialisation.
#[derive(Clone, Debug, PartialEq, Eq)]
pub struct State {
    /// The denomination in which stakes are paid.
    pub denom: String,
    /// The identity that may close proposals.
    pub owner: String,
}

/// What a [`State`] stands for in contracts.
pub ghost struct StateView {
    pub denom: Seq<char>,
    pub owner: Seq<char>,
}

impl View for State {
    type V = StateView;

    open spec fn view(&self) -> StateView {
        StateView { denom: self.denom@, owner: self.owner@ }
    }
}

impl State {
    /// A second configuration with the same denomination and owner.
    pub fn duplicate(&self) -> (copy: State)
        ensures
            copy@ == self@,
    {
        State { denom: self.denom.clone(), owner: self.owner.clone() }
    }
}

/// Where a proposal stands. `Passed` and `Rejected` are final.
#[derive(Clone, Copy, Debug, PartialEq, Eq, Structural)]
pub enum ProposalStatus {
    InProgress,
    Passed,
    Rejected,
}

/// How often one voter has voted on each proposal: pairs of a proposal's
/// identifier and the number of votes cast on it. The first pair with a given
/// identifier is the one that counts.
#[derive(Clone, Debug, PartialEq, Eq)]
pub struct Voter {
    pub vote_count: Vec<(u128, u64)>,
}

impl View for Voter {
    type V = Seq<(u128, u64)>;

    open spec fn view(&self) -> Seq<(u128, u64)> {
        self.vote_count@
    }
}

/// The stake that one voter has paid in, over all proposals.
#[derive(Clone, Debug, PartialEq, Eq)]
pub struct BalanceVote {
    /// The sum of all stakes accepted from the voter.
    pub token_balance: u128,
    pub locked_tokens: Vec<(u64, u128)>,
    pub participated_polls: Vec<u64>,
}

/// What a [`BalanceVote`] stands for in contracts.
pub ghost struct BalanceView {
    pub token_balance: u128,
    pub locked_tokens: Seq<(u64, u128)>,
    pub participated_polls: Seq<u64>,
}

impl View for BalanceVote {
    type V = BalanceView;

    open spec fn view(&self) -> BalanceView {
        BalanceView {
            token_balance: self.token_balance,
            locked_tokens: self.locked_tokens@,
            participated_polls: self.participated_polls@,
        }
    }
}

impl BalanceView {
    /// The balance of a voter of whom nothing is recorded.
    pub open spec fn empty() -> BalanceView {
        BalanceView {
            token_balance: 0,
            locked_tokens: Seq::empty(),
            participated_polls: Seq::empty(),
        }
    }
}

impl Default for BalanceVote {
    fn default() -> (balance: BalanceVote)
        ensures
            balance@ == BalanceView::empty(),
    {
        BalanceVote { token_balance: 0, locked_tokens: Vec::new(), participated_polls: Vec::new() }
    }
}

/// The tally of one proposal.
#[derive(Clone, Debug, PartialEq, Eq)]
pub struct Proposal {
    pub status: ProposalStatus,
    pub yes_votes: u128,
    pub no_votes: u128,
    pub voters: Vec<String>,
}

/// What a [`Proposal`] stands for in contracts.
pub ghost struct ProposalView {
    pub status: ProposalStatus,
    pub yes_votes: u128,
    pub no_votes: u128,
    pub voters: Seq<Seq<char>>,
}

impl View for Proposal {
    type V = ProposalView;

    open spec fn view(&self) -> ProposalView {
        ProposalView {
            status: self.status,
            yes_votes: self.yes_votes,
            no_votes: self.no_votes,
            voters: self.voters@.map_values(|voter: String| voter@),
        }
    }
}

/// A second vector with the same items in the same order.
fn copy_of<T: Copy>(items: &Vec<T>) -> (copy: Vec<T>)
    ensures
        copy@ == items@,
{
    let mut copy: Vec<T> = Vec::new();
    let mut i: usize = 0;
    while i < items.len()
        invariant
            i <= items.len(),
            copy@ == items@.take(i as int),
        decreases items.len() - i,
    {
        copy.push(items[i]);
        i += 1;
    }
    copy
}

/// The place of the first entry for `proposal_id` among `entries`.
pub open spec fn entry_index(entries: Seq<(u128, u64)>, proposal_id: u128) -> Option<int>
    decreases entries.len(),
{
    if entries.len() == 0 {
        None
    } else if entries[0].0 == proposal_id {
        Some(0)
    } else {
        match entry_index(entries.drop_first(), proposal_id) {
            Some(i) => Some(i + 1),
            None => None,
        }
    }
}

/// How often the owner of `entries` has voted on `proposal_id`, as far as
/// `entries` records it.
pub open spec fn votes_cast(entries: Seq<(u128, u64)>, proposal_id: u128) -> Option<u64> {
    match entry_index(entries, proposal_id) {
        Some(i) => Some(entries[i].1),
        None => None,
    }
}

/// `entries` after the number of votes on `proposal_id` was set to `count`:
/// the entry for it is overwritten in place, or added at the end where there
/// was none.
pub open spec fn with_votes_cast(entries: Seq<(u128, u64)>, proposal_id: u128, count: u64) -> Seq<
    (u128, u64),
> {
    match entry_index(entries, proposal_id) {
        Some(i) => entries.update(i, (proposal_id, count)),
        None => entries.push((proposal_id, count)),
    }
}

/// `entry_index` finds the first entry with the identifier, and finds none
/// only where no entry has it.
pub proof fn lemma_entry_index_is_first(entries: Seq<(u128, u64)>, proposal_id: u128)
    ensures
        match entry_index(entries, proposal_id) {
            Some(i) => {
                &&& 0 <= i < entries.len()
                &&& entries[i].0 == proposal_id
                &&& forall|j: int| 0 <= j < i ==> (#[trigger] entries[j]).0 != proposal_id
            },
            None => forall|j: int|
                0 <= j < entries.len() ==> (#[trigger] entries[j]).0 != proposal_id,
        },
    decreases entries.len(),
{
    if entries.len() != 0 && entries[0].0 != proposal_id {
        let rest = entries.drop_first();
        lemma_entry_index_is_first(rest, proposal_id);
        match entry_index(rest, proposal_id) {
            Some(i) => {
                assert forall|j: int| 0 <= j < i + 1 implies (#[trigger] entries[j]).0
                    != proposal_id by {
                    if j > 0 {
                        assert(rest[j - 1] == entries[j]);
                    }
                }
            },
            None => {
                assert forall|j: int| 0 <= j < entries.len() implies (#[trigger] entries[j]).0
                    != proposal_id by {
                    if j > 0 {
                        assert(rest[j - 1] == entries[j]);
                    }
                }
            },
        }
    }
}

/// After `with_votes_cast`, the count for the identifier written is the one
/// written, and the count for every other identifier is what it was.
pub proof fn lemma_with_votes_cast(
    entries: Seq<(u128, u64)>,
    proposal_id: u128,
    count: u64,
    other: u128,
)
    ensures
        votes_cast(with_votes_cast(entries, proposal_id, count), other) == (if other
            == proposal_id {
            Some(count)
        } else {
            votes_cast(entries, other)
        }),
{
    let after = with_votes_cast(entries, proposal_id, count);
    lemma_entry_index_is_first(entries, proposal_id);
    lemma_entry_index_is_first(entries, other);
    lemma_entry_index_is_first(after, other);
    if let Some(i) = entry_index(entries, other) {
        assert(after[i].0 == entries[i].0);
    }
    if entry_index(entries, proposal_id) is None {
        assert(after[entries.len() as int].0 == proposal_id);
    }
}

impl Voter {
    /// How often this voter has voted on `proposal_id`.
    pub fn votes_on(&self, proposal_id: u128) -> (count: Option<u64>)
        ensures
            count == votes_cast(self@, proposal_id),
    {
        let mut i: usize = 0;
        while i < self.vote_count.len()
            invariant
                i <= self.vote_count.len(),
                forall|j: int| 0 <= j < i ==> (#[trigger] self@[j]).0 != proposal_id,
            decreases self.vote_count.len() - i,
        {
            if self.vote_count[i].0 == proposal_id {
                proof {
                    lemma_entry_index_is_first(self@, proposal_id);
                }
                return Some(self.vote_count[i].1);
            }
            i += 1;
        }
        proof {
            lemma_entry_index_is_first(self@, proposal_id);
        }
        None
    }

    /// Sets the number of votes cast on `proposal_id` to `count`.
    pub fn record_votes(&mut self, proposal_id: u128, count: u64)
        ensures
            final(self)@ == with_votes_cast(old(self)@, proposal_id, count),
    {
        let mut i: usize = 0;
        while i < self.vote_count.len()
            invariant
                *self == *old(self),
                i <= self.vote_count.len(),
                forall|j: int| 0 <= j < i ==> (#[trigger] self@[j]).0 != proposal_id,
            decreases self.vote_count.len() - i,
        {
            if self.vote_count[i].0 == proposal_id {
                proof {
                    lemma_entry_index_is_first(self@, proposal_id);
                }
                self.vote_count[i] = (proposal_id, count);
                return ;
            }
            i += 1;
        }
        proof {
            lemma_entry_index_is_first(self@, proposal_id);
        }
        self.vote_count.push((proposal_id, count));
    }

    /// A second record with the same entries.
    pub fn duplicate(&self) -> (copy: Voter)
        ensures
            copy@ == self@,
    {
        Voter { vote_count: copy_of(&self.vote_count) }
    }
}

impl BalanceVote {
    /// A second balance with the same contents.
    pub fn duplicate(&self) -> (copy: BalanceVote)
        ensures
            copy@ == self@,
    {
        BalanceVote {
            token_balance: self.token_balance,
            locked_tokens: copy_of(&self.locked_tokens),
            participated_polls: copy_of(&self.participated_polls),
        }
    }
}

impl Proposal {
    /// A second proposal with the same contents.
    pub fn duplicate(&self) -> (copy: Proposal)
        ensures
            copy@ == self@,
    {
        let voters = self.voters.clone();
        Proposal {
            status: self.status,
            yes_votes: self.yes_votes,
            no_votes: self.no_votes,
            voters,
        }
    }
}

/// The four tables of the engine: the configuration, the proposals by
/// identifier, and the vote records and balances by voter.
pub struct Ledger {
    state: Option<State>,
    proposals: HashMap<u128, Proposal>,
    voters: StringHashMap<Voter>,
    balances: StringHashMap<BalanceVote>,
}

/// What a [`Ledger`] stands for in contracts.
pub ghost struct LedgerView {
    pub state: Option<StateView>,
    pub proposals: Map<u128, ProposalView>,
    pub voters: Map<Seq<char>, Seq<(u128, u64)>>,
    pub balances: Map<Seq<char>, BalanceView>,
}

impl LedgerView {
    /// The ledger in which nothing was ever written.
    pub open spec fn empty() -> LedgerView {
        LedgerView {
            state: None,
            proposals: Map::empty(),
            voters: Map::empty(),
            balances: Map::empty(),
        }
    }

    /// The recorded balance of `voter`, zero where nothing is recorded.
    pub open spec fn balance_of(self, voter: Seq<char>) -> BalanceView {
        if self.balances.contains_key(voter) {
            self.balances[voter]
        } else {
            BalanceView::empty()
        }
    }
}

impl View for Ledger {
    type V = LedgerView;

    closed spec fn view(&self) -> LedgerView {
        LedgerView {
            state: match self.state {
                Some(state) => Some(state@),
                None => None,
            },
            proposals: self.proposals@.map_values(|proposal: Proposal| proposal@),
            voters: self.voters@.map_values(|voter: Voter| voter@),
            balances: self.balances@.map_values(|balance: BalanceVote| balance@),
        }
    }
}

impl Ledger {
    /// The ledger in which nothing was ever written.
    pub fn new() -> (ledger: Ledger)
        ensures
            ledger@ == LedgerView::empty(),
    {
        let ledger = Ledger {
            state: None,
            proposals: HashMap::new(),
            voters: StringHashMap::new(),
            balances: StringHashMap::new(),
        };
        assert(ledger@.proposals =~= Map::empty());
        assert(ledger@.voters =~= Map::empty());
        assert(ledger@.balances =~= Map::empty());
        ledger
    }

    /// The configuration, if the ledger was initialised.
    pub fn load_state(&self) -> (state: Option<State>)
        ensures
            state is Some <==> self@.state is Some,
            state matches Some(found) ==> Some(found@) == self@.state,
    {
        match &self.state {
            Some(state) => Some(state.duplicate()),
            None => None,
        }
    }

    /// Writes the configuration, over an earlier one if there was one.
    pub fn save_state(&mut self, state: State)
        ensures
            final(self)@ == (LedgerView { state: Some(state@), ..old(self)@ }),
    {
        self.state = Some(state);
    }

    /// The proposal recorded under `proposal_id`, if there is one.
    pub fn load_proposal(&self, proposal_id: u128) -> (proposal: Option<Proposal>)
        ensures
            proposal is Some <==> self@.proposals.contains_key(proposal_id),
            proposal matches Some(found) ==> found@ == self@.proposals[proposal_id],
    {
        match self.proposals.get(&proposal_id) {
            Some(proposal) => Some(proposal.duplicate()),
            None => None,
        }
    }

    /// Writes `proposal` under `proposal_id`, over an earlier one if there was one.
    pub fn save_proposal(&mut self, proposal_id: u128, proposal: Proposal)
        ensures
            final(self)@ == (LedgerView {
                proposals: old(self)@.proposals.insert(proposal_id, proposal@),
                ..old(self)@
            }),
    {
        self.proposals.insert(proposal_id, proposal);
        assert(final(self)@.proposals =~= old(self)@.proposals.insert(proposal_id, proposal@));
    }

    /// The vote record of `address`, if there is one.
    pub fn load_voter(&self, address: &str) -> (voter: Option<Voter>)
        ensures
            voter is Some <==> self@.voters.contains_key(address@),
            voter matches Some(found) ==> found@ == self@.voters[address@],
    {
        match self.voters.get(address) {
            Some(voter) => Some(voter.duplicate()),
            None => None,
        }
    }

    /// Writes `voter` as the vote record of `address`, over an earlier one if there was one.
    pub fn save_voter(&mut self, address: &str, voter: Voter)
        ensures
            final(self)@ == (LedgerView {
                voters: old(self)@.voters.insert(address@, voter@),
                ..old(self)@
            }),
    {
        self.voters.insert(address.to_owned(), voter);
        assert(final(self)@.voters =~= old(self)@.voters.insert(address@, voter@));
    }

    /// The balance of `address`, if one is recorded.
    pub fn load_balance(&self, address: &str) -> (balance: Option<BalanceVote>)
        ensures
            balance is Some <==> self@.balances.contains_key(address@),
            balance matches Some(found) ==> found@ == self@.balances[address@],
    {
        match self.balances.get(address) {
            Some(balance) => Some(balance.duplicate()),
            None => None,
        }
    }

    /// Writes `balance` as the balance of `address`, over an earlier one if there was one.
    pub fn save_balance(&mut self, address: &str, balance: BalanceVote)
        ensures
            final(self)@ == (LedgerView {
                balances: old(self)@.balances.insert(address@, balance@),
                ..old(self)@
            }),
    {
        self.balances.insert(address.to_owned(), balance);
        assert(final(self)@.balances =~= old(self)@.balances.insert(address@, balance@));
    }
}

/// The key of a proposal in a host's storage: the sixteen bytes of its
/// identifier, the most significant byte first.
pub open spec fn proposal_key_bytes(proposal_id: u128) -> Seq<u8> {
    spec_u128_to_le_bytes(proposal_id).reverse()
}

/// Calls `Uint128::to_be_bytes`, which gives the bytes of the number from
/// the most significant to the least significant.
#[verifier::external_body]
fn big_endian_bytes(value: u128) -> (bytes: [u8; 16])
    ensures
        bytes@ == proposal_key_bytes(value),
{
    Uint128::new(value).to_be_bytes()
}

/// The key under which a host's storage holds the proposal `proposal_id`.
pub fn proposal_key(proposal_id: u128) -> (key: [u8; 16])
    ensures
        key@ == proposal_key_bytes(proposal_id),
{
    big_endian_bytes(proposal_id)
}

/// Two proposals never share a storage key.
pub proof fn lemma_proposal_keys_differ(first: u128, second: u128)
    requires
        first != second,
    ensures
        proposal_key_bytes(first) != proposal_key_bytes(second),
{
    lemma_auto_spec_u128_to_from_le_bytes();
    let a = spec_u128_to_le_bytes(first);
    let b = spec_u128_to_le_bytes(second);
    if a.reverse() == b.reverse() {
        assert(a =~= b) by {
            assert forall|i: int| 0 <= i < 16 implies a[i] == b[i] by {
                assert(b.reverse()[15 - i] == b[i]);
            }
        }
    }
}

} // verus!
