use crate::account::AccountId;
use crate::error::{DaoError, SuperDaoError};
use crate::message::{encode_chain_call, Call, Location, Vote};
use vstd::prelude::*;
use vstd::std_specs::vec::vec_index_mut;

verus! {

/// A votable unit of local governance: a running vote tally, identified only
/// by its current position in the ledger.
#[derive(Clone, Copy, Debug, PartialEq, Eq, Structural)]
pub struct BasicProposal {
    pub vote_count: u32,
}

/// A membership record: the display name given at registration and the
/// number of votes this member has cast.
#[derive(Clone, Debug, PartialEq)]
pub struct Member {
    pub vote_count: u32,
    pub name: String,
}

/// A notification record carrying the engine's stored value.
#[derive(Clone, Copy, Debug, PartialEq, Eq, Structural)]
pub struct DaoMessage {
    pub value: u8,
}

/// The capability interface of the Super Organization, injected into the
/// engine at construction. The engine registers itself through it, submits
/// encoded proposals, and casts delegated votes. Implementations live outside
/// the engine, so nothing is assumed of their results beyond their types.
pub trait SuperDaoClient {
    /// Enrolls the caller as a member of the Super Organization.
    fn register_member(&mut self) -> Result<(), SuperDaoError>;

    /// Forwards an encoded call; on success the organization's identifier for
    /// the new proposal comes back, opaque to the engine.
    fn create_proposal(&mut self, call: Call) -> Result<u32, SuperDaoError>;

    /// Casts a delegated vote on a proposal of the Super Organization.
    fn vote(&mut self, proposal_id: u32, vote: Vote) -> Result<(), SuperDaoError>;
}

/// The governance state the engine's contracts speak of: the registry as an
/// ordered sequence of identity-record entries, and the ledger as an ordered
/// sequence of proposals addressed by position.
pub ghost struct DaoView {
    pub name: Seq<char>,
    pub voters: Seq<(AccountId, Member)>,
    pub proposals: Seq<BasicProposal>,
    pub value: u8,
}

impl DaoView {
    /// Member identities are unique within the registry at all times.
    pub open spec fn wf(self) -> bool {
        forall|i: int, j: int|
            0 <= i < j < self.voters.len() ==> self.voters[i].0@ != self.voters[j].0@
    }

    /// Whether `id` is a registered member.
    pub open spec fn has_voter(self, id: Seq<u8>) -> bool {
        exists|i: int| 0 <= i < self.voters.len() && self.voters[i].0@ == id
    }

    /// The position of `id`'s record; meaningful when `has_voter(id)` holds
    /// and, under `wf`, unique.
    pub open spec fn voter_index(self, id: Seq<u8>) -> int {
        choose|i: int| 0 <= i < self.voters.len() && self.voters[i].0@ == id
    }

    /// The membership record of `id`; meaningful when `has_voter(id)` holds.
    pub open spec fn member(self, id: Seq<u8>) -> Member {
        self.voters[self.voter_index(id)].1
    }

    /// The state after a successful registration: one fresh record appended,
    /// everything else untouched.
    pub open spec fn with_new_voter(self, id: AccountId, name: String) -> DaoView {
        DaoView { voters: self.voters.push((id, Member { vote_count: 0, name })), ..self }
    }

    /// The state after a successful deregistration: `id`'s record removed,
    /// everything else untouched.
    pub open spec fn without_voter(self, id: Seq<u8>) -> DaoView {
        DaoView { voters: self.voters.remove(self.voter_index(id)), ..self }
    }

    /// The state after a successful proposal creation: one fresh proposal
    /// appended at the end of the ledger.
    pub open spec fn with_new_proposal(self) -> DaoView {
        DaoView { proposals: self.proposals.push(BasicProposal { vote_count: 0 }), ..self }
    }

    /// The state after a successful removal at position `k`: the entry is
    /// deleted and all later positions shift down by one.
    pub open spec fn without_proposal(self, k: int) -> DaoView {
        DaoView { proposals: self.proposals.remove(k), ..self }
    }

    /// The state after a successful vote at position `p` by `id`: both the
    /// proposal's tally and the voter's tally go up by exactly one.
    pub open spec fn after_vote(self, p: int, id: Seq<u8>) -> DaoView {
        let i = self.voter_index(id);
        let m = self.voters[i].1;
        DaoView {
            voters: self.voters.update(
                i,
                (self.voters[i].0, Member { vote_count: (m.vote_count + 1) as u32, name: m.name }),
            ),
            proposals: self.proposals.update(
                p,
                BasicProposal { vote_count: (self.proposals[p].vote_count + 1) as u32 },
            ),
            ..self
        }
    }

    /// Under uniqueness of identities, any position holding `id` is the
    /// position `voter_index` denotes.
    pub proof fn lemma_voter_index_is(self, id: Seq<u8>, i: int)
        requires
            self.wf(),
            0 <= i < self.voters.len(),
            self.voters[i].0@ == id,
        ensures
            self.has_voter(id),
            self.voter_index(id) == i,
    {
        assert(self.has_voter(id));
        let j = self.voter_index(id);
        assert(0 <= j < self.voters.len() && self.voters[j].0@ == id);
        if i < j {
            assert(self.voters[i].0@ != self.voters[j].0@);
        } else if j < i {
            assert(self.voters[j].0@ != self.voters[i].0@);
        }
    }
}

/// After a successful registration the identity is a voter with a fresh
/// record, the registry is still well formed, and — by `register_voter`'s
/// contract, whose success is keyed on `has_voter` — a second registration
/// of the same identity is refused with `VoterAlreadyRegistered`.
pub proof fn lemma_register_then_registered(d: DaoView, id: AccountId, name: String)
    requires
        d.wf(),
        !d.has_voter(id@),
    ensures
        d.with_new_voter(id, name).wf(),
        d.with_new_voter(id, name).has_voter(id@),
        d.with_new_voter(id, name).member(id@) == (Member { vote_count: 0, name }),
{
    let d1 = d.with_new_voter(id, name);
    let n = d.voters.len() as int;
    assert(d1.voters[n].0@ == id@);
    assert forall|i: int, j: int| 0 <= i < j < d1.voters.len() implies d1.voters[i].0@
        != d1.voters[j].0@ by {
        if j < n {
            assert(d.voters[i].0@ != d.voters[j].0@);
        } else {
            assert(d1.voters[i] == d.voters[i]);
            if d.voters[i].0@ == id@ {
                assert(d.has_voter(id@));
            }
        }
    }
    d1.lemma_voter_index_is(id@, n);
}

/// Deregistration of a registered identity removes exactly its record: the
/// identity is no voter afterwards and the registry is still well formed.
/// By `deregister_voter`'s contract, whose success is keyed on `has_voter`,
/// deregistering an identity that is not registered is refused with
/// `VoterNotRegistered` and changes nothing.
pub proof fn lemma_deregister_removes(d: DaoView, id: Seq<u8>)
    requires
        d.wf(),
        d.has_voter(id),
    ensures
        d.without_voter(id).wf(),
        !d.without_voter(id).has_voter(id),
        d.without_voter(id).voters.len() == d.voters.len() - 1,
{
    let k = d.voter_index(id);
    assert(0 <= k < d.voters.len() && d.voters[k].0@ == id);
    d.voters.remove_ensures(k);
    let s = d.voters.remove(k);
    assert forall|l: int| 0 <= l < s.len() implies s[l].0@ != id by {
        if l < k {
            assert(s[l] == d.voters[l]);
            assert(d.voters[l].0@ != d.voters[k].0@);
        } else {
            assert(s[l] == d.voters[l + 1]);
            assert(d.voters[k].0@ != d.voters[l + 1].0@);
        }
    }
    assert forall|a: int, b: int| 0 <= a < b < s.len() implies s[a].0@ != s[b].0@ by {
        let a0 = if a < k { a } else { a + 1 };
        let b0 = if b < k { b } else { b + 1 };
        assert(s[a] == d.voters[a0]);
        assert(s[b] == d.voters[b0]);
        assert(d.voters[a0].0@ != d.voters[b0].0@);
    }
}

/// The ledger after `n` successive successful proposal creations.
pub open spec fn after_creates(d: DaoView, n: nat) -> DaoView
    decreases n,
{
    if n == 0 {
        d
    } else {
        after_creates(d, (n - 1) as nat).with_new_proposal()
    }
}

/// Creation only appends: `n` successful creations grow the ledger by
/// exactly `n` — on an empty ledger, to length `n` — and leave the registry
/// untouched, so a caller once registered stays registered throughout.
pub proof fn lemma_ledger_length_after_creates(d: DaoView, n: nat)
    ensures
        after_creates(d, n).proposals.len() == d.proposals.len() + n,
        after_creates(d, n).voters == d.voters,
    decreases n,
{
    if n > 0 {
        lemma_ledger_length_after_creates(d, (n - 1) as nat);
    }
}

/// Removal at position `k` deletes exactly one entry: earlier positions are
/// untouched and every later position shifts down by one.
pub proof fn lemma_remove_proposal_shifts(d: DaoView, k: int)
    requires
        0 <= k < d.proposals.len(),
    ensures
        d.without_proposal(k).proposals.len() == d.proposals.len() - 1,
        forall|j: int| 0 <= j < k ==> d.without_proposal(k).proposals[j] == d.proposals[j],
        forall|j: int|
            k <= j < d.proposals.len() - 1 ==> d.without_proposal(k).proposals[j] == d.proposals[j
                + 1],
{
    d.proposals.remove_ensures(k);
}

/// One vote raises the voter's tally and the proposal's tally by exactly
/// one each, and touches nothing else: no other record, no other proposal,
/// and no position changes.
pub proof fn lemma_vote_increments(d: DaoView, p: int, id: Seq<u8>)
    requires
        d.wf(),
        d.has_voter(id),
        0 <= p < d.proposals.len(),
        d.member(id).vote_count < u32::MAX,
        d.proposals[p].vote_count < u32::MAX,
    ensures
        d.after_vote(p, id).wf(),
        d.after_vote(p, id).has_voter(id),
        d.after_vote(p, id).voter_index(id) == d.voter_index(id),
        d.after_vote(p, id).member(id).vote_count == d.member(id).vote_count + 1,
        d.after_vote(p, id).member(id).name == d.member(id).name,
        d.after_vote(p, id).voters.len() == d.voters.len(),
        d.after_vote(p, id).proposals.len() == d.proposals.len(),
        d.after_vote(p, id).proposals[p].vote_count == d.proposals[p].vote_count + 1,
        forall|q: int|
            0 <= q < d.proposals.len() && q != p ==> d.after_vote(p, id).proposals[q]
                == d.proposals[q],
        forall|l: int|
            0 <= l < d.voters.len() && l != d.voter_index(id) ==> d.after_vote(p, id).voters[l]
                == d.voters[l],
{
    let i = d.voter_index(id);
    assert(0 <= i < d.voters.len() && d.voters[i].0@ == id);
    let d1 = d.after_vote(p, id);
    assert forall|a: int, b: int| 0 <= a < b < d1.voters.len() implies d1.voters[a].0@
        != d1.voters[b].0@ by {
        assert(d1.voters[a].0 == d.voters[a].0);
        assert(d1.voters[b].0 == d.voters[b].0);
        assert(d.voters[a].0@ != d.voters[b].0@);
    }
    assert(d1.voters[i].0@ == id);
    d1.lemma_voter_index_is(id, i);
}

/// Voting is not capped and not deduplicated: a second vote by the same
/// identity on the same proposal raises both tallies again, to two more
/// than before the first.
pub proof fn lemma_vote_twice_increments(d: DaoView, p: int, id: Seq<u8>)
    requires
        d.wf(),
        d.has_voter(id),
        0 <= p < d.proposals.len(),
        d.member(id).vote_count + 2 <= u32::MAX,
        d.proposals[p].vote_count + 2 <= u32::MAX,
    ensures
        d.after_vote(p, id).after_vote(p, id).member(id).vote_count == d.member(id).vote_count
            + 2,
        d.after_vote(p, id).after_vote(p, id).proposals[p].vote_count
            == d.proposals[p].vote_count + 2,
{
    lemma_vote_increments(d, p, id);
    lemma_vote_increments(d.after_vote(p, id), p, id);
}

/// The governance engine: member registry, proposal ledger, vote accounting,
/// and a handle on the Super Organization it delegates to.
pub struct Dao<C> {
    name: String,
    voters: Vec<(AccountId, Member)>,
    proposals: Vec<BasicProposal>,
    superdao: C,
    value: u8,
}

impl<C> View for Dao<C> {
    type V = DaoView;

    closed spec fn view(&self) -> DaoView {
        DaoView {
            name: self.name@,
            voters: self.voters@,
            proposals: self.proposals@,
            value: self.value,
        }
    }
}

impl<C: SuperDaoClient> Dao<C> {
    /// Builds the engine and registers it as a member of the Super
    /// Organization. A refused registration aborts construction: no engine
    /// value exists then, only the error, wrapping the organization's own.
    pub fn new(name: String, superdao: C) -> (r: Result<Dao<C>, DaoError>)
        ensures
            r matches Ok(d) ==> d@ == (DaoView {
                name: name@,
                voters: Seq::<(AccountId, Member)>::empty(),
                proposals: Seq::<BasicProposal>::empty(),
                value: 0,
            }),
            r matches Ok(d) ==> d@.wf(),
            r matches Err(e) ==> e matches DaoError::RemoteCallFailed(_),
    {
        let mut superdao = superdao;
        match superdao.register_member() {
            Ok(()) => Ok(Dao {
                name,
                voters: Vec::new(),
                proposals: Vec::new(),
                superdao,
                value: 0,
            }),
            Err(e) => Err(DaoError::RemoteCallFailed(e)),
        }
    }

    /// `new` with the default (empty) name.
    pub fn default(superdao: C) -> (r: Result<Dao<C>, DaoError>)
        ensures
            r matches Ok(d) ==> d@ == (DaoView {
                name: Seq::<char>::empty(),
                voters: Seq::<(AccountId, Member)>::empty(),
                proposals: Seq::<BasicProposal>::empty(),
                value: 0,
            }),
            r matches Ok(d) ==> d@.wf(),
            r matches Err(e) ==> e matches DaoError::RemoteCallFailed(_),
    {
        Self::new(String::new(), superdao)
    }

    /// The name the engine was built with.
    pub fn get_name(&self) -> (r: String)
        ensures
            r@ == self@.name,
    {
        self.name.clone()
    }

    /// The position of `voter_id`'s record, or `None` when it has none.
    fn find_voter(&self, voter_id: &AccountId) -> (r: Option<usize>)
        ensures
            r matches Some(i) ==> i < self@.voters.len() && self@.voters[i as int].0@ == voter_id@,
            r is None ==> !self@.has_voter(voter_id@),
    {
        let mut i: usize = 0;
        while i < self.voters.len()
            invariant
                0 <= i <= self@.voters.len(),
                forall|j: int| 0 <= j < i ==> self@.voters[j].0@ != voter_id@,
            decreases self@.voters.len() - i,
        {
            if self.voters[i].0 == *voter_id {
                return Some(i);
            }
            i = i + 1;
        }
        None
    }

    /// Whether `voter_id` is registered; a pure lookup that never fails.
    pub fn has_voter(&self, voter_id: AccountId) -> (r: bool)
        ensures
            r == self@.has_voter(voter_id@),
    {
        match self.find_voter(&voter_id) {
            Some(_) => true,
            None => false,
        }
    }

    /// Registers `voter_id` with a fresh record, or refuses an identity that
    /// is already present and changes nothing.
    pub fn register_voter(&mut self, voter_id: AccountId, voter_name: String) -> (r: Result<
        (),
        DaoError,
    >)
        ensures
            old(self)@.has_voter(voter_id@) ==> r == Err::<(), DaoError>(
                DaoError::VoterAlreadyRegistered,
            ) && final(self)@ == old(self)@,
            !old(self)@.has_voter(voter_id@) ==> r == Ok::<(), DaoError>(()) && final(self)@
                == old(self)@.with_new_voter(voter_id, voter_name) && final(self)@.has_voter(
                voter_id@,
            ),
            !old(self)@.has_voter(voter_id@) && old(self)@.wf() ==> final(self)@.member(voter_id@)
                == (Member { vote_count: 0, name: voter_name }),
            old(self)@.wf() ==> final(self)@.wf(),
    {
        if self.has_voter(voter_id) {
            return Err(DaoError::VoterAlreadyRegistered);
        }
        proof {
            if self@.wf() {
                lemma_register_then_registered(self@, voter_id, voter_name);
            }
        }
        let ghost n = self@.voters.len() as int;
        self.voters.push((voter_id, Member { vote_count: 0, name: voter_name }));
        proof {
            assert(self@.voters[n].0@ == voter_id@);
        }
        Ok(())
    }

    /// Removes `voter_id`'s record, or refuses an identity that is not
    /// present and changes nothing. Proposals this member created or voted on
    /// are unaffected.
    pub fn deregister_voter(&mut self, voter_id: AccountId) -> (r: Result<(), DaoError>)
        requires
            old(self)@.wf(),
        ensures
            !old(self)@.has_voter(voter_id@) ==> r == Err::<(), DaoError>(
                DaoError::VoterNotRegistered,
            ) && final(self)@ == old(self)@,
            old(self)@.has_voter(voter_id@) ==> r == Ok::<(), DaoError>(()) && final(self)@
                == old(self)@.without_voter(voter_id@) && !final(self)@.has_voter(voter_id@),
            final(self)@.wf(),
    {
        match self.find_voter(&voter_id) {
            None => Err(DaoError::VoterNotRegistered),
            Some(i) => {
                proof {
                    self@.lemma_voter_index_is(voter_id@, i as int);
                    lemma_deregister_removes(self@, voter_id@);
                }
                self.voters.remove(i);
                Ok(())
            },
        }
    }

    /// Appends a fresh proposal and returns its position, or refuses an
    /// unregistered caller and changes nothing.
    pub fn create_proposal(&mut self, voter_id: AccountId) -> (r: Result<u32, DaoError>)
        requires
            old(self)@.proposals.len() <= u32::MAX,
        ensures
            !old(self)@.has_voter(voter_id@) ==> r == Err::<u32, DaoError>(
                DaoError::VoterNotRegistered,
            ) && final(self)@ == old(self)@,
            old(self)@.has_voter(voter_id@) ==> r == Ok::<u32, DaoError>(
                old(self)@.proposals.len() as u32,
            ) && final(self)@ == old(self)@.with_new_proposal(),
    {
        if !self.has_voter(voter_id) {
            return Err(DaoError::VoterNotRegistered);
        }
        let position = self.proposals.len();
        self.proposals.push(BasicProposal { vote_count: 0 });
        Ok(position as u32)
    }

    /// Deletes the proposal at `proposal_id`, shifting all later positions
    /// down by one; refuses an unregistered caller or a position at or past
    /// the ledger's length, changing nothing then.
    pub fn remove_proposal(&mut self, proposal_id: u32, voter_id: AccountId) -> (r: Result<
        (),
        DaoError,
    >)
        ensures
            !old(self)@.has_voter(voter_id@) ==> r == Err::<(), DaoError>(
                DaoError::VoterNotRegistered,
            ) && final(self)@ == old(self)@,
            old(self)@.has_voter(voter_id@) && proposal_id >= old(self)@.proposals.len() ==> r
                == Err::<(), DaoError>(DaoError::ProposalDoesNotExist) && final(self)@ == old(
                self,
            )@,
            old(self)@.has_voter(voter_id@) && proposal_id < old(self)@.proposals.len() ==> r
                == Ok::<(), DaoError>(()) && final(self)@ == old(self)@.without_proposal(
                proposal_id as int,
            ),
    {
        if !self.has_voter(voter_id) {
            return Err(DaoError::VoterNotRegistered);
        }
        if (proposal_id as usize) >= self.proposals.len() {
            return Err(DaoError::ProposalDoesNotExist);
        }
        self.proposals.remove(proposal_id as usize);
        Ok(())
    }

    /// A snapshot of the proposal at `proposal_id`, or `ProposalDoesNotExist`
    /// for a position at or past the ledger's length.
    pub fn get_proposal(&self, proposal_id: u32) -> (r: Result<BasicProposal, DaoError>)
        ensures
            proposal_id < self@.proposals.len() ==> r == Ok::<BasicProposal, DaoError>(
                self@.proposals[proposal_id as int],
            ),
            proposal_id >= self@.proposals.len() ==> r == Err::<BasicProposal, DaoError>(
                DaoError::ProposalDoesNotExist,
            ),
    {
        if (proposal_id as usize) < self.proposals.len() {
            Ok(self.proposals[proposal_id as usize])
        } else {
            Err(DaoError::ProposalDoesNotExist)
        }
    }

    /// Counts a vote by `voter_id` on the proposal at `proposal_id`: both the
    /// proposal's tally and the voter's tally go up by exactly one, both or
    /// neither. The same identity may vote on the same proposal repeatedly;
    /// each call counts. Refuses an unregistered caller or a missing
    /// position, changing nothing then.
    pub fn vote(&mut self, proposal_id: u32, voter_id: AccountId) -> (r: Result<(), DaoError>)
        requires
            old(self)@.wf(),
            old(self)@.has_voter(voter_id@) ==> old(self)@.member(voter_id@).vote_count
                < u32::MAX,
            old(self)@.has_voter(voter_id@) && proposal_id < old(self)@.proposals.len() ==> old(
                self,
            )@.proposals[proposal_id as int].vote_count < u32::MAX,
        ensures
            !old(self)@.has_voter(voter_id@) ==> r == Err::<(), DaoError>(
                DaoError::VoterNotRegistered,
            ) && final(self)@ == old(self)@,
            old(self)@.has_voter(voter_id@) && proposal_id >= old(self)@.proposals.len() ==> r
                == Err::<(), DaoError>(DaoError::ProposalDoesNotExist) && final(self)@ == old(
                self,
            )@,
            old(self)@.has_voter(voter_id@) && proposal_id < old(self)@.proposals.len() ==> r
                == Ok::<(), DaoError>(()) && final(self)@ == old(self)@.after_vote(
                proposal_id as int,
                voter_id@,
            ) && final(self)@.has_voter(voter_id@) && final(self)@.member(voter_id@).vote_count
                == old(self)@.member(voter_id@).vote_count + 1 && final(self)@.proposals[proposal_id as int].vote_count == old(self)@.proposals[proposal_id as int].vote_count
                + 1 && final(self)@.proposals.len() == old(self)@.proposals.len(),
            final(self)@.wf(),
    {
        let i = match self.find_voter(&voter_id) {
            None => {
                return Err(DaoError::VoterNotRegistered);
            },
            Some(i) => i,
        };
        if (proposal_id as usize) >= self.proposals.len() {
            return Err(DaoError::ProposalDoesNotExist);
        }
        proof {
            self@.lemma_voter_index_is(voter_id@, i as int);
            lemma_vote_increments(self@, proposal_id as int, voter_id@);
        }
        let entry = vec_index_mut(&mut self.voters, i);
        entry.1.vote_count = entry.1.vote_count + 1;
        let slot = vec_index_mut(&mut self.proposals, proposal_id as usize);
        slot.vote_count = slot.vote_count + 1;
        proof {
            let d0 = old(self)@;
            let d1 = d0.after_vote(proposal_id as int, voter_id@);
            assert(self@.voters =~= d1.voters);
            assert(self@.proposals =~= d1.proposals);
        }
        Ok(())
    }

    /// The number of votes `voter_id` has cast, or `VoterNotRegistered`.
    pub fn vote_count(&self, voter_id: AccountId) -> (r: Result<u32, DaoError>)
        requires
            self@.wf(),
        ensures
            self@.has_voter(voter_id@) ==> r == Ok::<u32, DaoError>(
                self@.member(voter_id@).vote_count,
            ),
            !self@.has_voter(voter_id@) ==> r == Err::<u32, DaoError>(DaoError::VoterNotRegistered),
    {
        match self.find_voter(&voter_id) {
            None => Err(DaoError::VoterNotRegistered),
            Some(i) => {
                proof {
                    self@.lemma_voter_index_is(voter_id@, i as int);
                }
                Ok(self.voters[i].1.vote_count)
            },
        }
    }

    /// Submits a fully built call descriptor as a proposal of the Super
    /// Organization, on behalf of the registered member `voter`. The
    /// organization's answer — its identifier for the proposal, or its own
    /// error — is surfaced unchanged. Local state never changes.
    pub fn create_contract_call_proposal(&mut self, voter: AccountId, call: Call) -> (r: Result<
        Result<u32, SuperDaoError>,
        DaoError,
    >)
        ensures
            final(self)@ == old(self)@,
            !old(self)@.has_voter(voter@) ==> r == Err::<Result<u32, SuperDaoError>, DaoError>(
                DaoError::VoterNotRegistered,
            ),
            old(self)@.has_voter(voter@) ==> r matches Ok(_),
    {
        if !self.has_voter(voter) {
            return Err(DaoError::VoterNotRegistered);
        }
        Ok(self.superdao.create_proposal(call))
    }

    /// Builds a cross-chain proposal — destination the sibling chain 1000,
    /// fee drawn from the parent's asset, instruction sequence exactly
    /// withdraw-asset, buy-execution, transact with the caller's weight
    /// limits — and submits it to the Super Organization on behalf of the
    /// registered member `voter`. The organization's answer is surfaced
    /// unchanged. Local state never changes.
    pub fn create_superdao_cross_chain_proposal(
        &mut self,
        voter: AccountId,
        encoded_extrinsic: Vec<u8>,
        fee_max: u128,
        ref_time: u64,
        proof_size: u64,
    ) -> (r: Result<Result<u32, SuperDaoError>, DaoError>)
        ensures
            final(self)@ == old(self)@,
            !old(self)@.has_voter(voter@) ==> r == Err::<Result<u32, SuperDaoError>, DaoError>(
                DaoError::VoterNotRegistered,
            ),
            old(self)@.has_voter(voter@) ==> r matches Ok(_),
    {
        if !self.has_voter(voter) {
            return Err(DaoError::VoterNotRegistered);
        }
        let chain_call = encode_chain_call(
            1000,
            Location::parent(),
            fee_max,
            encoded_extrinsic,
            ref_time,
            proof_size,
        );
        Ok(self.superdao.create_proposal(Call::Chain(chain_call)))
    }

    /// Casts a delegated vote — `true` for aye, `false` for nay — on the
    /// Super Organization's proposal `proposal_id`, on behalf of the
    /// registered member `voter`. A refused remote vote is reported as
    /// `RemoteCallFailed` and must be treated as fatal by the caller: the
    /// engine has no compensating action. Local state never changes.
    pub fn vote_proposal(&mut self, proposal_id: u32, vote: bool, voter: AccountId) -> (r: Result<
        (),
        DaoError,
    >)
        ensures
            final(self)@ == old(self)@,
            !old(self)@.has_voter(voter@) ==> r == Err::<(), DaoError>(
                DaoError::VoterNotRegistered,
            ),
            old(self)@.has_voter(voter@) ==> r == Ok::<(), DaoError>(()) || r matches Err(
                DaoError::RemoteCallFailed(_),
            ),
    {
        if !self.has_voter(voter) {
            return Err(DaoError::VoterNotRegistered);
        }
        let v = if vote {
            Vote::Aye
        } else {
            Vote::Nay
        };
        match self.superdao.vote(proposal_id, v) {
            Ok(()) => Ok(()),
            Err(e) => Err(DaoError::RemoteCallFailed(e)),
        }
    }

    /// Raises the stored value by ten, saturating at the type's ceiling.
    pub fn update_value(&mut self) -> (r: Result<(), DaoError>)
        ensures
            r == Ok::<(), DaoError>(()),
            final(self)@ == (DaoView { value: old(self)@.value.saturating_add(10), ..old(self)@ }),
    {
        self.value = self.value.saturating_add(10);
        Ok(())
    }

    /// The stored value.
    pub fn get_value(&mut self) -> (r: u8)
        ensures
            final(self)@ == old(self)@,
            r == old(self)@.value,
    {
        self.value
    }
}

} // verus!
