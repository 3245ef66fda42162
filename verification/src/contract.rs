//! The proxy's state and its entry points: an allow-list of code hashes that
//! only the owner extends, a registry in which every caller enters itself,
//! and the forwarding of a vote.

use crate::dispatch::{callback_line, callback_text, plan_vote, CallFailure, VoteDispatch};
use crate::host::{
    account_balance, account_name_length, current_account_id, predecessor_account_id,
};
use crate::payload::{MerkleProof, ProposalId, VAccount};
use crate::store::{
    is_storable, map_contents, map_length, set_contents, set_length, storable, CodehashSet,
    WorkerMap,
};
use vstd::prelude::*;
use vstd::string::StringExecFns;

verus! {

/// The storage prefix of the allow-list: the letter `a`.
pub const APPROVED_PREFIX: u8 = 0x61;

/// The storage prefix of the registry: the letter `b`.
pub const WORKERS_PREFIX: u8 = 0x62;

/// A registered worker: the code hash that its account claimed.
#[derive(Clone, Debug, PartialEq, Eq)]
pub struct Worker {
    codehash: String,
}

impl View for Worker {
    type V = Seq<char>;

    /// The code hash that the worker claimed.
    closed spec fn view(&self) -> Seq<char> {
        self.codehash@
    }
}

impl Worker {
    /// The record of a claimed code hash.
    pub fn new(codehash: String) -> (worker: Worker)
        ensures
            worker@ == codehash@,
    {
        Worker { codehash }
    }

    /// The code hash that the worker claimed.
    pub fn codehash(&self) -> (codehash: &String)
        ensures
            codehash@ == self@,
    {
        &self.codehash
    }
}

/// Why an entry point refused a call. On the chain each of them aborts the
/// call, and nothing that the call did to the state persists.
#[derive(Clone, Copy, Debug, PartialEq, Eq, Structural)]
pub enum ContractError {
    /// The caller is not the owner.
    NotOwner,
    /// No worker is registered under the account.
    NoWorkerFound,
    /// The worker's code hash is not on the allow-list.
    CodehashNotApproved,
    /// The text has more bytes than storage can take.
    TextTooLong,
    /// The container counts as many items as it can.
    ContainerFull,
}

impl ContractError {
    /// The text with which the call aborts: for a missing worker a text of
    /// its own, for a requirement that failed and for a full container the
    /// SDK's text for that, and none for a text that storage cannot take.
    pub open spec fn text(self) -> Seq<char> {
        match self {
            ContractError::NotOwner => "require! assertion failed"@,
            ContractError::NoWorkerFound => "no worker found"@,
            ContractError::CodehashNotApproved => "require! assertion failed"@,
            ContractError::TextTooLong => ""@,
            ContractError::ContainerFull => "Index out of bounds"@,
        }
    }

    /// Writes the text with which the call aborts.
    pub fn message(&self) -> (message: String)
        ensures
            message@ == self.text(),
    {
        match self {
            ContractError::NotOwner => String::from_str("require! assertion failed"),
            ContractError::NoWorkerFound => String::from_str("no worker found"),
            ContractError::CodehashNotApproved => String::from_str("require! assertion failed"),
            ContractError::TextTooLong => String::from_str(""),
            ContractError::ContainerFull => String::from_str("Index out of bounds"),
        }
    }
}

/// The state of the proxy.
pub struct Contract {
    /// The account that may approve code hashes. It never changes.
    pub owner_id: String,
    /// The allow-list of code hashes.
    pub approved_codehashes: CodehashSet,
    /// The registry: for each registered account the code hash it claimed.
    pub worker_by_account_id: WorkerMap,
}

impl Contract {
    /// The name of the owner's account.
    pub open spec fn owner(&self) -> Seq<char> {
        self.owner_id@
    }

    /// The approved code hashes: the texts that storage can take and that
    /// the allow-list finds.
    pub open spec fn approved(&self) -> Set<Seq<char>> {
        Set::new(
            |codehash: Seq<char>|
                storable(codehash) && set_contents(self.approved_codehashes).contains(codehash),
        )
    }

    /// The number of code hashes that the allow-list counts.
    pub open spec fn approved_length(&self) -> nat {
        set_length(self.approved_codehashes)
    }

    /// The registry, from account name to claimed code hash: the entries
    /// that the registry finds under the names that storage can take.
    pub open spec fn workers(&self) -> Map<Seq<char>, Seq<char>> {
        map_contents(self.worker_by_account_id).restrict(
            Set::new(|account: Seq<char>| storable(account)),
        )
    }

    /// The number of workers that the registry counts.
    pub open spec fn worker_length(&self) -> nat {
        map_length(self.worker_by_account_id)
    }

    /// Neither container finds anything.
    pub open spec fn holds_nothing(&self) -> bool {
        &&& self.approved() == Set::<Seq<char>>::empty()
        &&& self.workers() == Map::<Seq<char>, Seq<char>>::empty()
    }

    /// Each container counts what it finds: it finds finitely many items,
    /// as many as its length says. The entry points keep this; it holds of
    /// a new state if storage held nothing under the two prefixes.
    pub open spec fn wf(&self) -> bool {
        &&& self.approved().finite()
        &&& self.approved().len() == self.approved_length()
        &&& self.workers().dom().finite()
        &&& self.workers().dom().len() == self.worker_length()
    }

    /// The allow-list can take the code hash: storage can take the text, and
    /// the list holds it already or its length, which storage counts in a
    /// `u32`, can still grow.
    pub open spec fn has_room_for_codehash(&self, codehash: Seq<char>) -> bool {
        &&& storable(codehash)
        &&& self.approved().contains(codehash) || self.approved_length() < u32::MAX
    }

    /// The registry can take the code hash under the account: storage can
    /// take both texts, and the registry holds an entry for the account
    /// already or its length, which storage counts in a `u32`, can still
    /// grow.
    pub open spec fn has_room_for_worker(&self, account: Seq<char>, codehash: Seq<char>) -> bool {
        &&& storable(account)
        &&& storable(codehash)
        &&& self.workers().contains_key(account) || self.worker_length() < u32::MAX
    }

    /// What approving the code hash on behalf of `caller` comes to: anyone
    /// but the owner is refused; for the owner a text that storage cannot
    /// take is refused, then a new code hash for which the list has no room;
    /// every other approval succeeds.
    pub open spec fn approve_outcome(&self, caller: Seq<char>, codehash: Seq<char>) -> Result<
        (),
        ContractError,
    > {
        if caller != self.owner() {
            Err(ContractError::NotOwner)
        } else if !storable(codehash) {
            Err(ContractError::TextTooLong)
        } else if !self.has_room_for_codehash(codehash) {
            Err(ContractError::ContainerFull)
        } else {
            Ok(())
        }
    }

    /// The outcome is what approving the code hash comes to for some caller
    /// whose name has a length that the host accepts.
    pub open spec fn approve_outcome_of_a_caller(
        &self,
        codehash: Seq<char>,
        outcome: Result<(), ContractError>,
    ) -> bool {
        exists|caller: Seq<char>|
            account_name_length(caller) && outcome == #[trigger] self.approve_outcome(
                caller,
                codehash,
            )
    }

    /// The state `after` is this one with the code hash approved: the
    /// allow-list has gained it, and counts one more if it is new; the rest
    /// is as it was.
    pub open spec fn approved_one(&self, after: Contract, codehash: Seq<char>) -> bool {
        &&& after.approved() == self.approved().insert(codehash)
        &&& after.approved_length() == self.approved_length() + if self.approved().contains(
            codehash,
        ) {
            0nat
        } else {
            1nat
        }
        &&& after.worker_by_account_id == self.worker_by_account_id
        &&& after.owner_id == self.owner_id
    }

    /// The state `after` is this one with the code hash registered under the
    /// account: the registry has gained or replaced that entry, and counts
    /// one more if the account is new; the rest is as it was.
    pub open spec fn registered_one(
        &self,
        after: Contract,
        account: Seq<char>,
        codehash: Seq<char>,
    ) -> bool {
        &&& after.workers() == self.workers().insert(account, codehash)
        &&& after.worker_length() == self.worker_length() + if self.workers().contains_key(
            account,
        ) {
            0nat
        } else {
            1nat
        }
        &&& after.approved_codehashes == self.approved_codehashes
        &&& after.owner_id == self.owner_id
    }

    /// What a registration with the code hash, reported as `registered`, has
    /// made of this state, for some caller whose name has a length that the
    /// host accepts: where the registry had room for the caller's entry the
    /// state `after` has that entry, and else it is this state.
    pub open spec fn registered_a_caller(
        &self,
        after: Contract,
        codehash: Seq<char>,
        registered: bool,
    ) -> bool {
        exists|caller: Seq<char>|
            {
                &&& account_name_length(caller)
                &&& registered == #[trigger] self.has_room_for_worker(caller, codehash)
                &&& registered ==> self.registered_one(after, caller, codehash)
                &&& !registered ==> after == *self
            }
    }

    /// What the check of approval gives for an account: it passes an account
    /// that is registered with a code hash on the allow-list, misses the
    /// worker of one that is not registered, and refuses the code hash of one
    /// that is registered with another.
    pub open spec fn approval_of(&self, account: Seq<char>) -> Result<(), ContractError> {
        if !self.workers().contains_key(account) {
            Err(ContractError::NoWorkerFound)
        } else if self.approved().contains(self.workers()[account]) {
            Ok(())
        } else {
            Err(ContractError::CodehashNotApproved)
        }
    }

    /// The outcome is what the check of approval gives for some account whose
    /// name has a length that the host accepts.
    pub open spec fn approval_of_a_caller(&self, outcome: Result<(), ContractError>) -> bool {
        exists|caller: Seq<char>|
            account_name_length(caller) && outcome == #[trigger] self.approval_of(caller)
    }

    /// The state of a new proxy: the given owner, and two containers that
    /// count nothing. What they find is what storage holds under the two
    /// prefixes: nothing, where the state is made once and before anything
    /// is stored there, as the host sees to on the chain.
    pub fn init(owner_id: String) -> (contract: Contract)
        ensures
            contract.owner() == owner_id@,
            contract.approved_length() == 0,
            contract.worker_length() == 0,
            contract.holds_nothing() ==> contract.wf(),
    {
        Contract {
            owner_id,
            approved_codehashes: CodehashSet::new(APPROVED_PREFIX),
            worker_by_account_id: WorkerMap::new(WORKERS_PREFIX),
        }
    }

    /// The number of code hashes that the allow-list counts.
    pub fn approved_count(&self) -> (count: u32)
        ensures
            count == self.approved_length(),
    {
        self.approved_codehashes.len()
    }

    /// The number of workers that the registry counts.
    pub fn worker_count(&self) -> (count: u32)
        ensures
            count == self.worker_length(),
    {
        self.worker_by_account_id.len()
    }

    /// Whether the code hash is on the allow-list.
    pub fn is_approved(&self, codehash: &String) -> (approved: bool)
        ensures
            approved == self.approved().contains(codehash@),
    {
        is_storable(codehash) && self.approved_codehashes.contains(codehash)
    }

    /// Whether a worker is registered under the account.
    pub fn is_registered(&self, account: &String) -> (registered: bool)
        ensures
            registered == self.workers().contains_key(account@),
    {
        is_storable(account) && self.worker_by_account_id.get(account).is_some()
    }

    /// Whether the allow-list can take the code hash.
    pub fn can_approve(&self, codehash: &String) -> (room: bool)
        ensures
            room == self.has_room_for_codehash(codehash@),
    {
        is_storable(codehash) && (self.approved_codehashes.contains(codehash)
            || self.approved_codehashes.len() < u32::MAX)
    }

    /// Whether the registry can take the code hash under the account.
    pub fn can_register(&self, account: &String, codehash: &String) -> (room: bool)
        ensures
            room == self.has_room_for_worker(account@, codehash@),
    {
        is_storable(account) && is_storable(codehash) && (self.worker_by_account_id.get(
            account,
        ).is_some() || self.worker_by_account_id.len() < u32::MAX)
    }

    /// Passes the owner and nobody else.
    fn require_owner(&self, caller: &String) -> (outcome: Result<(), ContractError>)
        ensures
            caller@ == self.owner() ==> outcome == Ok::<(), ContractError>(()),
            caller@ != self.owner() ==> outcome == Err::<(), ContractError>(ContractError::NotOwner),
    {
        if *caller == self.owner_id {
            Ok(())
        } else {
            Err(ContractError::NotOwner)
        }
    }

    /// Approves a code hash on behalf of `caller`. For the owner the code
    /// hash joins the allow-list, where approving it again changes nothing.
    /// For anyone else the call is refused, and so it is for the owner where
    /// storage cannot take the code hash; a refusal leaves the state as it
    /// was.
    pub fn approve_codehash_as(&mut self, caller: &String, codehash: String) -> (outcome: Result<
        (),
        ContractError,
    >)
        ensures
            outcome == old(self).approve_outcome(caller@, codehash@),
            outcome is Ok ==> old(self).approved_one(*final(self), codehash@),
            outcome is Err ==> *final(self) == *old(self),
            old(self).wf() ==> final(self).wf(),
    {
        match self.require_owner(caller) {
            Ok(_) => {
                if !is_storable(&codehash) {
                    Err(ContractError::TextTooLong)
                } else if !self.can_approve(&codehash) {
                    Err(ContractError::ContainerFull)
                } else {
                    let ghost claimed = codehash@;
                    let _ = self.approved_codehashes.insert(codehash);
                    assert(self.approved() =~= old(self).approved().insert(claimed));
                    Ok(())
                }
            },
            Err(refusal) => Err(refusal),
        }
    }

    /// Approves a code hash on behalf of the account whose call is being
    /// served: see `approve_codehash_as`. The host names the caller, so the
    /// outcome is that of the approval for some account.
    pub fn approve_codehash(&mut self, codehash: String) -> (outcome: Result<(), ContractError>)
        ensures
            old(self).approve_outcome_of_a_caller(codehash@, outcome),
            outcome is Ok ==> old(self).approved_one(*final(self), codehash@),
            outcome is Err ==> *final(self) == *old(self),
            old(self).wf() ==> final(self).wf(),
    {
        let caller = predecessor_account_id();
        self.approve_codehash_as(&caller, codehash)
    }

    /// Registers `caller` as a worker with the code hash it claims. Nothing
    /// is checked: any account may claim any code hash, and a later claim
    /// replaces an earlier one. It returns `true`; only where storage cannot
    /// take the entry it returns `false` and leaves the state as it was.
    pub fn register_agent_as(&mut self, caller: String, codehash: String) -> (registered: bool)
        ensures
            registered == old(self).has_room_for_worker(caller@, codehash@),
            registered ==> old(self).registered_one(*final(self), caller@, codehash@),
            !registered ==> *final(self) == *old(self),
            old(self).wf() ==> final(self).wf(),
    {
        if !self.can_register(&caller, &codehash) {
            return false;
        }
        let ghost account = caller@;
        let ghost claimed = codehash@;
        let _ = self.worker_by_account_id.insert(caller, codehash);
        assert(self.workers() =~= old(self).workers().insert(account, claimed));
        true
    }

    /// Registers the account whose call is being served as a worker with the
    /// code hash it claims: see `register_agent_as`. The host names the
    /// caller, so the registration is that of some account.
    pub fn register_agent(&mut self, codehash: String) -> (registered: bool)
        ensures
            old(self).registered_a_caller(*final(self), codehash@, registered),
            final(self).approved_codehashes == old(self).approved_codehashes,
            final(self).owner_id == old(self).owner_id,
            old(self).wf() ==> final(self).wf(),
    {
        // Local development: the claim is entered without attestation.
        let caller = predecessor_account_id();
        self.register_agent_as(caller, codehash)
    }

    /// The worker registered under the account, or `NoWorkerFound` if there
    /// is none.
    pub fn get_agent(&self, account_id: String) -> (outcome: Result<Worker, ContractError>)
        ensures
            match outcome {
                Ok(worker) => self.workers().contains_key(account_id@) && worker@
                    == self.workers()[account_id@],
                Err(refusal) => refusal == ContractError::NoWorkerFound
                    && !self.workers().contains_key(account_id@),
            },
    {
        if !is_storable(&account_id) {
            return Err(ContractError::NoWorkerFound);
        }
        match self.worker_by_account_id.get(&account_id) {
            Some(codehash) => Ok(Worker::new(codehash.clone())),
            None => Err(ContractError::NoWorkerFound),
        }
    }

    /// The balance of the proxy's account in yoctoNEAR, as the host reports
    /// it.
    pub fn get_contract_balance(&self) -> (yocto: u128) {
        account_balance()
    }

    /// Passes `caller` if it is registered with an approved code hash.
    /// No entry point asks for this: whether a vote should is left open.
    pub fn require_approved_codehash_as(&self, caller: String) -> (outcome: Result<
        (),
        ContractError,
    >)
        ensures
            outcome == self.approval_of(caller@),
    {
        match self.get_agent(caller) {
            Ok(worker) => {
                if self.is_approved(worker.codehash()) {
                    Ok(())
                } else {
                    Err(ContractError::CodehashNotApproved)
                }
            },
            Err(refusal) => Err(refusal),
        }
    }

    /// Passes the account whose call is being served if it is registered with
    /// an approved code hash: see `require_approved_codehash_as`. The host
    /// names the caller, so the outcome is that of the check for some account:
    /// it passes only if a registered worker has an approved code hash, and
    /// where nobody is registered it finds no worker. The state stays as it
    /// was.
    pub fn require_approved_codehash(&mut self) -> (outcome: Result<(), ContractError>)
        ensures
            *final(self) == *old(self),
            old(self).approval_of_a_caller(outcome),
    {
        let caller = predecessor_account_id();
        self.require_approved_codehash_as(caller)
    }

    /// Casts a vote: plans the call to the voting contract that carries the
    /// four arguments, and the continuation that brings its outcome back to
    /// this proxy. Neither the allow-list nor the registry is asked, and the
    /// state stays as it was.
    pub fn cast_vote(
        &mut self,
        proposal_id: ProposalId,
        vote: u8,
        merkle_proof: MerkleProof,
        v_account: VAccount,
    ) -> (plan: VoteDispatch)
        ensures
            *final(self) == *old(self),
            account_name_length(plan.callback.receiver@),
            plan.is_for(plan.callback.receiver@, proposal_id, vote, merkle_proof, v_account),
    {
        let current = current_account_id();
        plan_vote(current, proposal_id, vote, merkle_proof, v_account)
    }
}

/// Approving a code hash twice is approving it once: after the second
/// approval the allow-list is what it was after the first, finds as many
/// code hashes and counts as many.
pub proof fn lemma_approving_twice(
    before: Contract,
    once: Contract,
    twice: Contract,
    codehash: Seq<char>,
)
    requires
        before.approved_one(once, codehash),
        once.approved_one(twice, codehash),
    ensures
        twice.approved() == once.approved(),
        twice.approved().len() == once.approved().len(),
        twice.approved_length() == once.approved_length(),
{
    assert(twice.approved() =~= once.approved());
}

/// The last registration of an account wins: after two registrations of one
/// account the registry is what the second alone would have made it, with
/// the later code hash under the account; it has no entry more than after
/// the first and counts no more.
pub proof fn lemma_last_registration_wins(
    before: Contract,
    first: Contract,
    second: Contract,
    account: Seq<char>,
    earlier: Seq<char>,
    later: Seq<char>,
)
    requires
        before.registered_one(first, account, earlier),
        first.registered_one(second, account, later),
    ensures
        second.workers() == before.workers().insert(account, later),
        second.workers()[account] == later,
        second.workers().dom() == first.workers().dom(),
        second.worker_length() == first.worker_length(),
{
}

/// The continuations that the proxy offers to the host.
pub trait SelfCallbacks: Sized {
    /// Takes the outcome of a vote that the proxy cast and returns the line
    /// to log about it. The state stays as it was, whatever the outcome.
    fn vote_callback(
        &mut self,
        proposal_id: ProposalId,
        vote: u8,
        result: Result<(), CallFailure>,
    ) -> (line: String)
        ensures
            *final(self) == *old(self),
            line@ == callback_text(proposal_id, vote, result),
    ;
}

impl SelfCallbacks for Contract {
    fn vote_callback(
        &mut self,
        proposal_id: ProposalId,
        vote: u8,
        result: Result<(), CallFailure>,
    ) -> (line: String) {
        callback_line(proposal_id, vote, &result)
    }
}

} // verus!
