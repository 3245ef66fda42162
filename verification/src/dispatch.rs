//! The vote as messages: the request that the proxy sends out, the
//! continuation that the host runs once the request has settled, and the
//! lines that the proxy logs about both.

use crate::host::{gas_from_tgas, gas_of_tgas, yocto_from_millinear, yocto_of_millinear};
use crate::payload::{MerkleProof, ProposalId, ProxyVoteArgs, VAccount};
use crate::text::{decimal, decimal_string};
use vstd::prelude::*;
use vstd::string::StringExecFns;

verus! {

/// The account of the voting contract.
pub const VOTING_CONTRACT: &'static str = "vote.ballotbox.testnet";

/// The gas given to the voting contract's `vote`, in teragas.
pub const GOVERNANCE_TGAS: u64 = 50;

/// The gas given to the continuation, in teragas.
pub const CALLBACK_TGAS: u64 = 30;

/// The deposit attached to the vote, in milliNEAR.
pub const DEPOSIT_MILLINEAR: u128 = 1;

/// The call to the voting contract's `vote`.
#[derive(Clone, Debug, PartialEq)]
pub struct VoteCall {
    /// The account called.
    pub receiver: String,
    /// The arguments of `vote`.
    pub args: ProxyVoteArgs,
    /// The attached deposit, in yoctoNEAR.
    pub deposit: u128,
    /// The gas given to the call, in gas units.
    pub gas: u64,
}

/// The continuation: a call of the proxy's own `vote_callback`, to run once
/// the vote has settled. The host adds the outcome of the vote.
#[derive(Clone, Debug, PartialEq)]
pub struct CallbackCall {
    /// The account called: the proxy's own.
    pub receiver: String,
    pub proposal_id: ProposalId,
    pub vote: u8,
    /// The gas given to the call, in gas units.
    pub gas: u64,
}

/// What casting a vote asks of the host: a line to log, one call to send and
/// one continuation to run after it.
#[derive(Clone, Debug, PartialEq)]
pub struct VoteDispatch {
    pub log: String,
    pub call: VoteCall,
    pub callback: CallbackCall,
}

/// Why a call to another contract gave no result.
#[derive(Clone, Debug, PartialEq, Eq)]
pub struct CallFailure {
    /// The failure in the words of the host's SDK.
    pub detail: String,
}

/// The line logged when a vote is cast.
pub open spec fn casting_text(proposal_id: ProposalId, vote: u8) -> Seq<char> {
    "🗳️ PROXY: Casting vote "@ + decimal(vote as nat) + " for proposal "@ + decimal(
        proposal_id as nat,
    )
}

/// The line logged when the voting contract took the vote.
pub open spec fn success_text(proposal_id: ProposalId, vote: u8) -> Seq<char> {
    "✅ PROXY: Successfully cast vote "@ + decimal(vote as nat) + " for proposal "@ + decimal(
        proposal_id as nat,
    )
}

/// The line logged when the vote failed: it ends with the detail of the
/// failure.
pub open spec fn failure_text(proposal_id: ProposalId, detail: Seq<char>) -> Seq<char> {
    "❌ PROXY: Failed to cast vote for proposal "@ + decimal(proposal_id as nat) + ": "@ + detail
}

/// The line that the continuation logs for an outcome of the vote.
pub open spec fn callback_text(
    proposal_id: ProposalId,
    vote: u8,
    result: Result<(), CallFailure>,
) -> Seq<char> {
    match result {
        Ok(_) => success_text(proposal_id, vote),
        Err(failure) => failure_text(proposal_id, failure.detail@),
    }
}

/// Writes the line logged when a vote is cast.
pub fn casting_line(proposal_id: ProposalId, vote: u8) -> (line: String)
    ensures
        line@ == casting_text(proposal_id, vote),
{
    let mut line = String::from_str("🗳️ PROXY: Casting vote ");
    let vote_digits = decimal_string(vote as u64);
    line.append(vote_digits.as_str());
    line.append(" for proposal ");
    let proposal_digits = decimal_string(proposal_id as u64);
    line.append(proposal_digits.as_str());
    line
}

/// Writes the line that the continuation logs for an outcome of the vote.
pub fn callback_line(proposal_id: ProposalId, vote: u8, result: &Result<(), CallFailure>) -> (line:
    String)
    ensures
        line@ == callback_text(proposal_id, vote, *result),
{
    let proposal_digits = decimal_string(proposal_id as u64);
    match result {
        Ok(_) => {
            let mut line = String::from_str("✅ PROXY: Successfully cast vote ");
            let vote_digits = decimal_string(vote as u64);
            line.append(vote_digits.as_str());
            line.append(" for proposal ");
            line.append(proposal_digits.as_str());
            line
        },
        Err(failure) => {
            let mut line = String::from_str("❌ PROXY: Failed to cast vote for proposal ");
            line.append(proposal_digits.as_str());
            line.append(": ");
            line.append(failure.detail.as_str());
            line
        },
    }
}

/// The line logged for a failed vote ends with the detail of the failure,
/// whatever the detail is.
pub proof fn lemma_failure_text_shows_detail(proposal_id: ProposalId, detail: Seq<char>)
    ensures
        failure_text(proposal_id, detail).len() >= detail.len(),
        failure_text(proposal_id, detail).skip(
            failure_text(proposal_id, detail).len() - detail.len(),
        ) == detail,
{
    let head = "❌ PROXY: Failed to cast vote for proposal "@ + decimal(proposal_id as nat) + ": "@;
    assert((head + detail).skip(head.len() as int) =~= detail);
}

impl VoteDispatch {
    /// Whether this is the dispatch of the given vote by the proxy that runs
    /// under the account `current`: the line names the vote and the
    /// proposal; the call goes to the voting contract with the four arguments
    /// as they were given, the fixed deposit and the fixed gas; the
    /// continuation goes back to the proxy with the proposal and the vote.
    pub open spec fn is_for(
        self,
        current: Seq<char>,
        proposal_id: ProposalId,
        vote: u8,
        merkle_proof: MerkleProof,
        v_account: VAccount,
    ) -> bool {
        &&& self.log@ == casting_text(proposal_id, vote)
        &&& self.call.receiver@ == VOTING_CONTRACT@
        &&& self.call.args.proposal_id == proposal_id
        &&& self.call.args.vote == vote
        &&& self.call.args.merkle_proof == merkle_proof
        &&& self.call.args.v_account == v_account
        &&& self.call.deposit == yocto_of_millinear(DEPOSIT_MILLINEAR as nat)
        &&& self.call.gas == gas_of_tgas(GOVERNANCE_TGAS as nat)
        &&& self.callback.receiver@ == current
        &&& self.callback.proposal_id == proposal_id
        &&& self.callback.vote == vote
        &&& self.callback.gas == gas_of_tgas(CALLBACK_TGAS as nat)
    }
}

/// Plans the dispatch of a vote by the proxy that runs under the account
/// `current`.
pub fn plan_vote(
    current: String,
    proposal_id: ProposalId,
    vote: u8,
    merkle_proof: MerkleProof,
    v_account: VAccount,
) -> (plan: VoteDispatch)
    ensures
        plan.is_for(current@, proposal_id, vote, merkle_proof, v_account),
{
    let log = casting_line(proposal_id, vote);
    let call = VoteCall {
        receiver: String::from_str(VOTING_CONTRACT),
        args: ProxyVoteArgs { proposal_id, vote, merkle_proof, v_account },
        deposit: yocto_from_millinear(DEPOSIT_MILLINEAR),
        gas: gas_from_tgas(GOVERNANCE_TGAS),
    };
    let callback = CallbackCall {
        receiver: current,
        proposal_id,
        vote,
        gas: gas_from_tgas(CALLBACK_TGAS),
    };
    VoteDispatch { log, call, callback }
}

} // verus!
