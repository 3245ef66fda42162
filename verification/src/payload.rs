//! The values that a vote carries to the voting contract. The proxy reads
//! none of them: it hands them on as they came.

use near_sdk::serde_json::Value;
use vstd::prelude::*;

verus! {

/// `serde_json::Value`, carried through unread.
#[verifier::external_type_specification]
#[verifier::external_body]
pub struct ExValue(Value);

/// `Value::clone`: a copy that equals the value it was made from.
pub assume_specification[ <Value as Clone>::clone ](value: &Value) -> (copy: Value)
    ensures
        copy == *value,
;

/// The number of a proposal at the voting contract.
pub type ProposalId = u32;

/// A Merkle inclusion proof: the index of the leaf and the hashes along its
/// path, each of 32 bytes.
#[derive(Clone, Debug, PartialEq)]
pub struct MerkleProof {
    pub index: u32,
    pub path: Vec<[u8; 32]>,
}

/// The account to which a voter delegated.
#[derive(Clone, Debug, PartialEq)]
pub struct AccountDelegation {
    pub account_id: String,
}

/// The voter's account record as the voting contract keeps it.
#[derive(Clone, Debug, PartialEq)]
pub struct Account {
    pub account_id: String,
    pub update_timestamp: u64,
    pub balance: Value,
    pub delegated_balance: Value,
    pub delegation: Option<AccountDelegation>,
}

/// A versioned account record.
#[derive(Clone, Debug, PartialEq)]
pub enum VAccount {
    V0(Account),
}

/// The arguments of the voting contract's `vote`.
#[derive(Clone, Debug, PartialEq)]
pub struct ProxyVoteArgs {
    pub proposal_id: ProposalId,
    pub vote: u8,
    pub merkle_proof: MerkleProof,
    pub v_account: VAccount,
}

} // verus!
