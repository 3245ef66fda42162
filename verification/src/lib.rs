//! A proxy between registered workers and a voting contract: the owner keeps
//! an allow-list of code hashes, callers register themselves with the code
//! hash they claim, and a vote is forwarded to the voting contract with a
//! continuation that logs how it went.

pub mod contract;
pub mod dispatch;
pub mod host;
pub mod payload;
pub mod store;
pub mod text;

pub use contract::{Contract, ContractError, SelfCallbacks, Worker};
pub use dispatch::{CallFailure, CallbackCall, VoteCall, VoteDispatch};
pub use payload::{Account, AccountDelegation, MerkleProof, ProposalId, ProxyVoteArgs, VAccount};
