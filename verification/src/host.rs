//! What the contract asks of the host that runs it, and the units in which
//! the host counts gas and tokens.
//!
//! The contracts in this file are taken on trust from `near_sdk`.

use near_sdk::{Gas, NearToken};
use vstd::prelude::*;
use vstd::utf8::encode_utf8;

verus! {

/// The gas units in a number of teragas.
pub open spec fn gas_of_tgas(tgas: nat) -> nat {
    tgas * 1_000_000_000_000
}

/// The yoctoNEAR in a number of milliNEAR.
pub open spec fn yocto_of_millinear(millinear: nat) -> nat {
    millinear * 1_000_000_000_000_000_000_000
}

/// An account name of a length that the host accepts: from 2 to 64 bytes.
pub open spec fn account_name_length(name: Seq<char>) -> bool {
    2 <= encode_utf8(name).len() <= 64
}

/// `env::predecessor_account_id`: the account whose call is being served.
/// The host decides which it is. The SDK hands it out only after it has
/// validated it as an account name, which bounds its length.
#[verifier::external_body]
pub(crate) fn predecessor_account_id() -> (caller: String)
    ensures
        account_name_length(caller@),
{
    near_sdk::env::predecessor_account_id().into()
}

/// `env::current_account_id`: the account that the contract runs under.
/// The host decides which it is. The SDK hands it out only after it has
/// validated it as an account name, which bounds its length.
#[verifier::external_body]
pub(crate) fn current_account_id() -> (current: String)
    ensures
        account_name_length(current@),
{
    near_sdk::env::current_account_id().into()
}

/// `env::account_balance`: the balance of the contract's account, in
/// yoctoNEAR. The host decides it, so nothing is said of the amount.
#[verifier::external_body]
pub(crate) fn account_balance() -> (yocto: u128) {
    near_sdk::env::account_balance().as_yoctonear()
}

/// `Gas::from_tgas`, read back in gas units: the teragas times ten to the
/// twelfth. The product is computed in `u64`: `requires` keeps it in range.
#[verifier::external_body]
pub(crate) fn gas_from_tgas(tgas: u64) -> (gas: u64)
    requires
        gas_of_tgas(tgas as nat) <= u64::MAX,
    ensures
        gas == gas_of_tgas(tgas as nat),
{
    Gas::from_tgas(tgas).as_gas()
}

/// `NearToken::from_millinear`, read back in yoctoNEAR: the milliNEAR times
/// ten to the twenty-first. The product is computed in `u128`: `requires`
/// keeps it in range.
#[verifier::external_body]
pub(crate) fn yocto_from_millinear(millinear: u128) -> (yocto: u128)
    requires
        yocto_of_millinear(millinear as nat) <= u128::MAX,
    ensures
        yocto == yocto_of_millinear(millinear as nat),
{
    NearToken::from_millinear(millinear).as_yoctonear()
}

} // verus!
