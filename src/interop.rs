//! The types and calls of `cosmwasm_std` and `cw20` that the library uses.

use cosmwasm_std::{StdError, Uint128};
use cw20::{Cw20Coin, Logo, MinterResponse};
use vstd::prelude::*;

verus! {

/// An amount of tokens; carried through unchanged, never inspected.
#[verifier::external_type_specification]
#[verifier::external_body]
pub struct ExUint128(Uint128);

/// The error type of a contract call.
#[verifier::external_type_specification]
#[verifier::external_body]
pub struct ExStdError(StdError);

/// An initial balance entry; opaque to the validator.
#[verifier::external_type_specification]
#[verifier::external_body]
pub struct ExCw20Coin(Cw20Coin);

/// Marketing logo; opaque to the validator.
#[verifier::external_type_specification]
#[verifier::external_body]
pub struct ExLogo(Logo);

/// The minting authority: its two fields are public and read as they are.
#[verifier::external_type_specification]
pub struct ExMinterResponse(MinterResponse);

/// The error that `StdError::generic_err` builds from a message.
pub uninterp spec fn generic_error_of(msg: Seq<char>) -> StdError;

/// Relies on `cosmwasm_std::StdError::generic_err`: the result depends on the
/// message alone (the generic error variant holding it).
#[verifier::external_body]
pub(crate) fn generic_err(msg: &str) -> (r: StdError)
    ensures
        r == generic_error_of(msg@),
{
    StdError::generic_err(msg)
}

} // verus!
