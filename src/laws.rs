//! What validation guarantees of every request, stated over the model that
//! `InstantiateMsg::validate_fields` and `InstantiateMsg::validate` are specified by.

use crate::token::{
    decimals_well_formed, name_well_formed, symbol_well_formed, InstantiateError, InstantiateMsg,
};
use vstd::prelude::*;

verus! {

/// A request whose name has 3 to 50 bytes, whose symbol has 3 to 12 bytes that
/// are all ASCII letters or `-`, and whose decimals are at most 18 is accepted.
pub proof fn lemma_well_formed_request_accepted(msg: InstantiateMsg)
    requires
        name_well_formed(msg.name_bytes()),
        symbol_well_formed(msg.symbol_bytes()),
        decimals_well_formed(msg.decimals),
    ensures
        msg.outcome() == Ok::<(), InstantiateError>(()),
{
}

/// A request whose name has fewer than 3 or more than 50 bytes is rejected as
/// an invalid name, whatever its other fields hold.
pub proof fn lemma_bad_name_rejected(msg: InstantiateMsg)
    requires
        msg.name_bytes().len() < 3 || msg.name_bytes().len() > 50,
    ensures
        msg.outcome() == Err::<(), InstantiateError>(InstantiateError::InvalidName),
{
}

/// A request with a well-formed name whose symbol has a length outside 3..=12
/// or a byte other than an ASCII letter or `-` is rejected as an invalid symbol.
pub proof fn lemma_bad_symbol_rejected(msg: InstantiateMsg)
    requires
        name_well_formed(msg.name_bytes()),
        !symbol_well_formed(msg.symbol_bytes()),
    ensures
        msg.outcome() == Err::<(), InstantiateError>(InstantiateError::InvalidSymbol),
{
}

/// A request with a well-formed name and symbol whose decimals exceed 18 is
/// rejected as having invalid decimals.
pub proof fn lemma_bad_decimals_rejected(msg: InstantiateMsg)
    requires
        name_well_formed(msg.name_bytes()),
        symbol_well_formed(msg.symbol_bytes()),
        msg.decimals > 18,
    ensures
        msg.outcome() == Err::<(), InstantiateError>(InstantiateError::InvalidDecimals),
{
}

/// The name is checked first: a request that breaks both the name rule and
/// the symbol rule is reported as an invalid name.
pub proof fn lemma_name_checked_before_symbol(msg: InstantiateMsg)
    requires
        !name_well_formed(msg.name_bytes()),
        !symbol_well_formed(msg.symbol_bytes()),
    ensures
        msg.outcome() == Err::<(), InstantiateError>(InstantiateError::InvalidName),
{
}

/// Only the three rules matter: a rejected request breaks one of them, and
/// the reported error names the first one broken.
pub proof fn lemma_rejection_names_first_broken_rule(msg: InstantiateMsg, e: InstantiateError)
    requires
        msg.outcome() == Err::<(), InstantiateError>(e),
    ensures
        e == InstantiateError::InvalidName <==> !name_well_formed(msg.name_bytes()),
        e == InstantiateError::InvalidSymbol <==> (name_well_formed(msg.name_bytes())
            && !symbol_well_formed(msg.symbol_bytes())),
        e == InstantiateError::InvalidDecimals <==> (name_well_formed(msg.name_bytes())
            && symbol_well_formed(msg.symbol_bytes()) && !decimals_well_formed(msg.decimals)),
{
}

} // verus!
