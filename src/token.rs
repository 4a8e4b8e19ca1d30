//! The instantiation request of a token contract and its validation.

use crate::interop::{generic_err, generic_error_of};
use cosmwasm_std::{StdError, StdResult, Uint128};
use cw20::{Cw20Coin, Logo, MinterResponse};
use vstd::prelude::*;
use vstd::string::StringSliceAdditionalSpecFns;
use vstd::utf8::encode_utf8;

verus! {

/// Fewest UTF-8 bytes a token name may have.
pub const NAME_MIN_BYTES: usize = 3;

/// Most UTF-8 bytes a token name may have.
pub const NAME_MAX_BYTES: usize = 50;

/// Fewest bytes a ticker symbol may have.
pub const SYMBOL_MIN_BYTES: usize = 3;

/// Most bytes a ticker symbol may have.
pub const SYMBOL_MAX_BYTES: usize = 12;

/// Largest accepted decimal precision.
pub const MAX_DECIMALS: u8 = 18;

/// ASCII `A`.
pub const UPPER_A: u8 = 65;

/// ASCII `Z`.
pub const UPPER_Z: u8 = 90;

/// ASCII `a`.
pub const LOWER_A: u8 = 97;

/// ASCII `z`.
pub const LOWER_Z: u8 = 122;

/// ASCII `-`.
pub const HYPHEN: u8 = 45;

/// `b` is an ASCII uppercase letter.
pub open spec fn is_ascii_upper(b: u8) -> bool {
    UPPER_A <= b && b <= UPPER_Z
}

/// `b` is an ASCII lowercase letter.
pub open spec fn is_ascii_lower(b: u8) -> bool {
    LOWER_A <= b && b <= LOWER_Z
}

/// `b` may stand in a ticker symbol: an ASCII letter of either case, or `-`.
pub open spec fn symbol_byte_allowed(b: u8) -> bool {
    is_ascii_upper(b) || is_ascii_lower(b) || b == HYPHEN
}

/// A name is well formed when its UTF-8 encoding has 3 to 50 bytes.
pub open spec fn name_well_formed(bytes: Seq<u8>) -> bool {
    NAME_MIN_BYTES <= bytes.len() && bytes.len() <= NAME_MAX_BYTES
}

/// A symbol is well formed when it has 3 to 12 bytes, each of them allowed.
pub open spec fn symbol_well_formed(bytes: Seq<u8>) -> bool {
    &&& SYMBOL_MIN_BYTES <= bytes.len() && bytes.len() <= SYMBOL_MAX_BYTES
    &&& forall|i: int| 0 <= i < bytes.len() ==> #[trigger] symbol_byte_allowed(bytes[i])
}

/// The decimal precision is at most 18.
pub open spec fn decimals_well_formed(decimals: u8) -> bool {
    decimals <= MAX_DECIMALS
}

/// Whether `b` may stand in a ticker symbol.
pub fn is_symbol_byte(b: u8) -> (r: bool)
    ensures
        r == symbol_byte_allowed(b),
{
    (UPPER_A <= b && b <= UPPER_Z) || (LOWER_A <= b && b <= LOWER_Z) || b == HYPHEN
}

/// Whether `name` has between 3 and 50 bytes in UTF-8 (bytes, not characters).
pub fn is_valid_name(name: &str) -> (r: bool)
    ensures
        r == name_well_formed(name.spec_bytes()),
{
    let bytes = name.as_bytes();
    if bytes.len() < NAME_MIN_BYTES || bytes.len() > NAME_MAX_BYTES {
        return false;
    }
    true
}

/// Whether `symbol` has between 3 and 12 bytes, each an ASCII letter or `-`.
pub fn is_valid_symbol(symbol: &str) -> (r: bool)
    ensures
        r == symbol_well_formed(symbol.spec_bytes()),
{
    let bytes = symbol.as_bytes();
    if bytes.len() < SYMBOL_MIN_BYTES || bytes.len() > SYMBOL_MAX_BYTES {
        return false;
    }
    let mut i: usize = 0;
    while i < bytes.len()
        invariant
            i <= bytes@.len(),
            bytes@ == symbol.spec_bytes(),
            forall|j: int| 0 <= j < i ==> #[trigger] symbol_byte_allowed(bytes@[j]),
        decreases bytes@.len() - i,
    {
        if !is_symbol_byte(bytes[i]) {
            return false;
        }
        i += 1;
    }
    true
}

/// Why an instantiation request was rejected: the first rule it breaks.
#[derive(Clone, Copy, Debug, PartialEq, Eq, Structural)]
pub enum InstantiateError {
    /// The name has fewer than 3 or more than 50 UTF-8 bytes.
    InvalidName,
    /// The symbol's length is outside 3..=12, or it holds a byte other than
    /// an ASCII letter or `-`.
    InvalidSymbol,
    /// The decimal precision exceeds 18.
    InvalidDecimals,
}

impl InstantiateError {
    /// The user-visible message of the rejection.
    pub open spec fn spec_message(self) -> Seq<char> {
        match self {
            InstantiateError::InvalidName => "Name is not in the expected format (3-50 UTF-8 bytes)"@,
            InstantiateError::InvalidSymbol => "Ticker symbol is not in expected format [a-zA-Z\\-]{3,12}"@,
            InstantiateError::InvalidDecimals => "Decimals must not exceed 18"@,
        }
    }

    /// The user-visible message of the rejection.
    pub fn message(&self) -> (r: &'static str)
        ensures
            r@ == self.spec_message(),
    {
        match self {
            InstantiateError::InvalidName => "Name is not in the expected format (3-50 UTF-8 bytes)",
            InstantiateError::InvalidSymbol => "Ticker symbol is not in expected format [a-zA-Z\\-]{3,12}",
            InstantiateError::InvalidDecimals => "Decimals must not exceed 18",
        }
    }
}

/// The outcome of validating a request with the given name and symbol bytes
/// and decimals: the rules are checked in the order name, symbol, decimals,
/// and the first one broken is reported.
pub open spec fn validation_outcome(name: Seq<u8>, symbol: Seq<u8>, decimals: u8) -> Result<(), InstantiateError> {
    if !name_well_formed(name) {
        Err(InstantiateError::InvalidName)
    } else if !symbol_well_formed(symbol) {
        Err(InstantiateError::InvalidSymbol)
    } else if !decimals_well_formed(decimals) {
        Err(InstantiateError::InvalidDecimals)
    } else {
        Ok(())
    }
}

/// Optional marketing metadata of a token; free-form and never validated.
#[derive(Debug, Clone, PartialEq)]
pub struct InstantiateMarketingInfo {
    pub project: Option<String>,
    pub description: Option<String>,
    pub marketing: Option<String>,
    pub logo: Option<Logo>,
}

/// The parameters that instantiate a token contract.
pub struct InstantiateMsg {
    pub name: String,
    pub symbol: String,
    pub decimals: u8,
    pub initial_balances: Vec<Cw20Coin>,
    pub mint: Option<MinterResponse>,
    pub marketing: Option<InstantiateMarketingInfo>,
}

impl InstantiateMsg {
    /// The UTF-8 bytes of the name.
    pub open spec fn name_bytes(&self) -> Seq<u8> {
        encode_utf8(self.name@)
    }

    /// The UTF-8 bytes of the symbol.
    pub open spec fn symbol_bytes(&self) -> Seq<u8> {
        encode_utf8(self.symbol@)
    }

    /// What validating this request yields.
    pub open spec fn outcome(&self) -> Result<(), InstantiateError> {
        validation_outcome(self.name_bytes(), self.symbol_bytes(), self.decimals)
    }

    /// The supply cap: none without a minter, else the minter's cap as it is.
    pub open spec fn spec_cap(&self) -> Option<Uint128> {
        match self.mint {
            Some(m) => m.cap,
            None => None,
        }
    }

    /// The supply cap of the minting authority, if there is one.
    pub fn get_cap(&self) -> (r: Option<Uint128>)
        ensures
            r == self.spec_cap(),
            self.mint is None ==> r is None,
            self.mint matches Some(m) ==> r == m.cap,
    {
        match &self.mint {
            Some(m) => m.cap,
            None => None,
        }
    }

    /// Checks name, then symbol, then decimals, and reports the first rule
    /// broken.
    pub fn validate_fields(&self) -> (r: Result<(), InstantiateError>)
        ensures
            r == self.outcome(),
    {
        if !is_valid_name(self.name.as_str()) {
            return Err(InstantiateError::InvalidName);
        }
        if !is_valid_symbol(self.symbol.as_str()) {
            return Err(InstantiateError::InvalidSymbol);
        }
        if self.decimals > MAX_DECIMALS {
            return Err(InstantiateError::InvalidDecimals);
        }
        Ok(())
    }

    /// Validates the request; a rejection is a generic contract error that
    /// carries the message of the first rule broken.
    pub fn validate(&self) -> (r: StdResult<()>)
        ensures
            r is Ok <==> self.outcome() is Ok,
            self.outcome() matches Err(e) ==> r == Err::<(), StdError>(generic_error_of(e.spec_message())),
    {
        match self.validate_fields() {
            Ok(()) => Ok(()),
            Err(e) => Err(generic_err(e.message())),
        }
    }
}

} // verus!
