//! Validation of the parameters that instantiate a CW20 fungible-token
//! contract: name, ticker symbol and decimal precision, plus the optional
//! supply cap of the minting authority.

pub mod interop;
pub mod laws;
pub mod token;

pub use token::{
    is_symbol_byte, is_valid_name, is_valid_symbol, InstantiateError, InstantiateMarketingInfo,
    InstantiateMsg,
};
