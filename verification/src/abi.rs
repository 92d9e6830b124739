//! ABI values as the library reads them, and the ABI decoder of ethers.

use ethers::abi::Token;
use crate::api_errors::{
    ADDRESS_PARAMS, EXECUTION_RESULT_PARAMS, FAILED_OP_PARAMS, STRING_PARAMS,
    VALIDATION_RESULT_PARAMS, VALIDATION_RESULT_WITH_AGGREGATION_PARAMS,
};
use vstd::prelude::*;

verus! {

/// A decoded ABI value, one for one with the token kinds of ethers' ABI
/// decoder. Integers are held as the four 64-bit limbs of a 256-bit word,
/// least significant limb first.
pub enum AbiValue {
    Address([u8; 20]),
    FixedBytes(Vec<u8>),
    Bytes(Vec<u8>),
    Int([u64; 4]),
    Uint([u64; 4]),
    Bool(bool),
    Str(String),
    FixedArray(Vec<AbiValue>),
    Array(Vec<AbiValue>),
    Tuple(Vec<AbiValue>),
}

#[verifier::external_type_specification]
#[verifier::external_body]
pub struct ExAbiError(ethers::abi::AbiError);

#[verifier::external_type_specification]
#[verifier::external_body]
pub struct ExToken(Token);

/// The parameter lists that the library reads: those of the standard revert
/// string and of the entry point's errors.
pub open spec fn known_params(params: Seq<char>) -> bool {
    ||| params == STRING_PARAMS@
    ||| params == EXECUTION_RESULT_PARAMS@
    ||| params == FAILED_OP_PARAMS@
    ||| params == ADDRESS_PARAMS@
    ||| params == VALIDATION_RESULT_PARAMS@
    ||| params == VALIDATION_RESULT_WITH_AGGREGATION_PARAMS@
}

/// What ethers' ABI decoder gives for `data` read against the parameter list
/// written as the tuple type `params` (such as `(uint256,string)`): the value
/// list, or the `Debug` text of the `AbiError` with which it refuses the data.
pub uninterp spec fn abi_decoded(params: Seq<char>, data: Seq<u8>) -> Result<Seq<AbiValue>, Seq<char>>;

/// Turns one token of ethers' ABI decoder into the library's value, variant
/// for variant, fields moved over.
#[verifier::external_body]
fn abi_value(token: Token) -> AbiValue {
    match token {
        Token::Address(a) => AbiValue::Address(a.0),
        Token::FixedBytes(b) => AbiValue::FixedBytes(b),
        Token::Bytes(b) => AbiValue::Bytes(b),
        Token::Int(i) => AbiValue::Int(i.0),
        Token::Uint(u) => AbiValue::Uint(u.0),
        Token::Bool(b) => AbiValue::Bool(b),
        Token::String(s) => AbiValue::Str(s),
        Token::FixedArray(v) => AbiValue::FixedArray(v.into_iter().map(abi_value).collect()),
        Token::Array(v) => AbiValue::Array(v.into_iter().map(abi_value).collect()),
        Token::Tuple(v) => AbiValue::Tuple(v.into_iter().map(abi_value).collect()),
    }
}

/// Calls `ethers::abi::decode` on `data` with the parameter types of the
/// tuple type `params`, as `ethers::abi::HumanReadableParser::parse_type`
/// reads them; an error is given by the `Debug` text of the `AbiError` it
/// converts to, as `AbiDecode` reports it. Only the library's parameter lists
/// are admitted, which parse. Claimed: the result is the name `abi_decoded`
/// of the parameter list and the data.
#[verifier::external_body]
pub(crate) fn abi_decode(params: &str, data: &[u8]) -> (r: Result<Vec<AbiValue>, String>)
    requires
        known_params(params@),
    ensures
        r is Ok <==> abi_decoded(params@, data@) is Ok,
        r matches Ok(v) ==> abi_decoded(params@, data@)->Ok_0 == v@,
        r matches Err(t) ==> abi_decoded(params@, data@)->Err_0 == t@,
{
    let types = match ethers::abi::HumanReadableParser::parse_type(params) {
        Ok(ethers::abi::ParamType::Tuple(types)) => types,
        Ok(other) => vec![other],
        Err(e) => return Err(format!("{:?}", ethers::abi::AbiError::from(ethers::abi::Error::InvalidName(e.to_string())))),
    };
    match ethers::abi::decode(&types, data) {
        Ok(tokens) => Ok(tokens.into_iter().map(abi_value).collect()),
        Err(e) => Err(format!("{:?}", ethers::abi::AbiError::from(e))),
    }
}

/// The `Debug` text of `AbiError::DecodingError(ethabi::Error::InvalidData)`.
pub const INVALID_DATA_TEXT: &'static str = "DecodingError(InvalidData)";

/// Builds ethers' `AbiError::DecodingError(ethabi::Error::InvalidData)`,
/// the error that a decoder reports when no reading of the data fits. Nothing
/// is claimed of the value.
#[verifier::external_body]
pub(crate) fn invalid_data_error() -> ethers::abi::AbiError {
    ethers::abi::AbiError::DecodingError(ethers::abi::Error::InvalidData)
}

/// Renders `AbiError::DecodingError(ethabi::Error::InvalidData)` with its
/// `Debug` implementation. Claimed, as the derived `Debug` of both enums
/// writes it: `DecodingError(InvalidData)`.
#[verifier::external_body]
pub(crate) fn invalid_data_text() -> (r: String)
    ensures
        r@ == INVALID_DATA_TEXT@,
{
    format!("{:?}", ethers::abi::AbiError::DecodingError(ethers::abi::Error::InvalidData))
}

} // verus!
