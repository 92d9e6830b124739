//! Classifying the errors of JSON-RPC providers and middleware, and of
//! contract calls, into entry point errors.

use crate::api_errors::EntryPointAPIErrors;
use crate::error::{
    decode_err_debug, decode_err_debug_text, result_view, EntryPointErr, EntryPointErrView,
};
use crate::hex::{
    bytes_parse_error_text, find_hex_literal, first_hex_literal, hex_decoded, hex_parses,
    parse_hex_bytes, HEX_PATTERN,
};
use crate::revert::{decode_revert_error, decode_revert_result, revert_failure_text, spec_decode_revert};
use crate::text::{debug_quoted, join, join3, quote_debug};
use vstd::prelude::*;

verus! {

/// The `data` field of a JSON-RPC error response.
pub enum RpcErrorData {
    /// A JSON string.
    Text(String),
    /// Any other JSON value, by its `Debug` text.
    Other(String),
}

/// A JSON-RPC error response.
pub struct RpcErrorResponse {
    pub code: i64,
    pub message: String,
    pub data: Option<RpcErrorData>,
    /// The `Debug` text of the response.
    pub debug: String,
}

/// An error of a JSON-RPC provider, by the kinds that the classification
/// tells apart. Each carries the `Debug` text that its message quotes.
pub enum ProviderFailure {
    /// An error of the JSON-RPC client, with the error response it holds, if
    /// any, and the `Debug` text of the client error.
    JsonRpcClient { response: Option<RpcErrorResponse>, debug: String },
    /// An HTTP error, with the `Debug` text of the HTTP error.
    Http { debug: String },
    /// Any other provider error, with the `Debug` text of the provider error.
    Other { debug: String },
}

/// An error of a middleware stack: the JSON-RPC error response it holds, if
/// any, the provider error it holds, if any, and its `Debug` text.
pub struct MiddlewareFailure {
    pub response: Option<RpcErrorResponse>,
    pub provider: Option<ProviderFailure>,
    pub debug: String,
}

/// The kinds of a failed contract call that the classification tells apart.
pub enum ContractFailureKind {
    /// ABI decoding failed; the `Debug` text of the decoding error.
    Decoding { debug: String },
    /// The contract binding failed; the `Debug` text of its ABI error.
    Abi { debug: String },
    /// The middleware failed.
    Middleware(MiddlewareFailure),
    /// The provider failed.
    Provider(ProviderFailure),
    /// The contract reverted with this data.
    Revert(Vec<u8>),
    /// Anything else.
    Other,
}

/// A failed contract call: its kind and the `Debug` text of the whole error.
pub struct ContractFailure {
    pub kind: ContractFailureKind,
    pub debug: String,
}

// ---------------------------------------------------------------------------
// Specifications

/// The revert data that a JSON-RPC error response carries: the first hex
/// literal in its textual `data`, when that parses.
pub open spec fn response_revert_data(resp: RpcErrorResponse) -> Option<Seq<u8>> {
    match resp.data {
        Some(RpcErrorData::Text(d)) => match first_hex_literal(d@) {
            Some(h) => if hex_parses(h) {
                Some(hex_decoded(h))
            } else {
                None
            },
            None => None,
        },
        _ => None,
    }
}

/// Revert data that is decoded is at least a selector long.
pub open spec fn response_ok(resp: RpcErrorResponse) -> bool {
    response_revert_data(resp) matches Some(b) ==> b.len() >= 4
}

pub open spec fn provider_ok(p: ProviderFailure) -> bool {
    p matches ProviderFailure::JsonRpcClient { response: Some(resp), .. } ==> response_ok(resp)
}

pub open spec fn middleware_ok(m: MiddlewareFailure) -> bool {
    match m.response {
        Some(resp) => response_ok(resp),
        None => match m.provider {
            Some(p) => provider_ok(p),
            None => true,
        },
    }
}

pub open spec fn contract_failure_ok(f: ContractFailure) -> bool {
    match f.kind {
        ContractFailureKind::Middleware(m) => middleware_ok(m),
        ContractFailureKind::Provider(p) => provider_ok(p),
        ContractFailureKind::Revert(data) => data@.len() >= 4,
        _ => true,
    }
}

/// Classifying a JSON-RPC error response: the revert data is the first hex
/// literal in its textual `data` field, decoded as entry point revert data.
pub open spec fn response_result(resp: RpcErrorResponse) -> Result<
    EntryPointAPIErrors,
    EntryPointErrView,
> {
    match resp.data {
        None => Err(
            EntryPointErrView::UnknownErr(
                "Json rpc error "@ + resp.debug@ + " doesn't contain data field."@,
            ),
        ),
        Some(RpcErrorData::Other(d)) => Err(
            EntryPointErrView::DecodeErr("Json rpc return data "@ + d@ + " is not string"@),
        ),
        Some(RpcErrorData::Text(d)) => match first_hex_literal(d@) {
            None => Err(EntryPointErrView::DecodeErr("Could not find hex string in "@ + debug_quoted(d@))),
            Some(h) => if hex_parses(h) {
                match spec_decode_revert(hex_decoded(h)) {
                    Some(e) => Ok(e),
                    None => Err(
                        EntryPointErrView::UnknownErr(
                            "Unknown middleware error: "@ + decode_err_debug(
                                revert_failure_text(hex_decoded(h)),
                            ),
                        ),
                    ),
                }
            } else {
                Err(
                    EntryPointErrView::DecodeErr(
                        "Error string "@ + debug_quoted(d@) + " could not be converted to bytes because "@
                            + bytes_parse_error_text(h),
                    ),
                )
            },
        },
    }
}

/// Classifying a provider error: a JSON-RPC client error by the error
/// response it holds, an HTTP error as a network error.
pub open spec fn provider_result(p: ProviderFailure) -> Result<EntryPointAPIErrors, EntryPointErrView> {
    match p {
        ProviderFailure::JsonRpcClient { response: Some(resp), .. } => response_result(resp),
        ProviderFailure::JsonRpcClient { response: None, debug } => Err(
            EntryPointErrView::UnknownErr("Unknown JSON-RPC client error: "@ + debug@),
        ),
        ProviderFailure::Http { debug } => Err(
            EntryPointErrView::NetworkErr("Entry point HTTP error: "@ + debug@),
        ),
        ProviderFailure::Other { debug } => Err(
            EntryPointErrView::UnknownErr("Unknown error in provider: "@ + debug@),
        ),
    }
}

/// Classifying a middleware error: by its error response if it holds one,
/// else by its provider error if it holds one.
pub open spec fn middleware_result(mw: MiddlewareFailure) -> Result<
    EntryPointAPIErrors,
    EntryPointErrView,
> {
    match mw.response {
        Some(resp) => response_result(resp),
        None => match mw.provider {
            Some(p) => provider_result(p),
            None => Err(EntryPointErrView::UnknownErr("Unknown middleware error: "@ + mw.debug@)),
        },
    }
}

/// Classifying a failed contract call by its kind.
pub open spec fn contract_failure_result(f: ContractFailure) -> Result<
    EntryPointAPIErrors,
    EntryPointErrView,
> {
    match f.kind {
        ContractFailureKind::Decoding { debug } => Err(
            EntryPointErrView::DecodeErr("Decoding error on msg: "@ + debug@),
        ),
        ContractFailureKind::Abi { debug } => Err(
            EntryPointErrView::UnknownErr("Contract call with abi error: "@ + debug@ + " "@),
        ),
        ContractFailureKind::Middleware(mw) => middleware_result(mw),
        ContractFailureKind::Provider(p) => provider_result(p),
        ContractFailureKind::Revert(data) => decode_revert_result(data@),
        ContractFailureKind::Other => Err(EntryPointErrView::UnknownErr("Unkown error: "@ + f.debug@)),
    }
}

// ---------------------------------------------------------------------------
// Checks of the preconditions

/// Whether the revert data in a JSON-RPC error response, if any, is at least
/// a selector long (decoding shorter data panics).
pub fn response_is_ok(resp: &RpcErrorResponse) -> (b: bool)
    ensures
        b == response_ok(*resp),
{
    match &resp.data {
        Some(RpcErrorData::Text(d)) => match find_hex_literal(HEX_PATTERN, d.as_str()) {
            Some(h) => match parse_hex_bytes(h.as_str()) {
                Ok(bytes) => bytes.len() >= 4,
                Err(_) => true,
            },
            None => true,
        },
        _ => true,
    }
}

/// Whether the revert data that a provider error carries, if any, is at
/// least a selector long.
pub fn provider_is_ok(p: &ProviderFailure) -> (b: bool)
    ensures
        b == provider_ok(*p),
{
    match p {
        ProviderFailure::JsonRpcClient { response: Some(resp), .. } => response_is_ok(resp),
        _ => true,
    }
}

/// Whether the revert data that a middleware error carries, if any, is at
/// least a selector long.
pub fn middleware_is_ok(mw: &MiddlewareFailure) -> (b: bool)
    ensures
        b == middleware_ok(*mw),
{
    match &mw.response {
        Some(resp) => response_is_ok(resp),
        None => match &mw.provider {
            Some(p) => provider_is_ok(p),
            None => true,
        },
    }
}

/// Whether the revert data that a failed contract call carries, if any, is
/// at least a selector long.
pub fn contract_failure_is_ok(f: &ContractFailure) -> (b: bool)
    ensures
        b == contract_failure_ok(*f),
{
    match &f.kind {
        ContractFailureKind::Middleware(mw) => middleware_is_ok(mw),
        ContractFailureKind::Provider(p) => provider_is_ok(p),
        ContractFailureKind::Revert(data) => data.len() >= 4,
        _ => true,
    }
}

// ---------------------------------------------------------------------------
// Classification

/// Reads a JSON-RPC error response: the revert data is the first hex literal
/// in its textual `data` field, decoded as entry point revert data.
pub fn from_json_rpc_error(err: &RpcErrorResponse) -> (r: Result<EntryPointAPIErrors, EntryPointErr>)
    requires
        response_ok(*err),
    ensures
        result_view(r) == response_result(*err),
{
    match &err.data {
        Some(RpcErrorData::Text(data)) => {
            let hex = match find_hex_literal(HEX_PATTERN, data.as_str()) {
                Some(hex) => hex,
                None => {
                    let q = quote_debug(data.as_str());
                    return Err(
                        EntryPointErr::DecodeErr(join("Could not find hex string in ", q.as_str())),
                    );
                },
            };
            let bytes = match parse_hex_bytes(hex.as_str()) {
                Ok(bytes) => bytes,
                Err(e) => {
                    let q = quote_debug(data.as_str());
                    let m = join3("Error string ", q.as_str(), " could not be converted to bytes because ");
                    return Err(EntryPointErr::DecodeErr(join(m.as_str(), e.as_str())));
                },
            };
            match decode_revert_error(bytes.as_slice()) {
                Ok(res) => Ok(res),
                Err(EntryPointErr::DecodeErr(m)) => {
                    let t = decode_err_debug_text(m.as_str());
                    Err(EntryPointErr::UnknownErr(join("Unknown middleware error: ", t.as_str())))
                },
                Err(other) => {
                    assert(false);
                    Err(other)
                },
            }
        },
        Some(RpcErrorData::Other(other)) => Err(
            EntryPointErr::DecodeErr(join3("Json rpc return data ", other.as_str(), " is not string")),
        ),
        None => Err(
            EntryPointErr::UnknownErr(
                join3("Json rpc error ", err.debug.as_str(), " doesn't contain data field."),
            ),
        ),
    }
}

/// Reads a provider error: a JSON-RPC client error by the error response it
/// holds, an HTTP error as a network error.
pub fn from_provider_err(err: &ProviderFailure) -> (r: Result<EntryPointAPIErrors, EntryPointErr>)
    requires
        provider_ok(*err),
    ensures
        result_view(r) == provider_result(*err),
{
    match err {
        ProviderFailure::JsonRpcClient { response, debug } => match response {
            Some(resp) => from_json_rpc_error(resp),
            None => Err(
                EntryPointErr::UnknownErr(join("Unknown JSON-RPC client error: ", debug.as_str())),
            ),
        },
        ProviderFailure::Http { debug } => Err(
            EntryPointErr::NetworkErr(join("Entry point HTTP error: ", debug.as_str())),
        ),
        ProviderFailure::Other { debug } => Err(
            EntryPointErr::UnknownErr(join("Unknown error in provider: ", debug.as_str())),
        ),
    }
}

/// Reads a middleware error: by the JSON-RPC error response it holds, else
/// by the provider error it holds.
pub fn from_middleware_err(err: &MiddlewareFailure) -> (r: Result<EntryPointAPIErrors, EntryPointErr>)
    requires
        middleware_ok(*err),
    ensures
        result_view(r) == middleware_result(*err),
{
    if let Some(resp) = &err.response {
        return from_json_rpc_error(resp);
    }
    if let Some(p) = &err.provider {
        return from_provider_err(p);
    }
    Err(EntryPointErr::UnknownErr(join("Unknown middleware error: ", err.debug.as_str())))
}

/// Reads the error of a contract call as the entry point error the contract
/// reverted with, or classifies why there is none.
pub fn deserialize_error_msg(err: &ContractFailure) -> (r: Result<EntryPointAPIErrors, EntryPointErr>)
    requires
        contract_failure_ok(*err),
    ensures
        result_view(r) == contract_failure_result(*err),
{
    match &err.kind {
        ContractFailureKind::Decoding { debug } => Err(
            EntryPointErr::DecodeErr(join("Decoding error on msg: ", debug.as_str())),
        ),
        ContractFailureKind::Abi { debug } => Err(
            EntryPointErr::UnknownErr(join3("Contract call with abi error: ", debug.as_str(), " ")),
        ),
        ContractFailureKind::Middleware(mw) => from_middleware_err(mw),
        ContractFailureKind::Provider(p) => from_provider_err(p),
        ContractFailureKind::Revert(data) => decode_revert_error(data.as_slice()),
        ContractFailureKind::Other => Err(
            EntryPointErr::UnknownErr(join("Unkown error: ", err.debug.as_str())),
        ),
    }
}

// ---------------------------------------------------------------------------
// Laws

/// When a JSON-RPC error response carries data, its classification depends
/// on that data alone.
pub proof fn lemma_response_by_data(a: RpcErrorResponse, b: RpcErrorResponse)
    requires
        a.data is Some,
        a.data == b.data,
    ensures
        response_result(a) == response_result(b),
{
}

/// Revert data reads to the same entry point error whether the contract call
/// reports it directly or a node hands it back as hex text in a JSON-RPC error
/// response.
pub proof fn lemma_revert_data_reads_alike(resp: RpcErrorResponse, data: Vec<u8>, debug: String)
    requires
        response_revert_data(resp) == Some(data@),
    ensures
        response_result(resp) is Ok <==> contract_failure_result(
            ContractFailure { kind: ContractFailureKind::Revert(data), debug },
        ) is Ok,
        response_result(resp) is Ok ==> response_result(resp) == contract_failure_result(
            ContractFailure { kind: ContractFailureKind::Revert(data), debug },
        ),
{
}

/// Each classification hands the error it holds to the classifier of that
/// error: a JSON-RPC client error to the response classifier, a middleware
/// error to its response before its provider error, a contract call to the
/// classifier of its kind.
pub proof fn lemma_classifiers_delegate(
    resp: RpcErrorResponse,
    p: ProviderFailure,
    mw: MiddlewareFailure,
    data: Vec<u8>,
    debug: String,
)
    ensures
        provider_result(ProviderFailure::JsonRpcClient { response: Some(resp), debug })
            == response_result(resp),
        middleware_result(MiddlewareFailure { response: Some(resp), provider: Some(p), debug })
            == response_result(resp),
        middleware_result(MiddlewareFailure { response: None, provider: Some(p), debug })
            == provider_result(p),
        contract_failure_result(ContractFailure { kind: ContractFailureKind::Middleware(mw), debug })
            == middleware_result(mw),
        contract_failure_result(ContractFailure { kind: ContractFailureKind::Provider(p), debug })
            == provider_result(p),
        contract_failure_result(ContractFailure { kind: ContractFailureKind::Revert(data), debug })
            == decode_revert_result(data@),
{
}

} // verus!
