//! The errors of entry point calls.

use crate::api_errors::FailedOp;
use crate::text::{debug_quoted, join3, quote_debug};
use vstd::prelude::*;

verus! {

/// Why a call to the entry point contract did not give its result.
#[derive(Debug)]
pub enum EntryPointErr {
    /// The contract rejected a user operation.
    FailedOp(FailedOp),
    RevertError(String),
    NetworkErr(String),
    DecodeErr(String),
    CallDataErr(String),
    /// A case that should not occur.
    UnknownErr(String),
}

/// What an `EntryPointErr` says: its kind and its message.
pub enum EntryPointErrView {
    FailedOp(FailedOp),
    RevertError(Seq<char>),
    NetworkErr(Seq<char>),
    DecodeErr(Seq<char>),
    CallDataErr(Seq<char>),
    UnknownErr(Seq<char>),
}

impl View for EntryPointErr {
    type V = EntryPointErrView;

    open spec fn view(&self) -> EntryPointErrView {
        match self {
            EntryPointErr::FailedOp(op) => EntryPointErrView::FailedOp(*op),
            EntryPointErr::RevertError(m) => EntryPointErrView::RevertError(m@),
            EntryPointErr::NetworkErr(m) => EntryPointErrView::NetworkErr(m@),
            EntryPointErr::DecodeErr(m) => EntryPointErrView::DecodeErr(m@),
            EntryPointErr::CallDataErr(m) => EntryPointErrView::CallDataErr(m@),
            EntryPointErr::UnknownErr(m) => EntryPointErrView::UnknownErr(m@),
        }
    }
}

/// A result with its error taken by its view.
pub open spec fn result_view<T>(r: Result<T, EntryPointErr>) -> Result<T, EntryPointErrView> {
    match r {
        Ok(x) => Ok(x),
        Err(e) => Err(e@),
    }
}

/// The `Debug` rendering of `EntryPointErr::DecodeErr(m)`.
pub open spec fn decode_err_debug(m: Seq<char>) -> Seq<char> {
    "DecodeErr("@ + debug_quoted(m) + ")"@
}

/// Renders `EntryPointErr::DecodeErr(m)` as its derived `Debug` does.
pub fn decode_err_debug_text(m: &str) -> (r: String)
    ensures
        r@ == decode_err_debug(m@),
{
    let q = quote_debug(m);
    join3("DecodeErr(", q.as_str(), ")")
}

} // verus!
