//! Reading the revert data of a failed entry point call.

use crate::abi::{invalid_data_text, INVALID_DATA_TEXT};
use crate::api_errors::{
    args_of, decode_string, has_selector, spec_decode_api_error, spec_decode_string,
    starts_with_selector, string_decode_error, EntryPointAPIErrors, REVERT_STRING_SELECTOR,
};
use crate::error::{result_view, EntryPointErr, EntryPointErrView};
use crate::text::join;
use vstd::prelude::*;
use vstd::slice::slice_subrange;

verus! {

pub const REVERT_STRING_NOTE: &'static str = " data field could not be deserialize to revert error";

pub const API_ERRORS_NOTE: &'static str = " data field could not be deserialize to EntryPointAPIErrors";

/// What revert data decodes to: an entry point error when the data reads as
/// one; otherwise, when it starts with the selector of the standard
/// `Error(string)`, the revert string that follows the selector.
pub open spec fn spec_decode_revert(data: Seq<u8>) -> Option<EntryPointAPIErrors> {
    match spec_decode_api_error(data) {
        Some(e) => Some(e),
        None => if has_selector(data, REVERT_STRING_SELECTOR) {
            match spec_decode_string(args_of(data)) {
                Some(s) => Some(EntryPointAPIErrors::RevertString(s)),
                None => None,
            }
        } else {
            None
        },
    }
}

/// The message of a failed decoding: the `Debug` text of the decoder's
/// error, then a note on what the data could not be read as.
pub open spec fn revert_failure_text(data: Seq<u8>) -> Seq<char> {
    if has_selector(data, REVERT_STRING_SELECTOR) {
        string_decode_error(args_of(data)) + REVERT_STRING_NOTE@
    } else {
        INVALID_DATA_TEXT@ + API_ERRORS_NOTE@
    }
}

/// What decoding revert data gives: the decoded error, or a `DecodeErr`.
pub open spec fn decode_revert_result(data: Seq<u8>) -> Result<EntryPointAPIErrors, EntryPointErrView> {
    match spec_decode_revert(data) {
        Some(e) => Ok(e),
        None => Err(EntryPointErrView::DecodeErr(revert_failure_text(data))),
    }
}

/// Decodes the revert data of an entry point call. Data that none of the
/// entry point errors fits is read as the standard `Error(string)` revert,
/// which ethers' decoding does not recognise with its selector in front.
/// Failures are `DecodeErr`, with the decoder's error text and a note.
pub fn decode_revert_error(data: &[u8]) -> (r: Result<EntryPointAPIErrors, EntryPointErr>)
    requires
        data@.len() >= 4,
    ensures
        result_view(r) == decode_revert_result(data@),
{
    match EntryPointAPIErrors::decode(data) {
        Ok(res) => Ok(res),
        Err(_) => {
            if starts_with_selector(data, REVERT_STRING_SELECTOR) {
                let reason = slice_subrange(data, 4, data.len());
                return match decode_string(reason) {
                    Ok(s) => Ok(EntryPointAPIErrors::RevertString(s)),
                    Err(t) => Err(EntryPointErr::DecodeErr(join(t.as_str(), REVERT_STRING_NOTE))),
                };
            }
            let t = invalid_data_text();
            Err(EntryPointErr::DecodeErr(join(t.as_str(), API_ERRORS_NOTE)))
        },
    }
}

/// A standard `Error(string)` revert that no entry point error reads is
/// decoded to its revert string.
pub proof fn lemma_revert_string_fallback(data: Seq<u8>, s: String)
    requires
        spec_decode_api_error(data) is None,
        has_selector(data, REVERT_STRING_SELECTOR),
        spec_decode_string(args_of(data)) == Some(s),
    ensures
        spec_decode_revert(data) == Some(EntryPointAPIErrors::RevertString(s)),
{
}

} // verus!
