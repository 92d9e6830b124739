//! What the entry point calls give back: the decisions taken on the outcome
//! of each contract call.

use crate::abi::{abi_decoded, AbiValue};
use crate::api_errors::{
    lemma_execution_result_decodes, lemma_failed_op_decodes, lemma_sender_address_decodes,
    spec_decode_string, Address, U256, ADDRESS_PARAMS, EXECUTION_RESULT_PARAMS,
    EXECUTION_RESULT_SELECTOR, FAILED_OP_PARAMS, FAILED_OP_SELECTOR, SENDER_ADDRESS_RESULT_SELECTOR,
    EntryPointAPIErrors, FailedOp, ExecutionResult, SenderAddressResult, ValidationResult,
    ValidationResultWithAggregation,
};
use crate::error::{result_view, EntryPointErr, EntryPointErrView};
use crate::rpc::{
    contract_failure_ok, contract_failure_result, deserialize_error_msg, from_middleware_err,
    middleware_ok, middleware_result, ContractFailure, ContractFailureKind, MiddlewareFailure,
};
use crate::render::api_error_text;
use crate::text::join;
use vstd::prelude::*;

verus! {

/// The result of simulating the validation of a user operation.
#[derive(Clone, Debug)]
pub enum SimulateValidationResult {
    ValidationResult(ValidationResult),
    ValidationResultWithAggregation(ValidationResultWithAggregation),
}

pub const SIMULATE_VALIDATION_NO_REVERT: &'static str = "Simulate validation should expect revert";
pub const SIMULATE_VALIDATION_INVALID: &'static str = "Simulate validation with invalid error: ";
pub const HANDLE_OPS_INVALID: &'static str = "Handle ops with invalid error: ";
pub const DEPOSIT_INFO_FAILED: &'static str = "Error calling get deposit info";
pub const BALANCE_OF_FAILED: &'static str = "Error calling balance of";
pub const NONCE_FAILED: &'static str = "Error getting nonce: ";
pub const SENDER_ADDRESS_NO_REVERT: &'static str = "Get sender address should expect revert";
pub const SIMULATE_HANDLE_OP_NO_REVERT: &'static str = "Simulate handle op should expect revert";
pub const SIMULATE_HANDLE_OP_INVALID: &'static str = "Simulate handle op with invalid error: ";

/// The decision of `simulateValidation`, a call that always reverts: a
/// validation result on success, `FailedOp` when the operation is rejected,
/// and the classification of any other failure passed on unchanged.
pub open spec fn spec_simulate_validation(call: Result<(), ContractFailure>) -> Result<
    SimulateValidationResult,
    EntryPointErrView,
> {
    match call {
        Ok(_) => Err(EntryPointErrView::UnknownErr(SIMULATE_VALIDATION_NO_REVERT@)),
        Err(f) => match contract_failure_result(f) {
            Err(e) => Err(e),
            Ok(EntryPointAPIErrors::FailedOp(op)) => Err(EntryPointErrView::FailedOp(op)),
            Ok(EntryPointAPIErrors::ValidationResult(v)) => Ok(
                SimulateValidationResult::ValidationResult(v),
            ),
            Ok(EntryPointAPIErrors::ValidationResultWithAggregation(v)) => Ok(
                SimulateValidationResult::ValidationResultWithAggregation(v),
            ),
            Ok(other) => Err(
                EntryPointErrView::UnknownErr(SIMULATE_VALIDATION_INVALID@ + api_error_text(other)),
            ),
        },
    }
}

/// Decides the result of `simulateValidation` from the outcome of the call.
pub fn simulate_validation(call: Result<(), ContractFailure>) -> (r: Result<
    SimulateValidationResult,
    EntryPointErr,
>)
    requires
        call matches Err(f) ==> contract_failure_ok(f),
    ensures
        result_view(r) == spec_simulate_validation(call),
        call matches Err(f) ==> (contract_failure_result(f) matches Ok(
            EntryPointAPIErrors::ValidationResult(v),
        ) ==> r == Ok::<SimulateValidationResult, EntryPointErr>(
            SimulateValidationResult::ValidationResult(v),
        )),
        call matches Err(f) ==> (contract_failure_result(f) matches Ok(
            EntryPointAPIErrors::ValidationResultWithAggregation(v),
        ) ==> r == Ok::<SimulateValidationResult, EntryPointErr>(
            SimulateValidationResult::ValidationResultWithAggregation(v),
        )),
{
    match call {
        Ok(_) => Err(EntryPointErr::UnknownErr(SIMULATE_VALIDATION_NO_REVERT.to_owned())),
        Err(e) => match deserialize_error_msg(&e) {
            Err(err) => Err(err),
            Ok(EntryPointAPIErrors::FailedOp(err)) => Err(EntryPointErr::FailedOp(err)),
            Ok(EntryPointAPIErrors::ValidationResult(res)) => Ok(
                SimulateValidationResult::ValidationResult(res),
            ),
            Ok(EntryPointAPIErrors::ValidationResultWithAggregation(res)) => Ok(
                SimulateValidationResult::ValidationResultWithAggregation(res),
            ),
            Ok(op) => {
                let t = op.debug_text();
                Err(EntryPointErr::UnknownErr(join(SIMULATE_VALIDATION_INVALID, t.as_str())))
            },
        },
    }
}

/// The decision of `handleOps`: success when the call succeeds, `FailedOp`
/// when an operation is rejected, and the classification of any other
/// failure passed on unchanged.
pub open spec fn spec_handle_ops(call: Result<(), ContractFailure>) -> Result<(), EntryPointErrView> {
    match call {
        Ok(_) => Ok(()),
        Err(f) => match contract_failure_result(f) {
            Err(e) => Err(e),
            Ok(EntryPointAPIErrors::FailedOp(op)) => Err(EntryPointErrView::FailedOp(op)),
            Ok(other) => Err(EntryPointErrView::UnknownErr(HANDLE_OPS_INVALID@ + api_error_text(other))),
        },
    }
}

/// Decides the result of `handleOps` from the outcome of the call.
pub fn handle_ops(call: Result<(), ContractFailure>) -> (r: Result<(), EntryPointErr>)
    requires
        call matches Err(f) ==> contract_failure_ok(f),
    ensures
        result_view(r) == spec_handle_ops(call),
        call matches Err(f) ==> (contract_failure_result(f) matches Ok(
            EntryPointAPIErrors::FailedOp(op),
        ) ==> r == Err::<(), EntryPointErr>(EntryPointErr::FailedOp(op))),
{
    match call {
        Ok(()) => Ok(()),
        Err(e) => match deserialize_error_msg(&e) {
            Err(err) => Err(err),
            Ok(EntryPointAPIErrors::FailedOp(err)) => Err(EntryPointErr::FailedOp(err)),
            Ok(op) => {
                let t = op.debug_text();
                Err(EntryPointErr::UnknownErr(join(HANDLE_OPS_INVALID, t.as_str())))
            },
        },
    }
}

/// The decision of a plain read of the contract: its value, or an
/// `UnknownErr` with the fixed message `msg`.
pub open spec fn spec_read<T>(call: Result<T, ContractFailure>, msg: Seq<char>) -> Result<
    T,
    EntryPointErrView,
> {
    match call {
        Ok(v) => Ok(v),
        Err(_) => Err(EntryPointErrView::UnknownErr(msg)),
    }
}

/// Decides the result of `getDepositInfo` from the outcome of the call.
pub fn get_deposit_info<T>(call: Result<T, ContractFailure>) -> (r: Result<T, EntryPointErr>)
    ensures
        result_view(r) == spec_read(call, DEPOSIT_INFO_FAILED@),
{
    match call {
        Ok(deposit_info) => Ok(deposit_info),
        Err(_) => Err(EntryPointErr::UnknownErr(DEPOSIT_INFO_FAILED.to_owned())),
    }
}

/// Decides the result of `balanceOf` from the outcome of the call.
pub fn balance_of<T>(call: Result<T, ContractFailure>) -> (r: Result<T, EntryPointErr>)
    ensures
        result_view(r) == spec_read(call, BALANCE_OF_FAILED@),
{
    match call {
        Ok(balance) => Ok(balance),
        Err(_) => Err(EntryPointErr::UnknownErr(BALANCE_OF_FAILED.to_owned())),
    }
}

/// The decision of `getNonce`: the nonce, or an `UnknownErr` that quotes the
/// failure.
pub open spec fn spec_get_nonce<T>(call: Result<T, ContractFailure>) -> Result<T, EntryPointErrView> {
    match call {
        Ok(v) => Ok(v),
        Err(f) => Err(EntryPointErrView::UnknownErr(NONCE_FAILED@ + f.debug@)),
    }
}

/// Decides the result of `getNonce` from the outcome of the call.
pub fn get_nonce<T>(call: Result<T, ContractFailure>) -> (r: Result<T, EntryPointErr>)
    ensures
        result_view(r) == spec_get_nonce(call),
{
    match call {
        Ok(nonce) => Ok(nonce),
        Err(e) => Err(EntryPointErr::UnknownErr(join(NONCE_FAILED, e.debug.as_str()))),
    }
}

/// The decision of `getSenderAddress`, a call that always reverts: the
/// sender address on success, `FailedOp` when the operation is rejected, and
/// the classification of any other failure passed on unchanged.
pub open spec fn spec_get_sender_address(call: Result<(), ContractFailure>) -> Result<
    SenderAddressResult,
    EntryPointErrView,
> {
    match call {
        Ok(_) => Err(EntryPointErrView::UnknownErr(SENDER_ADDRESS_NO_REVERT@)),
        Err(f) => match contract_failure_result(f) {
            Err(e) => Err(e),
            Ok(EntryPointAPIErrors::SenderAddressResult(res)) => Ok(res),
            Ok(EntryPointAPIErrors::FailedOp(op)) => Err(EntryPointErrView::FailedOp(op)),
            Ok(other) => Err(
                EntryPointErrView::UnknownErr(SIMULATE_VALIDATION_INVALID@ + api_error_text(other)),
            ),
        },
    }
}

/// Decides the result of `getSenderAddress` from the outcome of the call.
pub fn get_sender_address(call: Result<(), ContractFailure>) -> (r: Result<
    SenderAddressResult,
    EntryPointErr,
>)
    requires
        call matches Err(f) ==> contract_failure_ok(f),
    ensures
        result_view(r) == spec_get_sender_address(call),
        call matches Err(f) ==> (contract_failure_result(f) matches Ok(
            EntryPointAPIErrors::SenderAddressResult(res),
        ) ==> r == Ok::<SenderAddressResult, EntryPointErr>(res)),
{
    match call {
        Ok(_) => Err(EntryPointErr::UnknownErr(SENDER_ADDRESS_NO_REVERT.to_owned())),
        Err(e) => match deserialize_error_msg(&e) {
            Err(err) => Err(err),
            Ok(EntryPointAPIErrors::SenderAddressResult(res)) => Ok(res),
            Ok(EntryPointAPIErrors::FailedOp(err)) => Err(EntryPointErr::FailedOp(err)),
            Ok(op) => {
                let t = op.debug_text();
                Err(EntryPointErr::UnknownErr(join(SIMULATE_VALIDATION_INVALID, t.as_str())))
            },
        },
    }
}

/// The decision of `simulateHandleOp`, a call that always reverts: the
/// execution result on success, `FailedOp` when the operation is rejected,
/// and the classification of any other failure passed on unchanged.
pub open spec fn spec_simulate_handle_op(call: Result<(), ContractFailure>) -> Result<
    ExecutionResult,
    EntryPointErrView,
> {
    match call {
        Ok(_) => Err(EntryPointErrView::UnknownErr(SIMULATE_HANDLE_OP_NO_REVERT@)),
        Err(f) => match contract_failure_result(f) {
            Err(e) => Err(e),
            Ok(EntryPointAPIErrors::FailedOp(op)) => Err(EntryPointErrView::FailedOp(op)),
            Ok(EntryPointAPIErrors::ExecutionResult(res)) => Ok(res),
            Ok(other) => Err(
                EntryPointErrView::UnknownErr(SIMULATE_HANDLE_OP_INVALID@ + api_error_text(other)),
            ),
        },
    }
}

/// Decides the result of `simulateHandleOp` from the outcome of the call.
pub fn simulate_handle_op(call: Result<(), ContractFailure>) -> (r: Result<
    ExecutionResult,
    EntryPointErr,
>)
    requires
        call matches Err(f) ==> contract_failure_ok(f),
    ensures
        result_view(r) == spec_simulate_handle_op(call),
        call matches Err(f) ==> (contract_failure_result(f) matches Ok(
            EntryPointAPIErrors::ExecutionResult(res),
        ) ==> r == Ok::<ExecutionResult, EntryPointErr>(res)),
{
    match call {
        Ok(_) => Err(EntryPointErr::UnknownErr(SIMULATE_HANDLE_OP_NO_REVERT.to_owned())),
        Err(e) => match deserialize_error_msg(&e) {
            Err(err) => Err(err),
            Ok(EntryPointAPIErrors::FailedOp(err)) => Err(EntryPointErr::FailedOp(err)),
            Ok(EntryPointAPIErrors::ExecutionResult(res)) => Ok(res),
            Ok(op) => {
                let t = op.debug_text();
                Err(EntryPointErr::UnknownErr(join(SIMULATE_HANDLE_OP_INVALID, t.as_str())))
            },
        },
    }
}

/// The decision of tracing a simulated validation: the trace unchanged, or
/// the classification of the failure passed on unchanged.
pub open spec fn trace_outcome<T>(trace: Result<T, MiddlewareFailure>, r: Result<T, EntryPointErr>) -> bool {
    match trace {
        Ok(t) => r == Ok::<T, EntryPointErr>(t),
        Err(m) => r is Err && middleware_result(m) == Err::<EntryPointAPIErrors, EntryPointErrView>(
            r->Err_0@,
        ),
    }
}

/// Decides the result of tracing a simulated validation. A failed trace is
/// expected never to carry a decodable entry point error.
pub fn simulate_validation_trace<T>(trace: Result<T, MiddlewareFailure>) -> (r: Result<
    T,
    EntryPointErr,
>)
    requires
        trace matches Err(m) ==> middleware_ok(m) && middleware_result(m) is Err,
    ensures
        trace_outcome(trace, r),
{
    match trace {
        Ok(t) => Ok(t),
        Err(m) => match from_middleware_err(&m) {
            Err(e) => Err(e),
            Ok(_) => {
                assert(false);
                Err(EntryPointErr::UnknownErr(String::new()))
            },
        },
    }
}

/// Tests whether a failed trace holds the decodable entry point error that
/// `simulate_validation_trace` does not expect: `None` when it does, else
/// the decided result.
pub fn checked_simulate_validation_trace<T>(trace: Result<T, MiddlewareFailure>) -> (r: Option<
    Result<T, EntryPointErr>,
>)
    requires
        trace matches Err(m) ==> middleware_ok(m),
    ensures
        r is None <==> (trace matches Err(m) && middleware_result(m) is Ok),
        r matches Some(res) ==> trace_outcome(trace, res),
{
    if let Err(m) = &trace {
        if from_middleware_err(m).is_ok() {
            return None;
        }
    }
    Some(simulate_validation_trace(trace))
}

// ---------------------------------------------------------------------------
// Laws

/// A user operation that the contract rejects with `FailedOp` surfaces as
/// `EntryPointErr::FailedOp`, with the same operation error, from every call
/// that decodes the contract's errors.
pub proof fn lemma_failed_op_surfaces(f: ContractFailure, op: FailedOp)
    requires
        contract_failure_result(f) == Ok::<EntryPointAPIErrors, EntryPointErrView>(
            EntryPointAPIErrors::FailedOp(op),
        ),
    ensures
        spec_simulate_validation(Err(f)) == Err::<SimulateValidationResult, EntryPointErrView>(
            EntryPointErrView::FailedOp(op),
        ),
        spec_handle_ops(Err(f)) == Err::<(), EntryPointErrView>(EntryPointErrView::FailedOp(op)),
        spec_get_sender_address(Err(f)) == Err::<SenderAddressResult, EntryPointErrView>(
            EntryPointErrView::FailedOp(op),
        ),
        spec_simulate_handle_op(Err(f)) == Err::<ExecutionResult, EntryPointErrView>(
            EntryPointErrView::FailedOp(op),
        ),
{
}

/// The simulation calls report their result by reverting: a simulation that
/// returns normally is an `UnknownErr`.
pub proof fn lemma_simulations_expect_revert()
    ensures
        spec_simulate_validation(Ok(())) matches Err(EntryPointErrView::UnknownErr(_)),
        spec_get_sender_address(Ok(())) matches Err(EntryPointErrView::UnknownErr(_)),
        spec_simulate_handle_op(Ok(())) matches Err(EntryPointErrView::UnknownErr(_)),
{
}

/// A failed call whose classification is an error is passed on unchanged by
/// every call that decodes the contract's errors.
pub proof fn lemma_classified_failure_passes(f: ContractFailure, e: EntryPointErrView)
    requires
        contract_failure_result(f) == Err::<EntryPointAPIErrors, EntryPointErrView>(e),
    ensures
        spec_simulate_validation(Err(f)) == Err::<SimulateValidationResult, EntryPointErrView>(e),
        spec_handle_ops(Err(f)) == Err::<(), EntryPointErrView>(e),
        spec_get_sender_address(Err(f)) == Err::<SenderAddressResult, EntryPointErrView>(e),
        spec_simulate_handle_op(Err(f)) == Err::<ExecutionResult, EntryPointErrView>(e),
{
}

/// What a call decodes from the contract's revert is handed back unchanged:
/// the validation result (with or without aggregation) by
/// `simulateValidation`, the execution result by `simulateHandleOp`, the
/// sender address by `getSenderAddress`.
pub proof fn lemma_decoded_results_pass(f: ContractFailure)
    ensures
        contract_failure_result(f) matches Ok(EntryPointAPIErrors::ValidationResult(v))
            ==> spec_simulate_validation(Err(f)) == Ok::<SimulateValidationResult, EntryPointErrView>(
            SimulateValidationResult::ValidationResult(v),
        ),
        contract_failure_result(f) matches Ok(EntryPointAPIErrors::ValidationResultWithAggregation(v))
            ==> spec_simulate_validation(Err(f)) == Ok::<SimulateValidationResult, EntryPointErrView>(
            SimulateValidationResult::ValidationResultWithAggregation(v),
        ),
        contract_failure_result(f) matches Ok(EntryPointAPIErrors::ExecutionResult(res))
            ==> spec_simulate_handle_op(Err(f)) == Ok::<ExecutionResult, EntryPointErrView>(res),
        contract_failure_result(f) matches Ok(EntryPointAPIErrors::SenderAddressResult(res))
            ==> spec_get_sender_address(Err(f)) == Ok::<SenderAddressResult, EntryPointErrView>(res),
{
}

/// A decoded contract error that a call does not expect is reported as an
/// `UnknownErr` that names the call and quotes the error's debug text; the
/// calls that always revert say so when they do not.
pub proof fn lemma_unexpected_errors_reported(f: ContractFailure, other: EntryPointAPIErrors)
    requires
        contract_failure_result(f) == Ok::<EntryPointAPIErrors, EntryPointErrView>(other),
    ensures
        !(other is FailedOp) ==> spec_handle_ops(Err(f)) == Err::<(), EntryPointErrView>(
            EntryPointErrView::UnknownErr(
                "Handle ops with invalid error: "@ + api_error_text(other),
            ),
        ),
        !(other is FailedOp || other is ValidationResult || other is ValidationResultWithAggregation)
            ==> spec_simulate_validation(Err(f)) == Err::<SimulateValidationResult, EntryPointErrView>(
            EntryPointErrView::UnknownErr(
                "Simulate validation with invalid error: "@ + api_error_text(other),
            ),
        ),
        !(other is FailedOp || other is SenderAddressResult) ==> spec_get_sender_address(Err(f))
            == Err::<SenderAddressResult, EntryPointErrView>(
            EntryPointErrView::UnknownErr(
                "Simulate validation with invalid error: "@ + api_error_text(other),
            ),
        ),
        !(other is FailedOp || other is ExecutionResult) ==> spec_simulate_handle_op(Err(f))
            == Err::<ExecutionResult, EntryPointErrView>(
            EntryPointErrView::UnknownErr(
                "Simulate handle op with invalid error: "@ + api_error_text(other),
            ),
        ),
        spec_simulate_validation(Ok(())) == Err::<SimulateValidationResult, EntryPointErrView>(
            EntryPointErrView::UnknownErr("Simulate validation should expect revert"@),
        ),
        spec_get_sender_address(Ok(())) == Err::<SenderAddressResult, EntryPointErrView>(
            EntryPointErrView::UnknownErr("Get sender address should expect revert"@),
        ),
        spec_simulate_handle_op(Ok(())) == Err::<ExecutionResult, EntryPointErrView>(
            EntryPointErrView::UnknownErr("Simulate handle op should expect revert"@),
        ),
{
}

/// `handleOps` reverting with `FailedOp(opIndex, reason)` reports that very
/// operation index and reason.
pub proof fn lemma_handle_ops_reports_failed_op(
    data: Vec<u8>,
    args: Seq<u8>,
    op_index: U256,
    reason: String,
    debug: String,
)
    requires
        data@ == FAILED_OP_SELECTOR@ + args,
        abi_decoded(FAILED_OP_PARAMS@, args) matches Ok(vals) && vals == seq![
            AbiValue::Uint(op_index),
            AbiValue::Str(reason),
        ],
        spec_decode_string(data@) is None,
    ensures
        spec_handle_ops(Err(ContractFailure { kind: ContractFailureKind::Revert(data), debug }))
            == Err::<(), EntryPointErrView>(
            EntryPointErrView::FailedOp(FailedOp { op_index, reason }),
        ),
{
    lemma_failed_op_decodes(args, op_index, reason);
}

/// `simulateHandleOp` reverting with an `ExecutionResult` reports the
/// decoded execution result: in particular whether the target call
/// succeeded is the decoded flag.
pub proof fn lemma_simulate_handle_op_reports_execution(
    data: Vec<u8>,
    args: Seq<u8>,
    pre_op_gas: U256,
    paid: U256,
    valid_after: U256,
    valid_until: U256,
    target_success: bool,
    target_result: Vec<u8>,
    debug: String,
)
    requires
        data@ == EXECUTION_RESULT_SELECTOR@ + args,
        abi_decoded(EXECUTION_RESULT_PARAMS@, args) matches Ok(vals) && vals == seq![
            AbiValue::Uint(pre_op_gas),
            AbiValue::Uint(paid),
            AbiValue::Uint(valid_after),
            AbiValue::Uint(valid_until),
            AbiValue::Bool(target_success),
            AbiValue::Bytes(target_result),
        ],
        spec_decode_string(data@) is None,
    ensures
        spec_simulate_handle_op(Err(ContractFailure { kind: ContractFailureKind::Revert(data), debug }))
            == Ok::<ExecutionResult, EntryPointErrView>(
            ExecutionResult {
                pre_op_gas,
                paid,
                valid_after: valid_after@[0],
                valid_until: valid_until@[0],
                target_success,
                target_result,
            },
        ),
{
    lemma_execution_result_decodes(
        args,
        pre_op_gas,
        paid,
        valid_after,
        valid_until,
        target_success,
        target_result,
    );
}

/// `getSenderAddress` reverting with `SenderAddressResult(sender)` reports
/// that address, byte for byte.
pub proof fn lemma_get_sender_address_reports_sender(
    data: Vec<u8>,
    args: Seq<u8>,
    sender: Address,
    debug: String,
)
    requires
        data@ == SENDER_ADDRESS_RESULT_SELECTOR@ + args,
        abi_decoded(ADDRESS_PARAMS@, args) matches Ok(vals) && vals == seq![AbiValue::Address(sender)],
        spec_decode_string(data@) is None,
    ensures
        spec_get_sender_address(Err(ContractFailure { kind: ContractFailureKind::Revert(data), debug }))
            == Ok::<SenderAddressResult, EntryPointErrView>(SenderAddressResult { sender }),
{
    lemma_sender_address_decodes(args, sender);
}

} // verus!
