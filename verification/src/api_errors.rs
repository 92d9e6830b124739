//! The custom errors of the entry point contract and their decoding from
//! revert data.

use crate::abi::{
    abi_decode, abi_decoded, invalid_data_error, invalid_data_text, known_params, AbiValue,
    INVALID_DATA_TEXT,
};
use vstd::prelude::*;
use vstd::slice::slice_subrange;

verus! {

/// A 256-bit unsigned integer as four 64-bit limbs, least significant first.
pub type U256 = [u64; 4];

/// A 20-byte account address.
pub type Address = [u8; 20];

/// `FailedOp(uint256 opIndex, string reason)`.
#[derive(Clone, Debug)]
pub struct FailedOp {
    pub op_index: U256,
    pub reason: String,
}

/// `ExecutionResult(uint256,uint256,uint48,uint48,bool,bytes)`.
#[derive(Clone, Debug)]
pub struct ExecutionResult {
    pub pre_op_gas: U256,
    pub paid: U256,
    pub valid_after: u64,
    pub valid_until: u64,
    pub target_success: bool,
    pub target_result: Vec<u8>,
}

/// `SenderAddressResult(address sender)`.
#[derive(Clone, Debug)]
pub struct SenderAddressResult {
    pub sender: Address,
}

/// `SignatureValidationFailed(address aggregator)`.
#[derive(Clone, Debug)]
pub struct SignatureValidationFailed {
    pub aggregator: Address,
}

/// The return information of a validation.
#[derive(Clone, Debug)]
pub struct ReturnInfo {
    pub pre_op_gas: U256,
    pub prefund: U256,
    pub sig_failed: bool,
    pub valid_after: u64,
    pub valid_until: u64,
    pub paymaster_context: Vec<u8>,
}

/// The stake of an entity.
#[derive(Clone, Debug)]
pub struct StakeInfo {
    pub stake: U256,
    pub unstake_delay_sec: U256,
}

/// The stake of a signature aggregator.
#[derive(Clone, Debug)]
pub struct AggregatorStakeInfo {
    pub aggregator: Address,
    pub stake_info: StakeInfo,
}

/// `ValidationResult(ReturnInfo, StakeInfo, StakeInfo, StakeInfo)`.
#[derive(Clone, Debug)]
pub struct ValidationResult {
    pub return_info: ReturnInfo,
    pub sender_info: StakeInfo,
    pub factory_info: StakeInfo,
    pub paymaster_info: StakeInfo,
}

/// `ValidationResultWithAggregation(ReturnInfo, StakeInfo, StakeInfo, StakeInfo, AggregatorStakeInfo)`.
#[derive(Clone, Debug)]
pub struct ValidationResultWithAggregation {
    pub return_info: ReturnInfo,
    pub sender_info: StakeInfo,
    pub factory_info: StakeInfo,
    pub paymaster_info: StakeInfo,
    pub aggregator_info: AggregatorStakeInfo,
}

/// The errors that the entry point contract reverts with, and the standard
/// revert string.
#[derive(Clone, Debug)]
pub enum EntryPointAPIErrors {
    ExecutionResult(ExecutionResult),
    FailedOp(FailedOp),
    SenderAddressResult(SenderAddressResult),
    SignatureValidationFailed(SignatureValidationFailed),
    ValidationResult(ValidationResult),
    ValidationResultWithAggregation(ValidationResultWithAggregation),
    RevertString(String),
}

pub const EXECUTION_RESULT_SELECTOR: [u8; 4] = [0x8b, 0x7a, 0xc9, 0x80];
pub const FAILED_OP_SELECTOR: [u8; 4] = [0x22, 0x02, 0x66, 0xb6];
pub const SENDER_ADDRESS_RESULT_SELECTOR: [u8; 4] = [0x6c, 0xa7, 0xb8, 0x06];
pub const SIGNATURE_VALIDATION_FAILED_SELECTOR: [u8; 4] = [0x86, 0xa9, 0xf7, 0x50];
pub const VALIDATION_RESULT_SELECTOR: [u8; 4] = [0xe0, 0xcf, 0xf0, 0x5f];
pub const VALIDATION_RESULT_WITH_AGGREGATION_SELECTOR: [u8; 4] = [0xfa, 0xec, 0xb4, 0xe4];
/// The selector of the standard `Error(string)` revert.
pub const REVERT_STRING_SELECTOR: [u8; 4] = [0x08, 0xc3, 0x79, 0xa0];

pub const STRING_PARAMS: &'static str = "(string)";
pub const EXECUTION_RESULT_PARAMS: &'static str = "(uint256,uint256,uint48,uint48,bool,bytes)";
pub const FAILED_OP_PARAMS: &'static str = "(uint256,string)";
pub const ADDRESS_PARAMS: &'static str = "(address)";
pub const VALIDATION_RESULT_PARAMS: &'static str = "((uint256,uint256,bool,uint48,uint48,bytes),(uint256,uint256),(uint256,uint256),(uint256,uint256))";
pub const VALIDATION_RESULT_WITH_AGGREGATION_PARAMS: &'static str = "((uint256,uint256,bool,uint48,uint48,bytes),(uint256,uint256),(uint256,uint256),(uint256,uint256),(address,(uint256,uint256)))";

// ---------------------------------------------------------------------------
// Reading single values

pub open spec fn uint_value(v: AbiValue) -> Option<U256> {
    match v {
        AbiValue::Uint(x) => Some(x),
        _ => None,
    }
}

/// A `uint48` field read as the low 64 bits of its word.
pub open spec fn low_u64_value(v: AbiValue) -> Option<u64> {
    match v {
        AbiValue::Uint(x) => Some(x@[0]),
        _ => None,
    }
}

pub open spec fn bool_value(v: AbiValue) -> Option<bool> {
    match v {
        AbiValue::Bool(b) => Some(b),
        _ => None,
    }
}

pub open spec fn bytes_value(v: AbiValue) -> Option<Vec<u8>> {
    match v {
        AbiValue::Bytes(b) => Some(b),
        _ => None,
    }
}

pub open spec fn string_value(v: AbiValue) -> Option<String> {
    match v {
        AbiValue::Str(s) => Some(s),
        _ => None,
    }
}

pub open spec fn address_value(v: AbiValue) -> Option<Address> {
    match v {
        AbiValue::Address(a) => Some(a),
        _ => None,
    }
}

pub open spec fn tuple_value(v: AbiValue) -> Option<Seq<AbiValue>> {
    match v {
        AbiValue::Tuple(t) => Some(t@),
        _ => None,
    }
}

fn take_uint(v: AbiValue) -> (r: Option<U256>)
    ensures
        r == uint_value(v),
{
    match v {
        AbiValue::Uint(x) => Some(x),
        _ => None,
    }
}

fn take_low_u64(v: AbiValue) -> (r: Option<u64>)
    ensures
        r == low_u64_value(v),
{
    match v {
        AbiValue::Uint(x) => Some(x[0]),
        _ => None,
    }
}

fn take_bool(v: AbiValue) -> (r: Option<bool>)
    ensures
        r == bool_value(v),
{
    match v {
        AbiValue::Bool(b) => Some(b),
        _ => None,
    }
}

fn take_bytes(v: AbiValue) -> (r: Option<Vec<u8>>)
    ensures
        r == bytes_value(v),
{
    match v {
        AbiValue::Bytes(b) => Some(b),
        _ => None,
    }
}

fn take_string(v: AbiValue) -> (r: Option<String>)
    ensures
        r == string_value(v),
{
    match v {
        AbiValue::Str(s) => Some(s),
        _ => None,
    }
}

fn take_address(v: AbiValue) -> (r: Option<Address>)
    ensures
        r == address_value(v),
{
    match v {
        AbiValue::Address(a) => Some(a),
        _ => None,
    }
}

fn take_tuple(v: AbiValue) -> (r: Option<Vec<AbiValue>>)
    ensures
        r is Some <==> tuple_value(v) is Some,
        r matches Some(t) ==> tuple_value(v) == Some(t@),
{
    match v {
        AbiValue::Tuple(t) => Some(t),
        _ => None,
    }
}

/// Moves the last value out of a list that is known not to be empty.
fn pop_last(v: &mut Vec<AbiValue>) -> (r: AbiValue)
    requires
        old(v)@.len() > 0,
    ensures
        r == old(v)@.last(),
        final(v)@ == old(v)@.drop_last(),
{
    v.pop().unwrap()
}

// ---------------------------------------------------------------------------
// Reading the parameters of each error

pub open spec fn failed_op_of(vals: Seq<AbiValue>) -> Option<FailedOp> {
    if vals.len() == 2 && uint_value(vals[0]) is Some && string_value(vals[1]) is Some {
        Some(
            FailedOp {
                op_index: uint_value(vals[0]).unwrap(),
                reason: string_value(vals[1]).unwrap(),
            },
        )
    } else {
        None
    }
}

fn failed_op_from(vals: Vec<AbiValue>) -> (r: Option<FailedOp>)
    ensures
        r == failed_op_of(vals@),
{
    let mut vals = vals;
    if vals.len() != 2 {
        return None;
    }
    let reason = take_string(pop_last(&mut vals));
    let op_index = take_uint(pop_last(&mut vals));
    match (op_index, reason) {
        (Some(op_index), Some(reason)) => Some(FailedOp { op_index, reason }),
        _ => None,
    }
}

pub open spec fn execution_result_of(vals: Seq<AbiValue>) -> Option<ExecutionResult> {
    if vals.len() == 6 && uint_value(vals[0]) is Some && uint_value(vals[1]) is Some
        && low_u64_value(vals[2]) is Some && low_u64_value(vals[3]) is Some && bool_value(
        vals[4],
    ) is Some && bytes_value(vals[5]) is Some {
        Some(
            ExecutionResult {
                pre_op_gas: uint_value(vals[0]).unwrap(),
                paid: uint_value(vals[1]).unwrap(),
                valid_after: low_u64_value(vals[2]).unwrap(),
                valid_until: low_u64_value(vals[3]).unwrap(),
                target_success: bool_value(vals[4]).unwrap(),
                target_result: bytes_value(vals[5]).unwrap(),
            },
        )
    } else {
        None
    }
}

fn execution_result_from(vals: Vec<AbiValue>) -> (r: Option<ExecutionResult>)
    ensures
        r == execution_result_of(vals@),
{
    let mut vals = vals;
    if vals.len() != 6 {
        return None;
    }
    let target_result = take_bytes(pop_last(&mut vals));
    let target_success = take_bool(pop_last(&mut vals));
    let valid_until = take_low_u64(pop_last(&mut vals));
    let valid_after = take_low_u64(pop_last(&mut vals));
    let paid = take_uint(pop_last(&mut vals));
    let pre_op_gas = take_uint(pop_last(&mut vals));
    match (pre_op_gas, paid, valid_after, valid_until, target_success, target_result) {
        (
            Some(pre_op_gas),
            Some(paid),
            Some(valid_after),
            Some(valid_until),
            Some(target_success),
            Some(target_result),
        ) => Some(
            ExecutionResult {
                pre_op_gas,
                paid,
                valid_after,
                valid_until,
                target_success,
                target_result,
            },
        ),
        _ => None,
    }
}

/// The single address parameter of `SenderAddressResult` and
/// `SignatureValidationFailed`.
pub open spec fn single_address_of(vals: Seq<AbiValue>) -> Option<Address> {
    if vals.len() == 1 {
        address_value(vals[0])
    } else {
        None
    }
}

fn single_address_from(vals: Vec<AbiValue>) -> (r: Option<Address>)
    ensures
        r == single_address_of(vals@),
{
    let mut vals = vals;
    if vals.len() != 1 {
        return None;
    }
    take_address(pop_last(&mut vals))
}

pub open spec fn return_info_of(v: AbiValue) -> Option<ReturnInfo> {
    match tuple_value(v) {
        Some(t) => if t.len() == 6 && uint_value(t[0]) is Some && uint_value(t[1]) is Some
            && bool_value(t[2]) is Some && low_u64_value(t[3]) is Some && low_u64_value(t[4]) is Some
            && bytes_value(t[5]) is Some {
            Some(
                ReturnInfo {
                    pre_op_gas: uint_value(t[0]).unwrap(),
                    prefund: uint_value(t[1]).unwrap(),
                    sig_failed: bool_value(t[2]).unwrap(),
                    valid_after: low_u64_value(t[3]).unwrap(),
                    valid_until: low_u64_value(t[4]).unwrap(),
                    paymaster_context: bytes_value(t[5]).unwrap(),
                },
            )
        } else {
            None
        },
        None => None,
    }
}

fn return_info_from(v: AbiValue) -> (r: Option<ReturnInfo>)
    ensures
        r == return_info_of(v),
{
    let mut t = match take_tuple(v) {
        Some(t) => t,
        None => return None,
    };
    if t.len() != 6 {
        return None;
    }
    let paymaster_context = take_bytes(pop_last(&mut t));
    let valid_until = take_low_u64(pop_last(&mut t));
    let valid_after = take_low_u64(pop_last(&mut t));
    let sig_failed = take_bool(pop_last(&mut t));
    let prefund = take_uint(pop_last(&mut t));
    let pre_op_gas = take_uint(pop_last(&mut t));
    match (pre_op_gas, prefund, sig_failed, valid_after, valid_until, paymaster_context) {
        (
            Some(pre_op_gas),
            Some(prefund),
            Some(sig_failed),
            Some(valid_after),
            Some(valid_until),
            Some(paymaster_context),
        ) => Some(
            ReturnInfo {
                pre_op_gas,
                prefund,
                sig_failed,
                valid_after,
                valid_until,
                paymaster_context,
            },
        ),
        _ => None,
    }
}

pub open spec fn stake_info_of(v: AbiValue) -> Option<StakeInfo> {
    match tuple_value(v) {
        Some(t) => if t.len() == 2 && uint_value(t[0]) is Some && uint_value(t[1]) is Some {
            Some(
                StakeInfo {
                    stake: uint_value(t[0]).unwrap(),
                    unstake_delay_sec: uint_value(t[1]).unwrap(),
                },
            )
        } else {
            None
        },
        None => None,
    }
}

fn stake_info_from(v: AbiValue) -> (r: Option<StakeInfo>)
    ensures
        r == stake_info_of(v),
{
    let mut t = match take_tuple(v) {
        Some(t) => t,
        None => return None,
    };
    if t.len() != 2 {
        return None;
    }
    let unstake_delay_sec = take_uint(pop_last(&mut t));
    let stake = take_uint(pop_last(&mut t));
    match (stake, unstake_delay_sec) {
        (Some(stake), Some(unstake_delay_sec)) => Some(StakeInfo { stake, unstake_delay_sec }),
        _ => None,
    }
}

pub open spec fn aggregator_stake_info_of(v: AbiValue) -> Option<AggregatorStakeInfo> {
    match tuple_value(v) {
        Some(t) => if t.len() == 2 && address_value(t[0]) is Some && stake_info_of(t[1]) is Some {
            Some(
                AggregatorStakeInfo {
                    aggregator: address_value(t[0]).unwrap(),
                    stake_info: stake_info_of(t[1]).unwrap(),
                },
            )
        } else {
            None
        },
        None => None,
    }
}

fn aggregator_stake_info_from(v: AbiValue) -> (r: Option<AggregatorStakeInfo>)
    ensures
        r == aggregator_stake_info_of(v),
{
    let mut t = match take_tuple(v) {
        Some(t) => t,
        None => return None,
    };
    if t.len() != 2 {
        return None;
    }
    let stake_info = stake_info_from(pop_last(&mut t));
    let aggregator = take_address(pop_last(&mut t));
    match (aggregator, stake_info) {
        (Some(aggregator), Some(stake_info)) => Some(AggregatorStakeInfo { aggregator, stake_info }),
        _ => None,
    }
}

pub open spec fn validation_result_of(vals: Seq<AbiValue>) -> Option<ValidationResult> {
    if vals.len() == 4 && return_info_of(vals[0]) is Some && stake_info_of(vals[1]) is Some
        && stake_info_of(vals[2]) is Some && stake_info_of(vals[3]) is Some {
        Some(
            ValidationResult {
                return_info: return_info_of(vals[0]).unwrap(),
                sender_info: stake_info_of(vals[1]).unwrap(),
                factory_info: stake_info_of(vals[2]).unwrap(),
                paymaster_info: stake_info_of(vals[3]).unwrap(),
            },
        )
    } else {
        None
    }
}

fn validation_result_from(vals: Vec<AbiValue>) -> (r: Option<ValidationResult>)
    ensures
        r == validation_result_of(vals@),
{
    let mut vals = vals;
    if vals.len() != 4 {
        return None;
    }
    let paymaster_info = stake_info_from(pop_last(&mut vals));
    let factory_info = stake_info_from(pop_last(&mut vals));
    let sender_info = stake_info_from(pop_last(&mut vals));
    let return_info = return_info_from(pop_last(&mut vals));
    match (return_info, sender_info, factory_info, paymaster_info) {
        (Some(return_info), Some(sender_info), Some(factory_info), Some(paymaster_info)) => Some(
            ValidationResult { return_info, sender_info, factory_info, paymaster_info },
        ),
        _ => None,
    }
}

pub open spec fn validation_result_with_aggregation_of(vals: Seq<AbiValue>) -> Option<
    ValidationResultWithAggregation,
> {
    if vals.len() == 5 && return_info_of(vals[0]) is Some && stake_info_of(vals[1]) is Some
        && stake_info_of(vals[2]) is Some && stake_info_of(vals[3]) is Some
        && aggregator_stake_info_of(vals[4]) is Some {
        Some(
            ValidationResultWithAggregation {
                return_info: return_info_of(vals[0]).unwrap(),
                sender_info: stake_info_of(vals[1]).unwrap(),
                factory_info: stake_info_of(vals[2]).unwrap(),
                paymaster_info: stake_info_of(vals[3]).unwrap(),
                aggregator_info: aggregator_stake_info_of(vals[4]).unwrap(),
            },
        )
    } else {
        None
    }
}

fn validation_result_with_aggregation_from(vals: Vec<AbiValue>) -> (r: Option<
    ValidationResultWithAggregation,
>)
    ensures
        r == validation_result_with_aggregation_of(vals@),
{
    let mut vals = vals;
    if vals.len() != 5 {
        return None;
    }
    let aggregator_info = aggregator_stake_info_from(pop_last(&mut vals));
    let paymaster_info = stake_info_from(pop_last(&mut vals));
    let factory_info = stake_info_from(pop_last(&mut vals));
    let sender_info = stake_info_from(pop_last(&mut vals));
    let return_info = return_info_from(pop_last(&mut vals));
    match (return_info, sender_info, factory_info, paymaster_info, aggregator_info) {
        (
            Some(return_info),
            Some(sender_info),
            Some(factory_info),
            Some(paymaster_info),
            Some(aggregator_info),
        ) => Some(
            ValidationResultWithAggregation {
                return_info,
                sender_info,
                factory_info,
                paymaster_info,
                aggregator_info,
            },
        ),
        _ => None,
    }
}

// ---------------------------------------------------------------------------
// Selectors and the decoder

/// `data` begins with the four-byte selector `sel`.
pub open spec fn has_selector(data: Seq<u8>, sel: [u8; 4]) -> bool {
    data.len() >= 4 && data.subrange(0, 4) == sel@
}

/// The encoded parameters that follow a selector.
pub open spec fn args_of(data: Seq<u8>) -> Seq<u8> {
    data.subrange(4, data.len() as int)
}

pub(crate) fn starts_with_selector(data: &[u8], sel: [u8; 4]) -> (r: bool)
    ensures
        r == has_selector(data@, sel),
{
    if data.len() < 4 {
        return false;
    }
    let r = data[0] == sel[0] && data[1] == sel[1] && data[2] == sel[2] && data[3] == sel[3];
    if r {
        assert(data@.subrange(0, 4) =~= sel@);
    } else {
        assert(data@.subrange(0, 4)[0] == data@[0]);
        assert(data@.subrange(0, 4)[1] == data@[1]);
        assert(data@.subrange(0, 4)[2] == data@[2]);
        assert(data@.subrange(0, 4)[3] == data@[3]);
    }
    r
}

/// The errors are told apart by their selectors: no data starts with two of
/// them, so which of them a revert decodes to does not depend on the order in
/// which they are tried.
pub proof fn lemma_selectors_distinct(data: Seq<u8>)
    ensures
        ({
            let sels = seq![
                EXECUTION_RESULT_SELECTOR,
                FAILED_OP_SELECTOR,
                SENDER_ADDRESS_RESULT_SELECTOR,
                SIGNATURE_VALIDATION_FAILED_SELECTOR,
                VALIDATION_RESULT_SELECTOR,
                VALIDATION_RESULT_WITH_AGGREGATION_SELECTOR,
                REVERT_STRING_SELECTOR,
            ];
            forall|i: int, j: int|
                0 <= i < j < sels.len() && #[trigger] has_selector(data, sels[i]) ==> !#[trigger] has_selector(
                    data,
                    sels[j],
                )
        }),
{
    let sels = seq![
        EXECUTION_RESULT_SELECTOR,
        FAILED_OP_SELECTOR,
        SENDER_ADDRESS_RESULT_SELECTOR,
        SIGNATURE_VALIDATION_FAILED_SELECTOR,
        VALIDATION_RESULT_SELECTOR,
        VALIDATION_RESULT_WITH_AGGREGATION_SELECTOR,
        REVERT_STRING_SELECTOR,
    ];
    assert forall|i: int, j: int|
        0 <= i < j < sels.len() && #[trigger] has_selector(data, sels[i]) implies !#[trigger] has_selector(
        data,
        sels[j],
    ) by {
        if has_selector(data, sels[j]) {
            assert(sels[i]@[0] == data[0] && sels[j]@[0] == data[0]);
            assert(sels[i]@[1] == data[1] && sels[j]@[1] == data[1]);
        }
    }
}

/// The parameters after the selector, read against `params`, when `data`
/// begins with `sel`.
pub open spec fn selected_args(data: Seq<u8>, sel: [u8; 4], params: Seq<char>) -> Option<
    Seq<AbiValue>,
> {
    if has_selector(data, sel) {
        match abi_decoded(params, args_of(data)) {
            Ok(v) => Some(v),
            Err(_) => None,
        }
    } else {
        None
    }
}

fn decode_selected(data: &[u8], sel: [u8; 4], params: &str) -> (r: Option<Vec<AbiValue>>)
    requires
        known_params(params@),
    ensures
        r is Some <==> selected_args(data@, sel, params@) is Some,
        r matches Some(v) ==> selected_args(data@, sel, params@) == Some(v@),
{
    if !starts_with_selector(data, sel) {
        return None;
    }
    let args = slice_subrange(data, 4, data.len());
    match abi_decode(params, args) {
        Ok(v) => Some(v),
        Err(_) => None,
    }
}

/// The standard revert string: `data` read as a single ABI `string`.
pub open spec fn spec_decode_string(data: Seq<u8>) -> Option<String> {
    match abi_decoded(STRING_PARAMS@, data) {
        Ok(vals) => if vals.len() == 1 {
            string_value(vals[0])
        } else {
            None
        },
        Err(_) => None,
    }
}

/// The `Debug` text of the error with which `data` fails to read as a
/// single ABI `string`.
pub open spec fn string_decode_error(data: Seq<u8>) -> Seq<char> {
    match abi_decoded(STRING_PARAMS@, data) {
        Err(t) => t,
        Ok(_) => INVALID_DATA_TEXT@,
    }
}

/// Decodes `data` as a single ABI-encoded `string`, as
/// `<String as AbiDecode>::decode` does: the data carries no selector.
/// A failure is given by the `Debug` text of the decoder's error.
pub fn decode_string(data: &[u8]) -> (r: Result<String, String>)
    ensures
        r is Ok <==> spec_decode_string(data@) is Some,
        r matches Ok(s) ==> spec_decode_string(data@) == Some(s),
        r matches Err(t) ==> t@ == string_decode_error(data@),
{
    let mut vals = abi_decode(STRING_PARAMS, data)?;
    if vals.len() != 1 {
        return Err(invalid_data_text());
    }
    match take_string(pop_last(&mut vals)) {
        Some(s) => Ok(s),
        None => Err(invalid_data_text()),
    }
}

pub open spec fn spec_decode_failed_op(data: Seq<u8>) -> Option<FailedOp> {
    match selected_args(data, FAILED_OP_SELECTOR, FAILED_OP_PARAMS@) {
        Some(v) => failed_op_of(v),
        None => None,
    }
}

pub open spec fn spec_decode_execution_result(data: Seq<u8>) -> Option<ExecutionResult> {
    match selected_args(data, EXECUTION_RESULT_SELECTOR, EXECUTION_RESULT_PARAMS@) {
        Some(v) => execution_result_of(v),
        None => None,
    }
}

pub open spec fn spec_decode_sender_address_result(data: Seq<u8>) -> Option<SenderAddressResult> {
    match selected_args(data, SENDER_ADDRESS_RESULT_SELECTOR, ADDRESS_PARAMS@) {
        Some(v) => match single_address_of(v) {
            Some(a) => Some(SenderAddressResult { sender: a }),
            None => None,
        },
        None => None,
    }
}

pub open spec fn spec_decode_signature_validation_failed(data: Seq<u8>) -> Option<
    SignatureValidationFailed,
> {
    match selected_args(data, SIGNATURE_VALIDATION_FAILED_SELECTOR, ADDRESS_PARAMS@) {
        Some(v) => match single_address_of(v) {
            Some(a) => Some(SignatureValidationFailed { aggregator: a }),
            None => None,
        },
        None => None,
    }
}

pub open spec fn spec_decode_validation_result(data: Seq<u8>) -> Option<ValidationResult> {
    match selected_args(data, VALIDATION_RESULT_SELECTOR, VALIDATION_RESULT_PARAMS@) {
        Some(v) => validation_result_of(v),
        None => None,
    }
}

pub open spec fn spec_decode_validation_result_with_aggregation(data: Seq<u8>) -> Option<
    ValidationResultWithAggregation,
> {
    match selected_args(
        data,
        VALIDATION_RESULT_WITH_AGGREGATION_SELECTOR,
        VALIDATION_RESULT_WITH_AGGREGATION_PARAMS@,
    ) {
        Some(v) => validation_result_with_aggregation_of(v),
        None => None,
    }
}

/// What the revert data `data` decodes to: the standard revert string when
/// the data reads as one, else the first custom error whose selector starts
/// the data and whose parameters read.
pub open spec fn spec_decode_api_error(data: Seq<u8>) -> Option<EntryPointAPIErrors> {
    if spec_decode_string(data) is Some {
        Some(EntryPointAPIErrors::RevertString(spec_decode_string(data).unwrap()))
    } else if spec_decode_execution_result(data) is Some {
        Some(EntryPointAPIErrors::ExecutionResult(spec_decode_execution_result(data).unwrap()))
    } else if spec_decode_failed_op(data) is Some {
        Some(EntryPointAPIErrors::FailedOp(spec_decode_failed_op(data).unwrap()))
    } else if spec_decode_sender_address_result(data) is Some {
        Some(
            EntryPointAPIErrors::SenderAddressResult(
                spec_decode_sender_address_result(data).unwrap(),
            ),
        )
    } else if spec_decode_signature_validation_failed(data) is Some {
        Some(
            EntryPointAPIErrors::SignatureValidationFailed(
                spec_decode_signature_validation_failed(data).unwrap(),
            ),
        )
    } else if spec_decode_validation_result(data) is Some {
        Some(EntryPointAPIErrors::ValidationResult(spec_decode_validation_result(data).unwrap()))
    } else if spec_decode_validation_result_with_aggregation(data) is Some {
        Some(
            EntryPointAPIErrors::ValidationResultWithAggregation(
                spec_decode_validation_result_with_aggregation(data).unwrap(),
            ),
        )
    } else {
        None
    }
}

impl EntryPointAPIErrors {
    /// Decodes revert data of the entry point contract. The data is first read
    /// as a bare ABI string (the revert string), then as each custom error in
    /// turn, each identified by its selector.
    pub fn decode(data: &[u8]) -> (r: Result<EntryPointAPIErrors, ethers::abi::AbiError>)
        ensures
            r is Ok <==> spec_decode_api_error(data@) is Some,
            r matches Ok(e) ==> spec_decode_api_error(data@) == Some(e),
    {
        if let Ok(s) = decode_string(data) {
            return Ok(EntryPointAPIErrors::RevertString(s));
        }
        if let Some(v) = decode_selected(data, EXECUTION_RESULT_SELECTOR, EXECUTION_RESULT_PARAMS) {
            if let Some(x) = execution_result_from(v) {
                return Ok(EntryPointAPIErrors::ExecutionResult(x));
            }
        }
        if let Some(v) = decode_selected(data, FAILED_OP_SELECTOR, FAILED_OP_PARAMS) {
            if let Some(x) = failed_op_from(v) {
                return Ok(EntryPointAPIErrors::FailedOp(x));
            }
        }
        if let Some(v) = decode_selected(data, SENDER_ADDRESS_RESULT_SELECTOR, ADDRESS_PARAMS) {
            if let Some(a) = single_address_from(v) {
                return Ok(EntryPointAPIErrors::SenderAddressResult(SenderAddressResult { sender: a }));
            }
        }
        if let Some(v) = decode_selected(data, SIGNATURE_VALIDATION_FAILED_SELECTOR, ADDRESS_PARAMS) {
            if let Some(a) = single_address_from(v) {
                return Ok(
                    EntryPointAPIErrors::SignatureValidationFailed(
                        SignatureValidationFailed { aggregator: a },
                    ),
                );
            }
        }
        if let Some(v) = decode_selected(data, VALIDATION_RESULT_SELECTOR, VALIDATION_RESULT_PARAMS) {
            if let Some(x) = validation_result_from(v) {
                return Ok(EntryPointAPIErrors::ValidationResult(x));
            }
        }
        if let Some(v) = decode_selected(
            data,
            VALIDATION_RESULT_WITH_AGGREGATION_SELECTOR,
            VALIDATION_RESULT_WITH_AGGREGATION_PARAMS,
        ) {
            if let Some(x) = validation_result_with_aggregation_from(v) {
                return Ok(EntryPointAPIErrors::ValidationResultWithAggregation(x));
            }
        }
        Err(invalid_data_error())
    }
}


// ---------------------------------------------------------------------------
// Laws of decoding

/// Data that starts with a selector starts with no other selector, and its
/// parameters are what follows.
proof fn lemma_selected(sel: [u8; 4], args: Seq<u8>)
    ensures
        forall|o: [u8; 4]| #[trigger] has_selector(sel@ + args, o) <==> o@ == sel@,
        args_of(sel@ + args) == args,
{
    let data = sel@ + args;
    assert(data.subrange(0, 4) =~= sel@);
    assert(args_of(data) =~= args);
}

/// The selectors as byte sequences, told apart by their first byte.
proof fn lemma_selector_bytes()
    ensures
        EXECUTION_RESULT_SELECTOR@[0] == 0x8b,
        FAILED_OP_SELECTOR@[0] == 0x22,
        SENDER_ADDRESS_RESULT_SELECTOR@[0] == 0x6c,
        SIGNATURE_VALIDATION_FAILED_SELECTOR@[0] == 0x86,
        VALIDATION_RESULT_SELECTOR@[0] == 0xe0,
        VALIDATION_RESULT_WITH_AGGREGATION_SELECTOR@[0] == 0xfa,
{
}

/// A `FailedOp` revert decodes to the operation index and the reason that
/// its parameters hold, unchanged.
pub proof fn lemma_failed_op_decodes(args: Seq<u8>, op_index: U256, reason: String)
    requires
        abi_decoded(FAILED_OP_PARAMS@, args) matches Ok(vals) && vals == seq![
            AbiValue::Uint(op_index),
            AbiValue::Str(reason),
        ],
        spec_decode_string(FAILED_OP_SELECTOR@ + args) is None,
    ensures
        spec_decode_api_error(FAILED_OP_SELECTOR@ + args) == Some(
            EntryPointAPIErrors::FailedOp(FailedOp { op_index, reason }),
        ),
{
    lemma_selected(FAILED_OP_SELECTOR, args);
    lemma_selector_bytes();
    let data = FAILED_OP_SELECTOR@ + args;
    assert(!has_selector(data, EXECUTION_RESULT_SELECTOR));
}

/// An `ExecutionResult` revert decodes to the gas, the payment, the validity
/// window, whether the target call succeeded and what it returned, each as
/// its parameter holds it (the `uint48` fields by their low 64 bits).
pub proof fn lemma_execution_result_decodes(
    args: Seq<u8>,
    pre_op_gas: U256,
    paid: U256,
    valid_after: U256,
    valid_until: U256,
    target_success: bool,
    target_result: Vec<u8>,
)
    requires
        abi_decoded(EXECUTION_RESULT_PARAMS@, args) matches Ok(vals) && vals == seq![
            AbiValue::Uint(pre_op_gas),
            AbiValue::Uint(paid),
            AbiValue::Uint(valid_after),
            AbiValue::Uint(valid_until),
            AbiValue::Bool(target_success),
            AbiValue::Bytes(target_result),
        ],
        spec_decode_string(EXECUTION_RESULT_SELECTOR@ + args) is None,
    ensures
        spec_decode_api_error(EXECUTION_RESULT_SELECTOR@ + args) == Some(
            EntryPointAPIErrors::ExecutionResult(
                ExecutionResult {
                    pre_op_gas,
                    paid,
                    valid_after: valid_after@[0],
                    valid_until: valid_until@[0],
                    target_success,
                    target_result,
                },
            ),
        ),
{
    lemma_selected(EXECUTION_RESULT_SELECTOR, args);
}

/// A `SenderAddressResult` revert decodes to the address its parameter
/// holds, byte for byte.
pub proof fn lemma_sender_address_decodes(args: Seq<u8>, sender: Address)
    requires
        abi_decoded(ADDRESS_PARAMS@, args) matches Ok(vals) && vals == seq![
            AbiValue::Address(sender),
        ],
        spec_decode_string(SENDER_ADDRESS_RESULT_SELECTOR@ + args) is None,
    ensures
        spec_decode_api_error(SENDER_ADDRESS_RESULT_SELECTOR@ + args) == Some(
            EntryPointAPIErrors::SenderAddressResult(SenderAddressResult { sender }),
        ),
{
    lemma_selected(SENDER_ADDRESS_RESULT_SELECTOR, args);
    lemma_selector_bytes();
    let data = SENDER_ADDRESS_RESULT_SELECTOR@ + args;
    assert(!has_selector(data, EXECUTION_RESULT_SELECTOR));
    assert(!has_selector(data, FAILED_OP_SELECTOR));
}

/// A `SignatureValidationFailed` revert decodes to the aggregator address its
/// parameter holds, byte for byte.
pub proof fn lemma_signature_validation_failed_decodes(args: Seq<u8>, aggregator: Address)
    requires
        abi_decoded(ADDRESS_PARAMS@, args) matches Ok(vals) && vals == seq![
            AbiValue::Address(aggregator),
        ],
        spec_decode_string(SIGNATURE_VALIDATION_FAILED_SELECTOR@ + args) is None,
    ensures
        spec_decode_api_error(SIGNATURE_VALIDATION_FAILED_SELECTOR@ + args) == Some(
            EntryPointAPIErrors::SignatureValidationFailed(SignatureValidationFailed { aggregator }),
        ),
{
    lemma_selected(SIGNATURE_VALIDATION_FAILED_SELECTOR, args);
    lemma_selector_bytes();
    let data = SIGNATURE_VALIDATION_FAILED_SELECTOR@ + args;
    assert(!has_selector(data, EXECUTION_RESULT_SELECTOR));
    assert(!has_selector(data, FAILED_OP_SELECTOR));
    assert(!has_selector(data, SENDER_ADDRESS_RESULT_SELECTOR));
}

/// Data that reads as a single ABI string is the revert string: it decodes
/// to that string, whatever else it might read as.
pub proof fn lemma_revert_string_decodes(data: Seq<u8>, s: String)
    requires
        abi_decoded(STRING_PARAMS@, data) == Ok::<Seq<AbiValue>, Seq<char>>(seq![AbiValue::Str(s)]),
    ensures
        spec_decode_api_error(data) == Some(EntryPointAPIErrors::RevertString(s)),
{
}

/// `t` holds a stake and an unstake delay.
pub open spec fn is_stake_tuple(t: Vec<AbiValue>, stake: U256, delay: U256) -> bool {
    t@ == seq![AbiValue::Uint(stake), AbiValue::Uint(delay)]
}

/// `t` holds the return information of a validation: gas, prefund, whether
/// the signature failed, the validity window and the paymaster context.
pub open spec fn is_return_tuple(
    t: Vec<AbiValue>,
    pre_op_gas: U256,
    prefund: U256,
    sig_failed: bool,
    valid_after: U256,
    valid_until: U256,
    paymaster_context: Vec<u8>,
) -> bool {
    t@ == seq![
        AbiValue::Uint(pre_op_gas),
        AbiValue::Uint(prefund),
        AbiValue::Bool(sig_failed),
        AbiValue::Uint(valid_after),
        AbiValue::Uint(valid_until),
        AbiValue::Bytes(paymaster_context),
    ]
}

/// A `ValidationResult` revert decodes to the return information and the
/// three stakes its parameters hold; in particular whether the signature
/// failed is the decoded flag, unchanged.
pub proof fn lemma_validation_result_decodes(
    args: Seq<u8>,
    ret: Vec<AbiValue>,
    sender: Vec<AbiValue>,
    factory: Vec<AbiValue>,
    paymaster: Vec<AbiValue>,
    pre_op_gas: U256,
    prefund: U256,
    sig_failed: bool,
    valid_after: U256,
    valid_until: U256,
    paymaster_context: Vec<u8>,
    stakes: [U256; 6],
)
    requires
        abi_decoded(VALIDATION_RESULT_PARAMS@, args) matches Ok(vals) && vals == seq![
            AbiValue::Tuple(ret),
            AbiValue::Tuple(sender),
            AbiValue::Tuple(factory),
            AbiValue::Tuple(paymaster),
        ],
        is_return_tuple(ret, pre_op_gas, prefund, sig_failed, valid_after, valid_until, paymaster_context),
        is_stake_tuple(sender, stakes[0], stakes[1]),
        is_stake_tuple(factory, stakes[2], stakes[3]),
        is_stake_tuple(paymaster, stakes[4], stakes[5]),
        spec_decode_string(VALIDATION_RESULT_SELECTOR@ + args) is None,
    ensures
        spec_decode_api_error(VALIDATION_RESULT_SELECTOR@ + args) == Some(
            EntryPointAPIErrors::ValidationResult(
                ValidationResult {
                    return_info: ReturnInfo {
                        pre_op_gas,
                        prefund,
                        sig_failed,
                        valid_after: valid_after@[0],
                        valid_until: valid_until@[0],
                        paymaster_context,
                    },
                    sender_info: StakeInfo { stake: stakes[0], unstake_delay_sec: stakes[1] },
                    factory_info: StakeInfo { stake: stakes[2], unstake_delay_sec: stakes[3] },
                    paymaster_info: StakeInfo { stake: stakes[4], unstake_delay_sec: stakes[5] },
                },
            ),
        ),
{
    lemma_selected(VALIDATION_RESULT_SELECTOR, args);
    lemma_selector_bytes();
    let data = VALIDATION_RESULT_SELECTOR@ + args;
    assert(!has_selector(data, EXECUTION_RESULT_SELECTOR));
    assert(!has_selector(data, FAILED_OP_SELECTOR));
    assert(!has_selector(data, SENDER_ADDRESS_RESULT_SELECTOR));
    assert(!has_selector(data, SIGNATURE_VALIDATION_FAILED_SELECTOR));
}

/// A `ValidationResultWithAggregation` revert decodes to the return
/// information, the three stakes and the aggregator with its stake, as its
/// parameters hold them.
pub proof fn lemma_validation_result_with_aggregation_decodes(
    args: Seq<u8>,
    ret: Vec<AbiValue>,
    sender: Vec<AbiValue>,
    factory: Vec<AbiValue>,
    paymaster: Vec<AbiValue>,
    aggregator_info: Vec<AbiValue>,
    aggregator_stake: Vec<AbiValue>,
    pre_op_gas: U256,
    prefund: U256,
    sig_failed: bool,
    valid_after: U256,
    valid_until: U256,
    paymaster_context: Vec<u8>,
    stakes: [U256; 8],
    aggregator: Address,
)
    requires
        abi_decoded(VALIDATION_RESULT_WITH_AGGREGATION_PARAMS@, args) matches Ok(vals) && vals
            == seq![
            AbiValue::Tuple(ret),
            AbiValue::Tuple(sender),
            AbiValue::Tuple(factory),
            AbiValue::Tuple(paymaster),
            AbiValue::Tuple(aggregator_info),
        ],
        is_return_tuple(ret, pre_op_gas, prefund, sig_failed, valid_after, valid_until, paymaster_context),
        is_stake_tuple(sender, stakes[0], stakes[1]),
        is_stake_tuple(factory, stakes[2], stakes[3]),
        is_stake_tuple(paymaster, stakes[4], stakes[5]),
        aggregator_info@ == seq![AbiValue::Address(aggregator), AbiValue::Tuple(aggregator_stake)],
        is_stake_tuple(aggregator_stake, stakes[6], stakes[7]),
        spec_decode_string(VALIDATION_RESULT_WITH_AGGREGATION_SELECTOR@ + args) is None,
    ensures
        spec_decode_api_error(VALIDATION_RESULT_WITH_AGGREGATION_SELECTOR@ + args) == Some(
            EntryPointAPIErrors::ValidationResultWithAggregation(
                ValidationResultWithAggregation {
                    return_info: ReturnInfo {
                        pre_op_gas,
                        prefund,
                        sig_failed,
                        valid_after: valid_after@[0],
                        valid_until: valid_until@[0],
                        paymaster_context,
                    },
                    sender_info: StakeInfo { stake: stakes[0], unstake_delay_sec: stakes[1] },
                    factory_info: StakeInfo { stake: stakes[2], unstake_delay_sec: stakes[3] },
                    paymaster_info: StakeInfo { stake: stakes[4], unstake_delay_sec: stakes[5] },
                    aggregator_info: AggregatorStakeInfo {
                        aggregator,
                        stake_info: StakeInfo { stake: stakes[6], unstake_delay_sec: stakes[7] },
                    },
                },
            ),
        ),
{
    lemma_selected(VALIDATION_RESULT_WITH_AGGREGATION_SELECTOR, args);
    lemma_selector_bytes();
    let data = VALIDATION_RESULT_WITH_AGGREGATION_SELECTOR@ + args;
    assert(!has_selector(data, EXECUTION_RESULT_SELECTOR));
    assert(!has_selector(data, FAILED_OP_SELECTOR));
    assert(!has_selector(data, SENDER_ADDRESS_RESULT_SELECTOR));
    assert(!has_selector(data, SIGNATURE_VALIDATION_FAILED_SELECTOR));
    assert(!has_selector(data, VALIDATION_RESULT_SELECTOR));
}

} // verus!
