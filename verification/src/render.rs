//! The `Debug` text of decoded contract errors, as the generated contract
//! bindings write it with ethers' types.

use crate::api_errors::{
    AggregatorStakeInfo, EntryPointAPIErrors, ExecutionResult, FailedOp, ReturnInfo,
    SenderAddressResult, SignatureValidationFailed, StakeInfo, ValidationResult,
    ValidationResultWithAggregation,
};
use crate::text::{debug_quoted, quote_debug};
use vstd::prelude::*;

verus! {

/// The decimal digit `d`.
pub open spec fn digit(d: nat) -> char {
    (48 + d) as char
}

/// The decimal text of `n`.
pub open spec fn decimal(n: nat) -> Seq<char>
    decreases n,
{
    if n < 10 {
        seq![digit(n)]
    } else {
        decimal(n / 10) + seq![digit(n % 10)]
    }
}

fn digit_text(d: u64) -> (r: &'static str)
    requires
        d < 10,
    ensures
        r@ == seq![digit(d as nat)],
{
    proof {
        reveal_strlit("0");
        reveal_strlit("1");
        reveal_strlit("2");
        reveal_strlit("3");
        reveal_strlit("4");
        reveal_strlit("5");
        reveal_strlit("6");
        reveal_strlit("7");
        reveal_strlit("8");
        reveal_strlit("9");
    }
    match d {
        0 => "0",
        1 => "1",
        2 => "2",
        3 => "3",
        4 => "4",
        5 => "5",
        6 => "6",
        7 => "7",
        8 => "8",
        _ => "9",
    }
}

/// The decimal text of `n`.
pub fn decimal_text(n: u64) -> (r: String)
    ensures
        r@ == decimal(n as nat),
    decreases n,
{
    if n < 10 {
        digit_text(n).to_owned()
    } else {
        let mut r = decimal_text(n / 10);
        r.append(digit_text(n % 10));
        r
    }
}

/// The lower-case hex digit of `d`.
pub open spec fn hex_digit(d: nat) -> char {
    if d < 10 {
        (48 + d) as char
    } else {
        (87 + d) as char
    }
}

/// The bytes in lower-case hex, two digits a byte.
pub open spec fn hex_text(b: Seq<u8>) -> Seq<char>
    decreases b.len(),
{
    if b.len() == 0 {
        Seq::empty()
    } else {
        hex_text(b.drop_last()) + seq![hex_digit((b.last() / 16) as nat), hex_digit((b.last() % 16) as nat)]
    }
}

fn hex_digit_text(d: u8) -> (r: &'static str)
    requires
        d < 16,
    ensures
        r@ == seq![hex_digit(d as nat)],
{
    proof {
        reveal_strlit("0");
        reveal_strlit("1");
        reveal_strlit("2");
        reveal_strlit("3");
        reveal_strlit("4");
        reveal_strlit("5");
        reveal_strlit("6");
        reveal_strlit("7");
        reveal_strlit("8");
        reveal_strlit("9");
        reveal_strlit("a");
        reveal_strlit("b");
        reveal_strlit("c");
        reveal_strlit("d");
        reveal_strlit("e");
        reveal_strlit("f");
    }
    match d {
        0 => "0",
        1 => "1",
        2 => "2",
        3 => "3",
        4 => "4",
        5 => "5",
        6 => "6",
        7 => "7",
        8 => "8",
        9 => "9",
        10 => "a",
        11 => "b",
        12 => "c",
        13 => "d",
        14 => "e",
        _ => "f",
    }
}

/// The bytes in lower-case hex.
pub fn hex_of(b: &[u8]) -> (r: String)
    ensures
        r@ == hex_text(b@),
{
    let mut acc = String::new();
    assert(b@.take(0) =~= Seq::<u8>::empty());
    for i in 0..b.len()
        invariant
            acc@ == hex_text(b@.take(i as int)),
    {
        assert(b@.take(i + 1).drop_last() =~= b@.take(i as int));
        assert(b@.take(i + 1).last() == b@[i as int]);
        acc.append(hex_digit_text(b[i] / 16));
        acc.append(hex_digit_text(b[i] % 16));
    }
    assert(b@.take(b@.len() as int) =~= b@);
    acc
}

/// The number that four 64-bit limbs stand for, least significant first.
pub open spec fn u256_value(w: Seq<u64>) -> nat {
    (w[0] + w[1] * 0x1_0000_0000_0000_0000nat + w[2] * 0x1_0000_0000_0000_0000_0000_0000_0000_0000nat
        + w[3] * 0x1_0000_0000_0000_0000_0000_0000_0000_0000_0000_0000_0000_0000nat) as nat
}

/// Writes the 256-bit number with `Display` of ethers' `U256` (the limbs as
/// `U256(limbs)`), which its `Debug` also uses. Claimed, as the crate
/// documents: the decimal digits of the number.
#[verifier::external_body]
fn u256_decimal(w: &[u64; 4]) -> (r: String)
    ensures
        r@ == decimal(u256_value(w@)),
{
    ethers::types::U256(*w).to_string()
}

pub open spec fn bool_text(b: bool) -> Seq<char> {
    if b {
        "true"@
    } else {
        "false"@
    }
}

fn bool_debug(b: bool) -> (r: &'static str)
    ensures
        r@ == bool_text(b),
{
    if b {
        "true"
    } else {
        "false"
    }
}

/// A 256-bit number as ethers' `U256` writes it: in decimal.
pub open spec fn word_text(w: [u64; 4]) -> Seq<char> {
    decimal(u256_value(w@))
}

/// An address as ethers' `Address` writes it: `0x` and lower-case hex.
pub open spec fn address_text(a: [u8; 20]) -> Seq<char> {
    "0x"@ + hex_text(a@)
}

/// A byte string as ethers' `Bytes` writes it.
pub open spec fn bytes_field_text(b: Seq<u8>) -> Seq<char> {
    "Bytes(0x"@ + hex_text(b) + ")"@
}

fn address_debug(a: &[u8; 20]) -> (r: String)
    ensures
        r@ == address_text(*a),
{
    let mut r = "0x".to_owned();
    r.append(hex_of(a).as_str());
    r
}

fn bytes_field_debug(b: &[u8]) -> (r: String)
    ensures
        r@ == bytes_field_text(b@),
{
    let mut r = "Bytes(0x".to_owned();
    r.append(hex_of(b).as_str());
    r.append(")");
    r
}

pub open spec fn failed_op_text(f: FailedOp) -> Seq<char> {
    "FailedOp { op_index: "@ + word_text(f.op_index) + ", reason: "@ + debug_quoted(f.reason@)
        + " }"@
}

fn failed_op_debug(f: &FailedOp) -> (r: String)
    ensures
        r@ == failed_op_text(*f),
{
    let mut r = "FailedOp { op_index: ".to_owned();
    r.append(u256_decimal(&f.op_index).as_str());
    r.append(", reason: ");
    r.append(quote_debug(f.reason.as_str()).as_str());
    r.append(" }");
    r
}

pub open spec fn execution_result_text(e: ExecutionResult) -> Seq<char> {
    "ExecutionResult { pre_op_gas: "@ + word_text(e.pre_op_gas) + ", paid: "@ + word_text(e.paid)
        + ", valid_after: "@ + decimal(e.valid_after as nat) + ", valid_until: "@ + decimal(
        e.valid_until as nat,
    ) + ", target_success: "@ + bool_text(e.target_success) + ", target_result: "@ + bytes_field_text(e.target_result@) + " }"@
}

fn execution_result_debug(e: &ExecutionResult) -> (r: String)
    ensures
        r@ == execution_result_text(*e),
{
    let mut r = "ExecutionResult { pre_op_gas: ".to_owned();
    r.append(u256_decimal(&e.pre_op_gas).as_str());
    r.append(", paid: ");
    r.append(u256_decimal(&e.paid).as_str());
    r.append(", valid_after: ");
    r.append(decimal_text(e.valid_after).as_str());
    r.append(", valid_until: ");
    r.append(decimal_text(e.valid_until).as_str());
    r.append(", target_success: ");
    r.append(bool_debug(e.target_success));
    r.append(", target_result: ");
    r.append(bytes_field_debug(e.target_result.as_slice()).as_str());
    r.append(" }");
    r
}

pub open spec fn sender_address_result_text(s: SenderAddressResult) -> Seq<char> {
    "SenderAddressResult { sender: "@ + address_text(s.sender) + " }"@
}

fn sender_address_result_debug(s: &SenderAddressResult) -> (r: String)
    ensures
        r@ == sender_address_result_text(*s),
{
    let mut r = "SenderAddressResult { sender: ".to_owned();
    r.append(address_debug(&s.sender).as_str());
    r.append(" }");
    r
}

pub open spec fn signature_validation_failed_text(s: SignatureValidationFailed) -> Seq<char> {
    "SignatureValidationFailed { aggregator: "@ + address_text(s.aggregator) + " }"@
}

fn signature_validation_failed_debug(s: &SignatureValidationFailed) -> (r: String)
    ensures
        r@ == signature_validation_failed_text(*s),
{
    let mut r = "SignatureValidationFailed { aggregator: ".to_owned();
    r.append(address_debug(&s.aggregator).as_str());
    r.append(" }");
    r
}

pub open spec fn return_info_text(i: ReturnInfo) -> Seq<char> {
    "ReturnInfo { pre_op_gas: "@ + word_text(i.pre_op_gas) + ", prefund: "@ + word_text(i.prefund)
        + ", sig_failed: "@ + bool_text(i.sig_failed) + ", valid_after: "@ + decimal(
        i.valid_after as nat,
    ) + ", valid_until: "@ + decimal(i.valid_until as nat) + ", paymaster_context: "@ + bytes_field_text(i.paymaster_context@) + " }"@
}

fn return_info_debug(i: &ReturnInfo) -> (r: String)
    ensures
        r@ == return_info_text(*i),
{
    let mut r = "ReturnInfo { pre_op_gas: ".to_owned();
    r.append(u256_decimal(&i.pre_op_gas).as_str());
    r.append(", prefund: ");
    r.append(u256_decimal(&i.prefund).as_str());
    r.append(", sig_failed: ");
    r.append(bool_debug(i.sig_failed));
    r.append(", valid_after: ");
    r.append(decimal_text(i.valid_after).as_str());
    r.append(", valid_until: ");
    r.append(decimal_text(i.valid_until).as_str());
    r.append(", paymaster_context: ");
    r.append(bytes_field_debug(i.paymaster_context.as_slice()).as_str());
    r.append(" }");
    r
}

pub open spec fn stake_info_text(i: StakeInfo) -> Seq<char> {
    "StakeInfo { stake: "@ + word_text(i.stake) + ", unstake_delay_sec: "@ + word_text(
        i.unstake_delay_sec,
    ) + " }"@
}

fn stake_info_debug(i: &StakeInfo) -> (r: String)
    ensures
        r@ == stake_info_text(*i),
{
    let mut r = "StakeInfo { stake: ".to_owned();
    r.append(u256_decimal(&i.stake).as_str());
    r.append(", unstake_delay_sec: ");
    r.append(u256_decimal(&i.unstake_delay_sec).as_str());
    r.append(" }");
    r
}

pub open spec fn aggregator_stake_info_text(i: AggregatorStakeInfo) -> Seq<char> {
    "AggregatorStakeInfo { aggregator: "@ + address_text(i.aggregator) + ", stake_info: "@
        + stake_info_text(i.stake_info) + " }"@
}

fn aggregator_stake_info_debug(i: &AggregatorStakeInfo) -> (r: String)
    ensures
        r@ == aggregator_stake_info_text(*i),
{
    let mut r = "AggregatorStakeInfo { aggregator: ".to_owned();
    r.append(address_debug(&i.aggregator).as_str());
    r.append(", stake_info: ");
    r.append(stake_info_debug(&i.stake_info).as_str());
    r.append(" }");
    r
}

pub open spec fn validation_result_text(v: ValidationResult) -> Seq<char> {
    "ValidationResult { return_info: "@ + return_info_text(v.return_info) + ", sender_info: "@
        + stake_info_text(v.sender_info) + ", factory_info: "@ + stake_info_text(v.factory_info)
        + ", paymaster_info: "@ + stake_info_text(v.paymaster_info) + " }"@
}

fn validation_result_debug(v: &ValidationResult) -> (r: String)
    ensures
        r@ == validation_result_text(*v),
{
    let mut r = "ValidationResult { return_info: ".to_owned();
    r.append(return_info_debug(&v.return_info).as_str());
    r.append(", sender_info: ");
    r.append(stake_info_debug(&v.sender_info).as_str());
    r.append(", factory_info: ");
    r.append(stake_info_debug(&v.factory_info).as_str());
    r.append(", paymaster_info: ");
    r.append(stake_info_debug(&v.paymaster_info).as_str());
    r.append(" }");
    r
}

pub open spec fn validation_result_with_aggregation_text(v: ValidationResultWithAggregation) -> Seq<
    char,
> {
    "ValidationResultWithAggregation { return_info: "@ + return_info_text(v.return_info)
        + ", sender_info: "@ + stake_info_text(v.sender_info) + ", factory_info: "@
        + stake_info_text(v.factory_info) + ", paymaster_info: "@ + stake_info_text(
        v.paymaster_info,
    ) + ", aggregator_info: "@ + aggregator_stake_info_text(v.aggregator_info) + " }"@
}

fn validation_result_with_aggregation_debug(v: &ValidationResultWithAggregation) -> (r: String)
    ensures
        r@ == validation_result_with_aggregation_text(*v),
{
    let mut r = "ValidationResultWithAggregation { return_info: ".to_owned();
    r.append(return_info_debug(&v.return_info).as_str());
    r.append(", sender_info: ");
    r.append(stake_info_debug(&v.sender_info).as_str());
    r.append(", factory_info: ");
    r.append(stake_info_debug(&v.factory_info).as_str());
    r.append(", paymaster_info: ");
    r.append(stake_info_debug(&v.paymaster_info).as_str());
    r.append(", aggregator_info: ");
    r.append(aggregator_stake_info_debug(&v.aggregator_info).as_str());
    r.append(" }");
    r
}

/// The `Debug` text of a decoded contract error.
pub open spec fn api_error_text(e: EntryPointAPIErrors) -> Seq<char> {
    match e {
        EntryPointAPIErrors::ExecutionResult(x) => "ExecutionResult("@ + execution_result_text(x)
            + ")"@,
        EntryPointAPIErrors::FailedOp(x) => "FailedOp("@ + failed_op_text(x) + ")"@,
        EntryPointAPIErrors::SenderAddressResult(x) => "SenderAddressResult("@
            + sender_address_result_text(x) + ")"@,
        EntryPointAPIErrors::SignatureValidationFailed(x) => "SignatureValidationFailed("@
            + signature_validation_failed_text(x) + ")"@,
        EntryPointAPIErrors::ValidationResult(x) => "ValidationResult("@ + validation_result_text(x)
            + ")"@,
        EntryPointAPIErrors::ValidationResultWithAggregation(x) => "ValidationResultWithAggregation("@
            + validation_result_with_aggregation_text(x) + ")"@,
        EntryPointAPIErrors::RevertString(s) => "RevertString("@ + debug_quoted(s@) + ")"@,
    }
}

impl EntryPointAPIErrors {
    /// The text that `derive(Debug)` writes for the error.
    pub fn debug_text(&self) -> (r: String)
        ensures
            r@ == api_error_text(*self),
    {
        let (name, inner) = match self {
            EntryPointAPIErrors::ExecutionResult(x) => ("ExecutionResult(", execution_result_debug(x)),
            EntryPointAPIErrors::FailedOp(x) => ("FailedOp(", failed_op_debug(x)),
            EntryPointAPIErrors::SenderAddressResult(x) => (
                "SenderAddressResult(",
                sender_address_result_debug(x),
            ),
            EntryPointAPIErrors::SignatureValidationFailed(x) => (
                "SignatureValidationFailed(",
                signature_validation_failed_debug(x),
            ),
            EntryPointAPIErrors::ValidationResult(x) => ("ValidationResult(", validation_result_debug(x)),
            EntryPointAPIErrors::ValidationResultWithAggregation(x) => (
                "ValidationResultWithAggregation(",
                validation_result_with_aggregation_debug(x),
            ),
            EntryPointAPIErrors::RevertString(s) => ("RevertString(", quote_debug(s.as_str())),
        };
        let mut r = name.to_owned();
        r.append(inner.as_str());
        r.append(")");
        r
    }
}

} // verus!
