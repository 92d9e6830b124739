use ethers::abi::Token;
use ethers::types::{Bytes, U256};
use silius::api_errors::{
    EntryPointAPIErrors, EXECUTION_RESULT_SELECTOR, FAILED_OP_SELECTOR,
    SENDER_ADDRESS_RESULT_SELECTOR, VALIDATION_RESULT_SELECTOR,
    VALIDATION_RESULT_WITH_AGGREGATION_SELECTOR,
};
use silius::entry_point::{
    balance_of, checked_simulate_validation_trace, get_deposit_info, get_nonce,
    get_sender_address, handle_ops, simulate_handle_op, simulate_validation,
    simulate_validation_trace, SimulateValidationResult,
};
use silius::error::EntryPointErr;
use silius::revert::decode_revert_error;
use silius::rpc::{
    contract_failure_is_ok, deserialize_error_msg, from_json_rpc_error, from_middleware_err,
    from_provider_err, response_is_ok, ContractFailure, ContractFailureKind, MiddlewareFailure,
    ProviderFailure, RpcErrorData, RpcErrorResponse,
};
use std::str::FromStr;

const AA94_STRING: &str = "0x0000000000000000000000000000000000000000000000000000000000000020000000000000000000000000000000000000000000000000000000000000001841413934206761732076616c756573206f766572666c6f770000000000000000";
const AA94_REVERT: &str = "0x08c379a00000000000000000000000000000000000000000000000000000000000000020000000000000000000000000000000000000000000000000000000000000001841413934206761732076616c756573206f766572666c6f770000000000000000";
const AA40_FAILED_OP: &str = "0x220266b600000000000000000000000000000000000000000000000000000000000000000000000000000000000000000000000000000000000000000000000000000040000000000000000000000000000000000000000000000000000000000000001e41413430206f76657220766572696669636174696f6e4761734c696d69740000";

fn bytes(hex: &str) -> Vec<u8> {
    Bytes::from_str(hex).unwrap().to_vec()
}

fn with_selector(sel: [u8; 4], tokens: &[Token]) -> Vec<u8> {
    let mut v = sel.to_vec();
    v.extend(ethers::abi::encode(tokens));
    v
}

fn uint(n: u64) -> Token {
    Token::Uint(U256::from(n))
}

fn stake(a: u64, b: u64) -> Token {
    Token::Tuple(vec![uint(a), uint(b)])
}

fn return_info() -> Token {
    Token::Tuple(vec![uint(100), uint(200), Token::Bool(false), uint(5), uint(6), Token::Bytes(vec![7, 8])])
}

fn validation_result_data() -> Vec<u8> {
    with_selector(VALIDATION_RESULT_SELECTOR, &[return_info(), stake(1, 2), stake(3, 4), stake(5, 6)])
}

fn revert(data: Vec<u8>) -> ContractFailure {
    ContractFailure { kind: ContractFailureKind::Revert(data), debug: "Revert".to_string() }
}

fn response(data: Option<RpcErrorData>) -> RpcErrorResponse {
    RpcErrorResponse { code: 3, message: "execution reverted".to_string(), data, debug: "JsonRpcError".to_string() }
}

#[test]
fn decode_validation_result() {
    match EntryPointAPIErrors::decode(&validation_result_data()).unwrap() {
        EntryPointAPIErrors::ValidationResult(v) => {
            assert_eq!(v.return_info.pre_op_gas, [100, 0, 0, 0]);
            assert_eq!(v.return_info.prefund, [200, 0, 0, 0]);
            assert!(!v.return_info.sig_failed);
            assert_eq!(v.return_info.valid_after, 5);
            assert_eq!(v.return_info.valid_until, 6);
            assert_eq!(v.return_info.paymaster_context, vec![7, 8]);
            assert_eq!(v.sender_info.stake, [1, 0, 0, 0]);
            assert_eq!(v.factory_info.unstake_delay_sec, [4, 0, 0, 0]);
            assert_eq!(v.paymaster_info.stake, [5, 0, 0, 0]);
        }
        _ => panic!("not a validation result"),
    }
}

#[test]
fn decode_validation_result_with_aggregation() {
    let agg = Token::Tuple(vec![Token::Address([9u8; 20].into()), stake(10, 11)]);
    let data = with_selector(
        VALIDATION_RESULT_WITH_AGGREGATION_SELECTOR,
        &[return_info(), stake(1, 2), stake(3, 4), stake(5, 6), agg],
    );
    match EntryPointAPIErrors::decode(&data).unwrap() {
        EntryPointAPIErrors::ValidationResultWithAggregation(v) => {
            assert_eq!(v.aggregator_info.aggregator, [9u8; 20]);
            assert_eq!(v.aggregator_info.stake_info.unstake_delay_sec, [11, 0, 0, 0]);
        }
        _ => panic!("not a validation result with aggregation"),
    }
}

#[test]
fn decode_large_uint_limbs() {
    let big = U256::from_dec_str("340282366920938463463374607431768211457").unwrap(); // 2^128 + 1
    let data = with_selector(FAILED_OP_SELECTOR, &[Token::Uint(big), Token::String("x".into())]);
    match EntryPointAPIErrors::decode(&data).unwrap() {
        EntryPointAPIErrors::FailedOp(f) => assert_eq!(f.op_index, [1, 0, 1, 0]),
        _ => panic!("not a failed op"),
    }
}

#[test]
fn decode_unknown_selector_fails() {
    let data = with_selector([1, 2, 3, 4], &[uint(1)]);
    assert!(EntryPointAPIErrors::decode(&data).is_err());
}

#[test]
fn revert_string_with_selector_is_read() {
    match decode_revert_error(&bytes(AA94_REVERT)).unwrap() {
        EntryPointAPIErrors::RevertString(s) => assert_eq!(s, "AA94 gas values overflow"),
        _ => panic!("not a revert string"),
    }
}

#[test]
fn revert_without_error_fails_with_note() {
    match decode_revert_error(&[1, 2, 3, 4, 5]) {
        Err(EntryPointErr::DecodeErr(m)) => {
            assert!(m.ends_with(" data field could not be deserialize to EntryPointAPIErrors"))
        }
        _ => panic!("expected a decode error"),
    }
    match decode_revert_error(&[0x08, 0xc3, 0x79, 0xa0, 1]) {
        Err(EntryPointErr::DecodeErr(m)) => {
            assert!(m.ends_with(" data field could not be deserialize to revert error"))
        }
        _ => panic!("expected a decode error"),
    }
}

#[test]
fn json_rpc_error_with_hex_data() {
    let text = format!("execution reverted: {}", AA40_FAILED_OP);
    let resp = response(Some(RpcErrorData::Text(text)));
    assert!(response_is_ok(&resp));
    match from_json_rpc_error(&resp).unwrap() {
        EntryPointAPIErrors::FailedOp(f) => assert_eq!(f.reason, "AA40 over verificationGasLimit"),
        _ => panic!("not a failed op"),
    }
}

#[test]
fn json_rpc_error_takes_first_hex_literal() {
    let text = format!("first {} then 0x1234", AA94_STRING);
    match from_json_rpc_error(&response(Some(RpcErrorData::Text(text)))).unwrap() {
        EntryPointAPIErrors::RevertString(s) => assert_eq!(s, "AA94 gas values overflow"),
        _ => panic!("not a revert string"),
    }
}

#[test]
fn json_rpc_error_without_hex() {
    match from_json_rpc_error(&response(Some(RpcErrorData::Text("no data 0xzz".to_string())))) {
        Err(EntryPointErr::DecodeErr(m)) => assert_eq!(m, "Could not find hex string in \"no data 0xzz\""),
        _ => panic!("expected a decode error"),
    }
}

#[test]
fn json_rpc_error_with_odd_hex() {
    match from_json_rpc_error(&response(Some(RpcErrorData::Text("0x123".to_string())))) {
        Err(EntryPointErr::DecodeErr(m)) => assert_eq!(
            m,
            "Error string \"0x123\" could not be converted to bytes because ParseBytesError(OddLength)"
        ),
        _ => panic!("expected a decode error"),
    }
}

#[test]
fn json_rpc_error_with_undecodable_revert() {
    match from_json_rpc_error(&response(Some(RpcErrorData::Text("0x01020304".to_string())))) {
        Err(EntryPointErr::UnknownErr(m)) => {
            assert!(m.starts_with("Unknown middleware error: DecodeErr(\""));
            assert!(m.ends_with("could not be deserialize to EntryPointAPIErrors\")"));
        }
        _ => panic!("expected an unknown error"),
    }
}

#[test]
fn json_rpc_error_with_short_revert_is_refused() {
    let resp = response(Some(RpcErrorData::Text("0x0102".to_string())));
    assert!(!response_is_ok(&resp));
}

#[test]
fn json_rpc_error_with_other_data() {
    match from_json_rpc_error(&response(Some(RpcErrorData::Other("Number(3)".to_string())))) {
        Err(EntryPointErr::DecodeErr(m)) => assert_eq!(m, "Json rpc return data Number(3) is not string"),
        _ => panic!("expected a decode error"),
    }
}

#[test]
fn json_rpc_error_without_data() {
    match from_json_rpc_error(&response(None)) {
        Err(EntryPointErr::UnknownErr(m)) => {
            assert_eq!(m, "Json rpc error JsonRpcError doesn't contain data field.")
        }
        _ => panic!("expected an unknown error"),
    }
}

#[test]
fn provider_errors() {
    match from_provider_err(&ProviderFailure::Http { debug: "timeout".to_string() }) {
        Err(EntryPointErr::NetworkErr(m)) => assert_eq!(m, "Entry point HTTP error: timeout"),
        _ => panic!("expected a network error"),
    }
    match from_provider_err(&ProviderFailure::Other { debug: "UnsupportedRPC".to_string() }) {
        Err(EntryPointErr::UnknownErr(m)) => assert_eq!(m, "Unknown error in provider: UnsupportedRPC"),
        _ => panic!("expected an unknown error"),
    }
    match from_provider_err(&ProviderFailure::JsonRpcClient { response: None, debug: "io".to_string() }) {
        Err(EntryPointErr::UnknownErr(m)) => assert_eq!(m, "Unknown JSON-RPC client error: io"),
        _ => panic!("expected an unknown error"),
    }
    let resp = response(Some(RpcErrorData::Text(AA40_FAILED_OP.to_string())));
    assert!(matches!(
        from_provider_err(&ProviderFailure::JsonRpcClient { response: Some(resp), debug: String::new() }),
        Ok(EntryPointAPIErrors::FailedOp(_))
    ));
}

#[test]
fn middleware_prefers_response() {
    let mw = MiddlewareFailure {
        response: Some(response(Some(RpcErrorData::Text(AA40_FAILED_OP.to_string())))),
        provider: Some(ProviderFailure::Http { debug: "x".to_string() }),
        debug: "mw".to_string(),
    };
    assert!(matches!(from_middleware_err(&mw), Ok(EntryPointAPIErrors::FailedOp(_))));
    let mw = MiddlewareFailure {
        response: None,
        provider: Some(ProviderFailure::Http { debug: "x".to_string() }),
        debug: "mw".to_string(),
    };
    assert!(matches!(from_middleware_err(&mw), Err(EntryPointErr::NetworkErr(_))));
    let mw = MiddlewareFailure { response: None, provider: None, debug: "mw".to_string() };
    match from_middleware_err(&mw) {
        Err(EntryPointErr::UnknownErr(m)) => assert_eq!(m, "Unknown middleware error: mw"),
        _ => panic!("expected an unknown error"),
    }
}

#[test]
fn contract_failures() {
    let f = ContractFailure { kind: ContractFailureKind::Decoding { debug: "InvalidData".to_string() }, debug: String::new() };
    match deserialize_error_msg(&f) {
        Err(EntryPointErr::DecodeErr(m)) => assert_eq!(m, "Decoding error on msg: InvalidData"),
        _ => panic!("expected a decode error"),
    }
    let f = ContractFailure { kind: ContractFailureKind::Abi { debug: "WrongSelector".to_string() }, debug: String::new() };
    match deserialize_error_msg(&f) {
        Err(EntryPointErr::UnknownErr(m)) => assert_eq!(m, "Contract call with abi error: WrongSelector "),
        _ => panic!("expected an unknown error"),
    }
    let f = ContractFailure { kind: ContractFailureKind::Other, debug: "ContractNotDeployed".to_string() };
    match deserialize_error_msg(&f) {
        Err(EntryPointErr::UnknownErr(m)) => assert_eq!(m, "Unkown error: ContractNotDeployed"),
        _ => panic!("expected an unknown error"),
    }
    assert!(!contract_failure_is_ok(&revert(vec![1, 2])));
    assert!(matches!(deserialize_error_msg(&revert(bytes(AA40_FAILED_OP))), Ok(EntryPointAPIErrors::FailedOp(_))));
}

#[test]
fn simulate_validation_outcomes() {
    match simulate_validation(Ok(())) {
        Err(EntryPointErr::UnknownErr(m)) => assert_eq!(m, "Simulate validation should expect revert"),
        _ => panic!("expected an unknown error"),
    }
    assert!(matches!(
        simulate_validation(Err(revert(validation_result_data()))),
        Ok(SimulateValidationResult::ValidationResult(_))
    ));
    match simulate_validation(Err(revert(bytes(AA40_FAILED_OP)))) {
        Err(EntryPointErr::FailedOp(f)) => assert_eq!(f.reason, "AA40 over verificationGasLimit"),
        _ => panic!("expected a failed op"),
    }
    match simulate_validation(Err(revert(bytes(AA94_STRING)))) {
        Err(EntryPointErr::UnknownErr(m)) => {
            assert!(m.starts_with("Simulate validation with invalid error: RevertString("))
        }
        _ => panic!("expected an unknown error"),
    }
}

#[test]
fn handle_ops_outcomes() {
    assert!(handle_ops(Ok(())).is_ok());
    assert!(matches!(handle_ops(Err(revert(bytes(AA40_FAILED_OP)))), Err(EntryPointErr::FailedOp(_))));
    match handle_ops(Err(revert(bytes(AA94_STRING)))) {
        Err(EntryPointErr::UnknownErr(m)) => assert!(m.starts_with("Handle ops with invalid error: ")),
        _ => panic!("expected an unknown error"),
    }
}

#[test]
fn read_outcomes() {
    let failed = || ContractFailure { kind: ContractFailureKind::Other, debug: "boom".to_string() };
    assert_eq!(get_deposit_info(Ok::<u32, _>(7)).unwrap(), 7);
    match get_deposit_info::<u32>(Err(failed())) {
        Err(EntryPointErr::UnknownErr(m)) => assert_eq!(m, "Error calling get deposit info"),
        _ => panic!("expected an unknown error"),
    }
    match balance_of::<u32>(Err(failed())) {
        Err(EntryPointErr::UnknownErr(m)) => assert_eq!(m, "Error calling balance of"),
        _ => panic!("expected an unknown error"),
    }
    assert_eq!(balance_of(Ok::<u32, _>(3)).unwrap(), 3);
    match get_nonce::<u32>(Err(failed())) {
        Err(EntryPointErr::UnknownErr(m)) => assert_eq!(m, "Error getting nonce: boom"),
        _ => panic!("expected an unknown error"),
    }
    assert_eq!(get_nonce(Ok::<u32, _>(9)).unwrap(), 9);
}

#[test]
fn sender_address_outcomes() {
    let data = with_selector(SENDER_ADDRESS_RESULT_SELECTOR, &[Token::Address([7u8; 20].into())]);
    assert_eq!(get_sender_address(Err(revert(data))).unwrap().sender, [7u8; 20]);
    match get_sender_address(Ok(())) {
        Err(EntryPointErr::UnknownErr(m)) => assert_eq!(m, "Get sender address should expect revert"),
        _ => panic!("expected an unknown error"),
    }
}

#[test]
fn simulate_handle_op_outcomes() {
    let data = with_selector(
        EXECUTION_RESULT_SELECTOR,
        &[uint(1), uint(2), uint(3), uint(4), Token::Bool(true), Token::Bytes(vec![1])],
    );
    let r = simulate_handle_op(Err(revert(data))).unwrap();
    assert_eq!(r.paid, [2, 0, 0, 0]);
    assert_eq!(r.valid_until, 4);
    assert!(r.target_success);
    match simulate_handle_op(Ok(())) {
        Err(EntryPointErr::UnknownErr(m)) => assert_eq!(m, "Simulate handle op should expect revert"),
        _ => panic!("expected an unknown error"),
    }
    match simulate_handle_op(Err(revert(validation_result_data()))) {
        Err(EntryPointErr::UnknownErr(m)) => {
            assert!(m.starts_with("Simulate handle op with invalid error: ValidationResult("))
        }
        _ => panic!("expected an unknown error"),
    }
}

#[test]
fn trace_outcomes() {
    assert_eq!(simulate_validation_trace::<u8>(Ok(1)).unwrap(), 1);
    let mw = MiddlewareFailure { response: None, provider: None, debug: "mw".to_string() };
    assert!(matches!(simulate_validation_trace::<u8>(Err(mw)), Err(EntryPointErr::UnknownErr(_))));
    let mw = MiddlewareFailure {
        response: Some(response(Some(RpcErrorData::Text(AA40_FAILED_OP.to_string())))),
        provider: None,
        debug: "mw".to_string(),
    };
    assert!(checked_simulate_validation_trace::<u8>(Err(mw)).is_none());
}

#[test]
fn debug_text_writes_ethers_types() {
    let e = EntryPointAPIErrors::decode(&bytes(AA40_FAILED_OP)).unwrap();
    assert_eq!(
        e.debug_text(),
        "FailedOp(FailedOp { op_index: 0, reason: \"AA40 over verificationGasLimit\" })"
    );
    let big = U256::from_dec_str("340282366920938463463374607431768211457").unwrap();
    let data = with_selector(FAILED_OP_SELECTOR, &[Token::Uint(big), Token::String("x".into())]);
    assert_eq!(
        EntryPointAPIErrors::decode(&data).unwrap().debug_text(),
        "FailedOp(FailedOp { op_index: 340282366920938463463374607431768211457, reason: \"x\" })"
    );
    let data = with_selector(SENDER_ADDRESS_RESULT_SELECTOR, &[Token::Address([0xabu8; 20].into())]);
    assert_eq!(
        EntryPointAPIErrors::decode(&data).unwrap().debug_text(),
        format!("SenderAddressResult(SenderAddressResult {{ sender: 0x{} }})", "ab".repeat(20))
    );
    let data = with_selector(
        EXECUTION_RESULT_SELECTOR,
        &[uint(1), uint(2), uint(3), uint(4), Token::Bool(true), Token::Bytes(vec![0x0f, 0xa0])],
    );
    assert_eq!(
        EntryPointAPIErrors::decode(&data).unwrap().debug_text(),
        "ExecutionResult(ExecutionResult { pre_op_gas: 1, paid: 2, valid_after: 3, valid_until: 4, target_success: true, target_result: Bytes(0x0fa0) })"
    );
    assert_eq!(
        EntryPointAPIErrors::decode(&validation_result_data()).unwrap().debug_text(),
        "ValidationResult(ValidationResult { return_info: ReturnInfo { pre_op_gas: 100, prefund: 200, sig_failed: false, valid_after: 5, valid_until: 6, paymaster_context: Bytes(0x0708) }, sender_info: StakeInfo { stake: 1, unstake_delay_sec: 2 }, factory_info: StakeInfo { stake: 3, unstake_delay_sec: 4 }, paymaster_info: StakeInfo { stake: 5, unstake_delay_sec: 6 } })"
    );
    let e = EntryPointAPIErrors::RevertString("quote \" and \n".to_string());
    assert_eq!(e.debug_text(), "RevertString(\"quote \\\" and \\n\")");
}

#[test]
fn invalid_error_messages_quote_the_error() {
    match simulate_validation(Err(revert(bytes(AA94_STRING)))) {
        Err(EntryPointErr::UnknownErr(m)) => assert_eq!(
            m,
            "Simulate validation with invalid error: RevertString(\"AA94 gas values overflow\")"
        ),
        _ => panic!("expected an unknown error"),
    }
}

#[test]
fn failed_op_surfaces_from_every_call() {
    let f = || revert(bytes(AA40_FAILED_OP));
    assert!(matches!(simulate_validation(Err(f())), Err(EntryPointErr::FailedOp(_))));
    assert!(matches!(handle_ops(Err(f())), Err(EntryPointErr::FailedOp(_))));
    assert!(matches!(get_sender_address(Err(f())), Err(EntryPointErr::FailedOp(_))));
    assert!(matches!(simulate_handle_op(Err(f())), Err(EntryPointErr::FailedOp(_))));
}

#[test]
fn undecoded_failure_passes_through() {
    let f = || ContractFailure {
        kind: ContractFailureKind::Provider(ProviderFailure::Http { debug: "down".to_string() }),
        debug: String::new(),
    };
    for r in [
        simulate_validation(Err(f())).err(),
        handle_ops(Err(f())).err(),
        get_sender_address(Err(f())).err(),
        simulate_handle_op(Err(f())).err(),
    ] {
        match r {
            Some(EntryPointErr::NetworkErr(m)) => assert_eq!(m, "Entry point HTTP error: down"),
            _ => panic!("expected a network error"),
        }
    }
}

#[test]
fn revert_data_reads_alike_through_json_rpc() {
    let direct = deserialize_error_msg(&revert(bytes(AA40_FAILED_OP))).unwrap();
    let resp = response(Some(RpcErrorData::Text(format!("reverted: {AA40_FAILED_OP}"))));
    let via_rpc = from_json_rpc_error(&resp).unwrap();
    assert_eq!(direct.debug_text(), via_rpc.debug_text());
}

#[test]
fn even_hex_literal_parses() {
    match from_json_rpc_error(&response(Some(RpcErrorData::Text("x 0x0102030405".to_string())))) {
        Err(EntryPointErr::UnknownErr(m)) => assert_eq!(
            m,
            "Unknown middleware error: DecodeErr(\"DecodingError(InvalidData) data field could not be deserialize to EntryPointAPIErrors\")"
        ),
        _ => panic!("expected an unknown error"),
    }
}
