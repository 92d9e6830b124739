use ethers::types::Bytes;
use silius::api_errors::EntryPointAPIErrors;
use std::str::FromStr;

#[test]
fn deserialize_error_msg() -> eyre::Result<()> {
    let err_msg = Bytes::from_str("0x0000000000000000000000000000000000000000000000000000000000000020000000000000000000000000000000000000000000000000000000000000001841413934206761732076616c756573206f766572666c6f770000000000000000")?;
    let res = EntryPointAPIErrors::decode(&err_msg)?;
    match res {
        EntryPointAPIErrors::RevertString(s) => {
            assert_eq!(s, "AA94 gas values overflow")
        }
        _ => panic!("Invalid error message"),
    }

    let err_msg = Bytes::from_str("0x08c379a00000000000000000000000000000000000000000000000000000000000000020000000000000000000000000000000000000000000000000000000000000001841413934206761732076616c756573206f766572666c6f770000000000000000")?;
    let res = EntryPointAPIErrors::decode(&err_msg);
    assert!(
        matches!(res, Err(_)),
        "ethers-rs derivatives could not handle revert error correctly"
    );
    Ok(())
}

#[test]
fn deserialize_failed_op() -> eyre::Result<()> {
    let err_msg = Bytes::from_str("0x220266b600000000000000000000000000000000000000000000000000000000000000000000000000000000000000000000000000000000000000000000000000000040000000000000000000000000000000000000000000000000000000000000001e41413430206f76657220766572696669636174696f6e4761734c696d69740000")?;
    let res = EntryPointAPIErrors::decode(&err_msg)?;
    match res {
        EntryPointAPIErrors::FailedOp(f) => {
            assert_eq!(f.reason, "AA40 over verificationGasLimit")
        }
        _ => panic!("Invalid error message"),
    }
    Ok(())
}
