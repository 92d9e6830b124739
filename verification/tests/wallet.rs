use ethers::types::Address;
use silius::wallet::{Signer, Wallet, FLASHBOTS_DERIVATION_PATH, SIGNER_DERIVATION_PATH};
use std::str::FromStr;

const PHRASE: &str = "test test test test test test test test test test test junk";

fn addr(s: &str) -> [u8; 20] {
    Address::from_str(s).unwrap().0
}

#[test]
fn wallet_from_phrase_with_flashbots_key() {
    let w = Wallet::from_phrase(PHRASE, 5, true).unwrap();
    assert_eq!(w.signer.address, addr("0xf39Fd6e51aad88F6F4ce6aB8827279cffFb92266"));
    assert_eq!(w.signer.chain_id, 5);
    let f = w.flashbots_signer.unwrap();
    assert_eq!(f.address, addr("0x70997970C51812dc3A010C7d01b50e0d17dc79C8"));
    assert_eq!(f.chain_id, 5);
}

#[test]
fn wallet_from_phrase_without_flashbots_key() {
    let w = Wallet::from_phrase(PHRASE, 1, false).unwrap();
    assert!(w.flashbots_signer.is_none());
    assert_eq!(w.signer.address, addr("0xf39Fd6e51aad88F6F4ce6aB8827279cffFb92266"));
}

#[test]
fn wallet_from_bad_phrase_fails() {
    assert!(Wallet::from_phrase("not a mnemonic", 1, false).is_err());
}

#[test]
fn signer_key_matches_address() {
    let s = Signer::from_phrase(PHRASE, FLASHBOTS_DERIVATION_PATH, 1).unwrap();
    let key = ethers::signers::LocalWallet::from_bytes(&s.secret_key).unwrap();
    assert_eq!(ethers::signers::Signer::address(&key).0, s.address);
    let s0 = Signer::from_phrase(PHRASE, SIGNER_DERIVATION_PATH, 1).unwrap();
    assert_ne!(s0.secret_key, s.secret_key);
}

#[test]
fn signing_recovers_the_signer() {
    let w = Wallet::from_phrase(PHRASE, 1, false).unwrap();
    let hash = [7u8; 32];
    let sig = w.sign_uo(&hash).unwrap();
    assert_eq!(sig.len(), 65);
    let signature = ethers::types::Signature::try_from(&sig[..]).unwrap();
    assert_eq!(signature.recover(&hash[..]).unwrap().0, w.signer.address);
    let again = w.signer.sign_message(&hash).unwrap();
    assert_eq!(sig, again);
    assert_ne!(w.signer.sign_message(&[8u8; 32]).unwrap(), sig);
}
