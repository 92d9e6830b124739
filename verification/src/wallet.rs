//! Signing wallets derived from a mnemonic phrase.

use crate::api_errors::Address;
use ethers::signers::coins_bip39::English;
use ethers::signers::{LocalWallet, MnemonicBuilder, Signer as _, WalletError};
use ethers::types::PathOrString;
use vstd::prelude::*;

verus! {

#[verifier::external_type_specification]
#[verifier::external_body]
pub struct ExWalletError(WalletError);

/// The derivation path of the signing key.
pub const SIGNER_DERIVATION_PATH: &'static str = "m/44'/60'/0'/0/0";

/// The derivation path of the Flashbots key.
pub const FLASHBOTS_DERIVATION_PATH: &'static str = "m/44'/60'/0'/0/1";

/// One of the two derivation paths that wallets use.
pub open spec fn known_path(path: Seq<char>) -> bool {
    path == SIGNER_DERIVATION_PATH@ || path == FLASHBOTS_DERIVATION_PATH@
}

/// The secret key and the address of the key that the English BIP-39
/// mnemonic `phrase` gives at the derivation path `path`; `None` when the
/// phrase is refused.
pub uninterp spec fn mnemonic_key(phrase: Seq<char>, path: Seq<char>) -> Option<(Seq<u8>, Seq<u8>)>;

/// Derives a key with `MnemonicBuilder::<English>::default()`, the phrase
/// given as text, `derivation_path(path)` and `build()`, and returns its
/// secret key bytes and its address. Only the two wallet paths are admitted,
/// which parse. Claimed: it succeeds exactly when the name `mnemonic_key` of
/// phrase and path is `Some`, and then gives that name's value.
#[verifier::external_body]
fn derive_key(phrase: &str, path: &str) -> (r: Result<([u8; 32], Address), WalletError>)
    requires
        known_path(path@),
    ensures
        r is Ok <==> mnemonic_key(phrase@, path@) is Some,
        r matches Ok((k, a)) ==> mnemonic_key(phrase@, path@) == Some((k@, a@)),
{
    let wallet = MnemonicBuilder::<English>::default()
        .phrase(PathOrString::String(phrase.to_owned()))
        .derivation_path(path)
        .expect("Failed to derive wallet")
        .build()?;
    let secret: [u8; 32] = wallet.signer().to_bytes().into();
    Ok((secret, wallet.address().0))
}

/// The signature, in its 65-byte form (`r`, `s`, `v`), that the secret key
/// gives to `message` as an Ethereum signed message (EIP-191); `None` when the
/// bytes are not a valid secret key.
pub uninterp spec fn eip191_signature(secret_key: Seq<u8>, message: Seq<u8>) -> Option<Seq<u8>>;

/// Signs `message` as `Signer::sign_message` of ethers' local wallet does:
/// the key is read with `LocalWallet::from_bytes`, the message hashed with
/// `ethers::utils::hash_message` and signed with `Wallet::sign_hash`
/// (deterministic signing); the signature is given by `Signature::to_vec`.
/// Claimed: the result is the name `eip191_signature` of key and message, and
/// a signature is 65 bytes long (`r` and `s` of 32 bytes each, then `v`).
#[verifier::external_body]
fn sign_message_bytes(secret_key: &[u8; 32], message: &[u8]) -> (r: Result<Vec<u8>, WalletError>)
    ensures
        r is Ok <==> eip191_signature(secret_key@, message@) is Some,
        r matches Ok(s) ==> eip191_signature(secret_key@, message@) == Some(s@),
        r matches Ok(s) ==> s@.len() == 65,
{
    let key = LocalWallet::from_bytes(secret_key)?;
    let signature = key.sign_hash(ethers::utils::hash_message(message))?;
    Ok(signature.to_vec())
}

/// A signing key: its secret bytes, the address it signs for and the chain
/// id it signs on.
pub struct Signer {
    pub secret_key: [u8; 32],
    pub address: Address,
    pub chain_id: u64,
}

/// `s` is the key of `phrase` at `path` on chain `chain_id`.
pub open spec fn signer_of(s: Signer, phrase: Seq<char>, path: Seq<char>, chain_id: u64) -> bool {
    &&& mnemonic_key(phrase, path) == Some((s.secret_key@, s.address@))
    &&& s.chain_id == chain_id
}

impl Signer {
    /// Derives the key of `phrase` at `path`, to sign on chain `chain_id`.
    pub fn from_phrase(phrase: &str, path: &str, chain_id: u64) -> (r: Result<Signer, WalletError>)
        requires
            known_path(path@),
        ensures
            r is Ok <==> mnemonic_key(phrase@, path@) is Some,
            r matches Ok(s) ==> signer_of(s, phrase@, path@, chain_id),
    {
        let (secret_key, address) = derive_key(phrase, path)?;
        Ok(Signer { secret_key, address, chain_id })
    }

    /// Signs `message` as an Ethereum signed message.
    pub fn sign_message(&self, message: &[u8]) -> (r: Result<Vec<u8>, WalletError>)
        ensures
            r is Ok <==> eip191_signature(self.secret_key@, message@) is Some,
            r matches Ok(s) ==> eip191_signature(self.secret_key@, message@) == Some(s@),
            r matches Ok(s) ==> s@.len() == 65,
    {
        sign_message_bytes(&self.secret_key, message)
    }
}

/// A signing wallet with an optional key for Flashbots bundles.
pub struct Wallet {
    pub signer: Signer,
    pub flashbots_signer: Option<Signer>,
}

/// `w` is the wallet of `phrase` on chain `chain_id`, with a Flashbots key
/// exactly when `flashbots_key` is set.
pub open spec fn wallet_of(w: Wallet, phrase: Seq<char>, chain_id: u64, flashbots_key: bool) -> bool {
    &&& signer_of(w.signer, phrase, SIGNER_DERIVATION_PATH@, chain_id)
    &&& w.flashbots_signer is Some <==> flashbots_key
    &&& w.flashbots_signer matches Some(f) ==> signer_of(
        f,
        phrase,
        FLASHBOTS_DERIVATION_PATH@,
        chain_id,
    )
}

impl Wallet {
    /// Builds a wallet from a mnemonic phrase: the signing key at the first
    /// account path and, when `flashbots_key` is set, the Flashbots key at the
    /// next, both on chain `chain_id`.
    pub fn from_phrase(phrase: &str, chain_id: u64, flashbots_key: bool) -> (r: Result<Wallet, WalletError>)
        ensures
            r is Ok <==> mnemonic_key(phrase@, SIGNER_DERIVATION_PATH@) is Some && (flashbots_key
                ==> mnemonic_key(phrase@, FLASHBOTS_DERIVATION_PATH@) is Some),
            r matches Ok(w) ==> wallet_of(w, phrase@, chain_id, flashbots_key),
    {
        let signer = Signer::from_phrase(phrase, SIGNER_DERIVATION_PATH, chain_id)?;
        if flashbots_key {
            let flashbots_signer = Signer::from_phrase(phrase, FLASHBOTS_DERIVATION_PATH, chain_id)?;
            Ok(Wallet { signer, flashbots_signer: Some(flashbots_signer) })
        } else {
            Ok(Wallet { signer, flashbots_signer: None })
        }
    }
}


impl Wallet {
    /// Signs the hash of a user operation (computed for the entry point and
    /// the chain) with the signing key, as an Ethereum signed message.
    pub fn sign_uo(&self, uo_hash: &[u8; 32]) -> (r: Result<Vec<u8>, WalletError>)
        ensures
            r is Ok <==> eip191_signature(self.signer.secret_key@, uo_hash@) is Some,
            r matches Ok(s) ==> eip191_signature(self.signer.secret_key@, uo_hash@) == Some(s@),
            r matches Ok(s) ==> s@.len() == 65,
    {
        self.signer.sign_message(uo_hash)
    }
}

/// Asking for the Flashbots key does not change the signing key: wallets of
/// one phrase and chain, with and without it, sign with the same key, from
/// the same address, on the same chain. The Flashbots key is the one of the
/// same phrase at another derivation path.
pub proof fn lemma_flashbots_key_keeps_signer(
    phrase: Seq<char>,
    chain_id: u64,
    with_key: Wallet,
    without_key: Wallet,
)
    requires
        wallet_of(with_key, phrase, chain_id, true),
        wallet_of(without_key, phrase, chain_id, false),
    ensures
        with_key.signer.secret_key@ == without_key.signer.secret_key@,
        with_key.signer.address@ == without_key.signer.address@,
        with_key.signer.chain_id == without_key.signer.chain_id,
        with_key.flashbots_signer is Some,
        without_key.flashbots_signer is None,
        with_key.flashbots_signer matches Some(f) ==> signer_of(
            f,
            phrase,
            FLASHBOTS_DERIVATION_PATH@,
            chain_id,
        ),
        SIGNER_DERIVATION_PATH@ != FLASHBOTS_DERIVATION_PATH@,
{
    reveal_strlit("m/44'/60'/0'/0/0");
    reveal_strlit("m/44'/60'/0'/0/1");
    assert(SIGNER_DERIVATION_PATH@[15] != FLASHBOTS_DERIVATION_PATH@[15]);
}

} // verus!
