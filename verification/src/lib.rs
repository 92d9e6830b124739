//! Revert decoding and error classification for an ERC-4337 entry point
//! contract, and mnemonic-derived signing wallets.

pub mod abi;
pub mod api_errors;
pub mod error;
pub mod text;
pub mod revert;
pub mod hex;
pub mod rpc;
pub mod entry_point;
pub mod wallet;
pub mod render;
