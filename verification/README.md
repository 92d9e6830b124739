# silius

Verified core of an ERC-4337 bundler's entry point client.

- `src/` (verified with Verus):
  - `abi`: ABI values and the call into ethers' ABI decoder.
  - `api_errors`: the entry point contract's custom errors and their
    decoding from revert data, selector by selector.
  - `revert`: revert data decoding with the standard `Error(string)` fallback.
  - `hex`: finding a `0x` hex literal in text and decoding it.
  - `rpc`: classification of JSON-RPC, provider, middleware and contract
    call failures into entry point errors.
  - `entry_point`: the result of each entry point call, decided from the
    call's outcome.
  - `render`, `text`, `error`: error types and the text of their messages.
  - `wallet`: signing keys derived from a mnemonic phrase.
- `app/`: the network, file and terminal side: contract calls through an
  ethers middleware, conversion of ethers' error types, wallets read from
  disk, generated at random or decrypted from a keystore.
- `tests/`: tests of the library on concrete values.
