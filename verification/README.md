# nft_market_place

A marketplace program for NFTs of whitelisted collections, with its decision
logic verified in Verus.

* `src/` — the verified library.
  * `key.rs` — 32-byte account addresses.
  * `associated_token.rs` — derivation of associated token accounts.
  * `state/` — the listing record (`SellerVault`) and the collection record
    (`WhitelistedCollection`), with their account-data layout.
  * `instructions/` — the checks of each instruction: whitelisting a
    collection, listing an NFT, buying it and withdrawing it; `settlement.rs`
    is the state machine that drives the payment, token transfer, reload and
    close of a purchase or withdrawal.
  * `nft_market_place.rs` — the two instructions the program serves.
  * `external.rs` — the trusted calls into the Solana libraries.
  * `laws.rs` — properties relating several functions.
* `tests/` — tests run against the real Solana libraries.
* `app/` — the on-chain program: account constraints, conversion, and the
  cross-program invocations.
