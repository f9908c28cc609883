[package]
name = "nft_market_place"
version = "0.1.0"
edition = "2021"
publish = false

[dependencies]
anchor-lang = "=0.28.0"
anchor-spl = { version = "=0.28.0", default-features = false, features = ["associated_token", "token"] }
mpl-token-metadata = { version = "=1.13.2", features = ["no-entrypoint"] }
# Named only to hold mpl-token-metadata's own spl-token and spl-memo (which it
# asks for by version ranges) on the releases built for solana-program 1.16;
# the newest releases in those ranges need solana-program 2 and do not build
# together with the rest.
spl-token = { version = "=4.0.0", features = ["no-entrypoint"] }
spl-memo = { version = "=4.0.0", features = ["no-entrypoint"] }
