[package]
name = "wasm_payload"
version = "0.1.0"
edition = "2021"
publish = false

[dependencies]
parity-wasm = "0.31"
pwasm-utils = "0.6"
trie-db = "0.11"
memory-db = "0.11"
hash-db = "0.11"
keccak-hasher = "0.11"
rlp = "0.3"
elastic-array = "0.10"
ethereum-types = "0.4"
parity-bytes = "0.1"
