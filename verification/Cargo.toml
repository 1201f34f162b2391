[package]
name = "zcash_wallet"
version = "0.1.0"
edition = "2021"
publish = false

[dependencies]
zcash_primitives = "=0.31.0"
zcash_protocol = "=0.11.0"
zcash_transparent = "=0.11.0"
sapling-crypto = "=0.9.0"
orchard = "=0.16.0"
incrementalmerkletree = "=0.9.0"
zcash_note_encryption = "=0.5.1"
zip32 = "=0.3.0"
