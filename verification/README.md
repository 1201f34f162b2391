# zcash_wallet

The records that a Zcash wallet or light client keeps about the transactions it finds
while scanning the block chain: note identifiers, recipients, spends and outputs of the
shielded pools, transparent outputs, received notes and outgoing-viewing-key policies.
Their constructors, accessors and transformations carry contracts proved by Verus.

- `src/protocol.rs`: the value pools and the monetary bound.
- `src/address.rs`: unified addresses.
- `src/wallet.rs`: the wallet records, their contracts and the laws of their
  transformations.
- `src/fees.rs`: what fee computation reads of a shielded input.
- `src/outside.rs`: the Zcash types that the records carry, and the trusted wrappers
  around the Zcash functions that they call.
- `app/`: impls of traits of the Zcash crates, which the library's types cannot have.
