//! The value pools of the Zcash protocol.

use vstd::prelude::*;

verus! {

/// The number of zatoshis in one ZEC.
pub const COIN: u64 = 100_000_000;

/// The largest amount of zatoshis that can exist: 21 million ZEC.
pub const MAX_MONEY: u64 = 21_000_000 * COIN;

/// A shielded transfer protocol supported by the wallet.
#[derive(Debug, Clone, Copy, PartialEq, Eq, Structural, PartialOrd, Ord, Hash)]
pub enum ShieldedProtocol {
    /// The Sapling protocol.
    Sapling,
    /// The Orchard protocol.
    Orchard,
}

/// A value pool to which the wallet supports sending transaction outputs.
#[derive(Debug, Clone, Copy, PartialEq, Eq, Structural, Hash)]
pub enum PoolType {
    /// The transparent value pool.
    Transparent,
    /// A shielded value pool.
    Shielded(ShieldedProtocol),
}

} // verus!
