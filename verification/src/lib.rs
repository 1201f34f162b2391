//! Records of the transaction data that a Zcash wallet or light client keeps about
//! what it found while scanning the block chain, with contracts proved by Verus.

pub mod protocol;
pub mod address;
pub mod fees;
pub mod outside;
pub mod wallet;
