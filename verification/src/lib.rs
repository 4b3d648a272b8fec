//! Consensus-critical validation for a shielded-transaction chain:
//! resolution of the active rule epoch (branch id) for a block height,
//! and verification of the shielded value components of a transaction.

pub mod consensus;
pub mod curve;
pub mod redjubjub;
pub mod sapling;
