//! Staking of allowlisted NFTs for a time-weighted reward.
//!
//! The allowlist is committed to by a Merkle root; membership is checked by
//! [`merkle_proof::verify`]. Each (asset, owner) pair has a [`state::StakeInfoAccount`]
//! which the operations of [`program`] move through its lifecycle.
pub mod error;
pub mod merkle_proof;
pub mod program;
pub mod reward;
pub mod state;
