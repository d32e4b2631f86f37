//! A two-party staked-game escrow.
//!
//! Two participants each stake the same amount of value on the outcome of a
//! game. The escrow custodies both stakes and releases them according to an
//! authorized resolution decision: the full pot to the winner, or each stake
//! back to its owner on a draw. A lobby that nobody has joined yet can be
//! cancelled by its creator for a full refund.
//!
//! The host ledger is an external collaborator: it supplies account storage,
//! atomic execution of a single request, derived addressing of records, and
//! verification that each request is signed by the claimed caller. This crate
//! holds the escrow rules themselves — authorization, lifecycle transitions,
//! and overflow-checked value transfers — and every function here is verified
//! against its contract.

pub mod error;
pub mod identity;
pub mod laws;
pub mod lifecycle;
pub mod records;
pub mod transfer;
