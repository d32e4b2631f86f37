//! The error taxonomy.

use vstd::prelude::*;

verus! {

/// Why an escrow operation was refused. Every failure is whole-operation
/// terminal: the operation aborts with one of these and no mutation survives.
#[derive(Clone, Copy, Debug, PartialEq, Eq, Structural)]
pub enum EscrowError {
    /// The caller is not the deployment owner.
    NotOwner,
    /// The caller is neither the deployment owner nor the delegated resolver.
    NotOwnerOrResolver,
    /// The game record is no longer active (already cancelled or resolved).
    GameNotActive,
    /// The lobby already has a second player.
    LobbyHasOpponent,
    /// Only the lobby's creator may cancel it.
    NotCreator,
    /// The stake must be strictly positive.
    StakeTooLow,
    /// The game has no second player yet, so it cannot be resolved.
    GameNotReady,
    /// The named winner is neither participant nor the draw sentinel.
    InvalidWinner,
    /// An amount computation would overflow a 64-bit value.
    Overflow,
    /// A balance is too small to cover the requested debit.
    InsufficientEscrow,
    /// The supplied game id is not the next value of the counter.
    BadGameId,
}

} // verus!
