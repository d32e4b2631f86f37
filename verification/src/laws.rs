//! Laws of the escrow as a whole, stated over the records' well-formedness.

use vstd::prelude::*;

use crate::records::Game;
use crate::records::GameAccount;

verus! {

/// Every game record is in exactly one lifecycle state: Open, Ready,
/// Cancelled or Resolved.
pub proof fn lemma_lifecycle_states_partition(g: Game)
    ensures
        g.is_open() || g.is_ready() || g.is_cancelled() || g.is_resolved(),
        g.is_open() ==> !g.is_ready() && !g.is_cancelled() && !g.is_resolved(),
        g.is_ready() ==> !g.is_open() && !g.is_cancelled() && !g.is_resolved(),
        g.is_cancelled() ==> !g.is_open() && !g.is_ready() && !g.is_resolved(),
        g.is_resolved() ==> !g.is_open() && !g.is_ready() && !g.is_cancelled(),
{
}

/// A well-formed game account has a strictly positive stake, in every
/// lifecycle state from creation through either terminal state.
pub proof fn lemma_wf_stake_positive(g: GameAccount)
    requires
        g.wf(),
    ensures
        g.record.stake > 0,
{
}

/// The escrow holding of a well-formed game account is fixed by its
/// lifecycle state: one stake while Open, two stakes while Ready, and
/// exactly zero in either terminal state — everything staked has been paid
/// back out by cancellation or resolution.
pub proof fn lemma_holding_tracks_state(g: GameAccount)
    requires
        g.wf(),
    ensures
        g.record.is_open() ==> g.holding == g.record.stake,
        g.record.is_ready() ==> g.holding == 2 * (g.record.stake as int),
        g.record.is_terminal() ==> g.holding == 0,
{
}

} // verus!
