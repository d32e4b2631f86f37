//! The configuration record and the per-game escrow record.

use vstd::prelude::*;

use crate::identity::Identity;

verus! {

/// The deployment-wide configuration: one record per deployment.
///
/// `owner` is fixed at initialization. `resolver` is an optional delegate
/// that the owner may appoint to decide game outcomes; it is the sentinel
/// while unset. `game_counter` counts successfully created games and is the
/// source of strictly sequential game ids.
#[derive(Clone, Copy, Debug, PartialEq, Eq, Structural)]
pub struct Config {
    pub owner: Identity,
    pub resolver: Identity,
    pub game_counter: u64,
}

/// One game's persistent record.
///
/// `player2` holds the sentinel until someone joins. `winner` holds the
/// sentinel until resolution; afterwards it names the winning participant,
/// or stays the sentinel for a draw.
#[derive(Clone, Copy, Debug, PartialEq, Eq, Structural)]
pub struct Game {
    pub game_id: u64,
    pub player1: Identity,
    pub player2: Identity,
    pub stake: u64,
    pub active: bool,
    pub winner: Identity,
}

impl Game {
    /// Open: active and still waiting for a second player.
    pub open spec fn is_open(self) -> bool {
        self.active && self.player2.spec_is_unset()
    }

    /// Ready: active with both players seated.
    pub open spec fn is_ready(self) -> bool {
        self.active && !self.player2.spec_is_unset()
    }

    /// Terminal: cancelled or resolved; no field is ever mutated again.
    pub open spec fn is_terminal(self) -> bool {
        !self.active
    }

    /// Cancelled: closed before anyone joined.
    pub open spec fn is_cancelled(self) -> bool {
        !self.active && self.player2.spec_is_unset()
    }

    /// Resolved: closed with both players seated and an outcome recorded.
    pub open spec fn is_resolved(self) -> bool {
        !self.active && !self.player2.spec_is_unset()
    }
}

/// A game record together with its escrow holding: the balance, attached to
/// the record's account, that custodies the staked value.
#[derive(Clone, Copy, Debug, PartialEq, Eq, Structural)]
pub struct GameAccount {
    pub record: Game,
    pub holding: u64,
}

impl GameAccount {
    /// Well-formedness of a game account, established by lobby creation and
    /// preserved by every lifecycle operation:
    /// the stake is positive for the record's entire lifetime; the holding
    /// equals one stake while Open, two stakes while Ready, and exactly zero
    /// in a terminal state; and the winner field is the sentinel until
    /// resolution records a participant or a draw.
    pub open spec fn wf(self) -> bool {
        &&& self.record.stake > 0
        &&& self.record.is_open() ==> self.holding == self.record.stake
        &&& self.record.is_ready() ==> self.holding == 2 * (self.record.stake as int)
        &&& self.record.is_terminal() ==> self.holding == 0
        &&& self.record.active ==> self.record.winner.spec_is_unset()
        &&& self.record.is_cancelled() ==> self.record.winner.spec_is_unset()
        &&& self.record.is_resolved() ==> (self.record.winner.spec_is_unset()
            || self.record.winner == self.record.player1
            || self.record.winner == self.record.player2)
    }
}

} // verus!
