//! The game lifecycle controller: the operations an authenticated caller
//! may submit, each one atomic — all checks run before any state changes,
//! and a failed operation mutates nothing.

use vstd::prelude::*;

use crate::error::EscrowError;
use crate::identity::Identity;
use crate::records::Config;
use crate::records::Game;
use crate::records::GameAccount;
use crate::transfer::transfer;

verus! {

/// Creates the deployment's configuration record: the caller becomes the
/// immutable owner, no resolver is delegated yet, and the game counter
/// starts at zero. The ledger's derived addressing guarantees this runs at
/// most once per deployment; a second attempt never reaches this code.
pub fn initialize(caller: Identity) -> (cfg: Config)
    ensures
        cfg.owner == caller,
        cfg.resolver.spec_is_unset(),
        cfg.game_counter == 0,
{
    Config { owner: caller, resolver: Identity::unset(), game_counter: 0 }
}

/// Appoints `resolver` as the delegated outcome authority. Only the owner
/// may do this; the overwrite itself is unconditional, so re-appointing is
/// idempotent. A non-owner caller is refused with `NotOwner` and the stored
/// resolver is unchanged.
pub fn set_resolver(cfg: &mut Config, caller: Identity, resolver: Identity) -> (r: Result<
    (),
    EscrowError,
>)
    ensures
        caller == old(cfg).owner ==> r is Ok,
        caller != old(cfg).owner ==> r == Err::<(), EscrowError>(EscrowError::NotOwner),
        r is Ok ==> final(cfg).owner == old(cfg).owner && final(cfg).resolver == resolver
            && final(cfg).game_counter == old(cfg).game_counter,
        r is Err ==> *final(cfg) == *old(cfg),
{
    if caller == cfg.owner {
        cfg.resolver = resolver;
        Ok(())
    } else {
        Err(EscrowError::NotOwner)
    }
}

/// Creates a new lobby: the caller becomes `player1`, stakes `stake` value
/// units into the game's escrow holding, and the configuration's counter
/// advances by exactly one, with `game_id` required to be its next value —
/// ids are allocated strictly sequentially and cannot be gamed.
///
/// Failures, each with nothing mutated: `StakeTooLow` for a zero stake;
/// `Overflow` when the counter cannot advance; `BadGameId` when `game_id`
/// is not `game_counter + 1`; `InsufficientEscrow` when `player1_balance`
/// cannot cover the stake.
///
/// On success the returned account is Open and well-formed: second seat and
/// winner unset, the record's id equal to the advanced counter, and the
/// holding custodying exactly one stake taken from `player1_balance`.
pub fn create_lobby(
    cfg: &mut Config,
    player1: Identity,
    player1_balance: &mut u64,
    game_id: u64,
    stake: u64,
) -> (r: Result<GameAccount, EscrowError>)
    ensures
        stake == 0 ==> r == Err::<GameAccount, EscrowError>(EscrowError::StakeTooLow),
        stake > 0 && old(cfg).game_counter == u64::MAX ==> r == Err::<GameAccount, EscrowError>(
            EscrowError::Overflow,
        ),
        stake > 0 && old(cfg).game_counter < u64::MAX && game_id != old(cfg).game_counter + 1
            ==> r == Err::<GameAccount, EscrowError>(EscrowError::BadGameId),
        stake > 0 && game_id == old(cfg).game_counter + 1 && *old(player1_balance) < stake ==> r
            == Err::<GameAccount, EscrowError>(EscrowError::InsufficientEscrow),
        stake > 0 && game_id == old(cfg).game_counter + 1 && *old(player1_balance) >= stake ==> r
            is Ok,
        r is Err ==> *final(cfg) == *old(cfg) && *final(player1_balance) == *old(player1_balance),
        r is Ok ==> final(cfg).game_counter == old(cfg).game_counter + 1,
        r is Ok ==> final(cfg).owner == old(cfg).owner && final(cfg).resolver == old(cfg).resolver,
        r is Ok ==> *final(player1_balance) == *old(player1_balance) - stake,
        r is Ok ==> r->Ok_0.record == (Game {
            game_id,
            player1,
            player2: Identity::spec_unset(),
            stake,
            active: true,
            winner: Identity::spec_unset(),
        }),
        r is Ok ==> r->Ok_0.record.game_id == final(cfg).game_counter,
        r is Ok ==> r->Ok_0.holding == stake,
        r is Ok ==> r->Ok_0.wf(),
        r is Ok ==> *final(player1_balance) + r->Ok_0.holding == *old(player1_balance),
{
    if stake == 0 {
        return Err(EscrowError::StakeTooLow);
    }
    if cfg.game_counter == u64::MAX {
        return Err(EscrowError::Overflow);
    }
    let expected_id = cfg.game_counter + 1;
    if game_id != expected_id {
        return Err(EscrowError::BadGameId);
    }
    let mut holding: u64 = 0;
    transfer(player1_balance, &mut holding, stake)?;
    cfg.game_counter = expected_id;
    let record = Game {
        game_id,
        player1,
        player2: Identity::unset(),
        stake,
        active: true,
        winner: Identity::unset(),
    };
    Ok(GameAccount { record, holding })
}

/// Seats the caller as `player2` in an Open lobby, staking the same amount
/// as the creator into the escrow holding.
///
/// Failures, each with nothing mutated: `LobbyHasOpponent` when a second
/// player was ever seated — so a second join of the same record always
/// fails, even after resolution; `GameNotActive` on a record cancelled
/// before anyone joined; `StakeTooLow` if the recorded stake is zero
/// (defense in depth: creation already forbids it); `InsufficientEscrow`
/// when `player2_balance` cannot cover the stake; `Overflow` when the
/// holding cannot take another stake.
///
/// On success the record is Ready and, from a well-formed Open account, the
/// holding custodies exactly two stakes.
pub fn join_lobby(game: &mut GameAccount, player2: Identity, player2_balance: &mut u64) -> (r:
    Result<(), EscrowError>)
    ensures
        !old(game).record.player2.spec_is_unset() ==> r == Err::<(), EscrowError>(
            EscrowError::LobbyHasOpponent,
        ),
        old(game).record.player2.spec_is_unset() && !old(game).record.active ==> r == Err::<
            (),
            EscrowError,
        >(EscrowError::GameNotActive),
        old(game).record.is_open() && old(game).record.stake == 0 ==> r == Err::<(), EscrowError>(
            EscrowError::StakeTooLow,
        ),
        old(game).record.is_open() && old(game).record.stake > 0 && *old(player2_balance) < old(
            game,
        ).record.stake ==> r == Err::<(), EscrowError>(EscrowError::InsufficientEscrow),
        old(game).record.is_open() && old(game).record.stake > 0 && *old(player2_balance) >= old(
            game,
        ).record.stake && old(game).holding + old(game).record.stake > u64::MAX ==> r == Err::<
            (),
            EscrowError,
        >(EscrowError::Overflow),
        old(game).record.is_open() && old(game).record.stake > 0 && *old(player2_balance) >= old(
            game,
        ).record.stake && old(game).holding + old(game).record.stake <= u64::MAX ==> r is Ok,
        r is Err ==> *final(game) == *old(game) && *final(player2_balance) == *old(
            player2_balance,
        ),
        r is Ok ==> final(game).record == (Game { player2, ..old(game).record }),
        r is Ok ==> final(game).holding == old(game).holding + old(game).record.stake,
        r is Ok ==> *final(player2_balance) == *old(player2_balance) - old(game).record.stake,
        final(game).holding + *final(player2_balance) == old(game).holding + *old(
            player2_balance,
        ),
        old(game).wf() && r is Ok ==> final(game).holding == 2 * (old(game).record.stake as int),
        old(game).wf() && !player2.spec_is_unset() ==> final(game).wf(),
{
    if !game.record.player2.is_unset() {
        return Err(EscrowError::LobbyHasOpponent);
    }
    if !game.record.active {
        return Err(EscrowError::GameNotActive);
    }
    let stake = game.record.stake;
    if stake == 0 {
        return Err(EscrowError::StakeTooLow);
    }
    transfer(player2_balance, &mut game.holding, stake)?;
    game.record.player2 = player2;
    Ok(())
}

/// Closes an Open lobby and refunds the full stake from the escrow holding
/// to the creator. Only the creator may cancel, and only while nobody has
/// joined; the second seat stays unset and the record becomes terminal.
///
/// Failures, each with nothing mutated: `GameNotActive` on a terminal
/// record; `LobbyHasOpponent` once a second player is seated — a joined
/// game can no longer be cancelled; `NotCreator` for any caller other than
/// `player1`; `StakeTooLow` if the recorded stake is zero;
/// `InsufficientEscrow` if the holding does not cover the refund;
/// `Overflow` when the refund would not fit in `player1_balance`.
///
/// On success, from a well-formed account, the holding is exactly empty.
pub fn cancel_lobby(game: &mut GameAccount, caller: Identity, player1_balance: &mut u64) -> (r:
    Result<(), EscrowError>)
    ensures
        !old(game).record.active ==> r == Err::<(), EscrowError>(EscrowError::GameNotActive),
        old(game).record.active && !old(game).record.player2.spec_is_unset() ==> r == Err::<
            (),
            EscrowError,
        >(EscrowError::LobbyHasOpponent),
        old(game).record.is_open() && caller != old(game).record.player1 ==> r == Err::<
            (),
            EscrowError,
        >(EscrowError::NotCreator),
        old(game).record.is_open() && caller == old(game).record.player1 && old(
            game,
        ).record.stake == 0 ==> r == Err::<(), EscrowError>(EscrowError::StakeTooLow),
        old(game).record.is_open() && caller == old(game).record.player1 && old(game).record.stake
            > 0 && old(game).holding < old(game).record.stake ==> r == Err::<(), EscrowError>(
            EscrowError::InsufficientEscrow,
        ),
        old(game).record.is_open() && caller == old(game).record.player1 && old(game).record.stake
            > 0 && old(game).holding >= old(game).record.stake && *old(player1_balance) + old(
            game,
        ).record.stake > u64::MAX ==> r == Err::<(), EscrowError>(EscrowError::Overflow),
        old(game).record.is_open() && caller == old(game).record.player1 && old(game).record.stake
            > 0 && old(game).holding >= old(game).record.stake && *old(player1_balance) + old(
            game,
        ).record.stake <= u64::MAX ==> r is Ok,
        r is Err ==> *final(game) == *old(game) && *final(player1_balance) == *old(
            player1_balance,
        ),
        r is Ok ==> final(game).record == (Game { active: false, ..old(game).record }),
        r is Ok ==> final(game).holding == old(game).holding - old(game).record.stake,
        r is Ok ==> *final(player1_balance) == *old(player1_balance) + old(game).record.stake,
        final(game).holding + *final(player1_balance) == old(game).holding + *old(
            player1_balance,
        ),
        old(game).wf() && r is Ok ==> final(game).holding == 0,
        old(game).wf() ==> final(game).wf(),
{
    if !game.record.active {
        return Err(EscrowError::GameNotActive);
    }
    if !game.record.player2.is_unset() {
        return Err(EscrowError::LobbyHasOpponent);
    }
    if caller != game.record.player1 {
        return Err(EscrowError::NotCreator);
    }
    let stake = game.record.stake;
    if stake == 0 {
        return Err(EscrowError::StakeTooLow);
    }
    transfer(&mut game.holding, player1_balance, stake)?;
    game.record.active = false;
    Ok(())
}

/// True when `caller` holds resolution authority: the deployment owner, or
/// the delegated resolver.
pub open spec fn resolve_authorized(cfg: Config, caller: Identity) -> bool {
    caller == cfg.owner || caller == cfg.resolver
}

/// Records the outcome of a Ready game and pays the pot out of the escrow
/// holding: the whole `2 * stake` to `winner` when it names a participant,
/// or one stake back to each player when `winner` is the draw sentinel.
/// Only the owner or the delegated resolver may resolve. On success the
/// record becomes terminal with the supplied outcome stored; from a
/// well-formed account the holding ends exactly empty.
///
/// Failures, each with nothing mutated: `NotOwnerOrResolver` for any other
/// caller; `GameNotActive` on a terminal record; `GameNotReady` while the
/// second seat is empty; `Overflow` when the pot `2 * stake` does not fit
/// in 64 bits, or when a payout would not fit in its recipient's balance;
/// `StakeTooLow` on a draw with a zero recorded stake;
/// `InsufficientEscrow` when the holding does not cover the pot;
/// `InvalidWinner` when `winner` is neither participant nor the sentinel.
///
/// When the two participants are the same identity, a `winner` naming it is
/// paid through `player1_balance`, as the first matching participant.
pub fn resolve_game(
    cfg: &Config,
    game: &mut GameAccount,
    caller: Identity,
    winner: Identity,
    player1_balance: &mut u64,
    player2_balance: &mut u64,
) -> (r: Result<(), EscrowError>)
    ensures
        !resolve_authorized(*cfg, caller) ==> r == Err::<(), EscrowError>(
            EscrowError::NotOwnerOrResolver,
        ),
        resolve_authorized(*cfg, caller) && !old(game).record.active ==> r == Err::<
            (),
            EscrowError,
        >(EscrowError::GameNotActive),
        resolve_authorized(*cfg, caller) && old(game).record.active && old(
            game,
        ).record.player2.spec_is_unset() ==> r == Err::<(), EscrowError>(EscrowError::GameNotReady),
        resolve_authorized(*cfg, caller) && old(game).record.is_ready() && 2 * (
        old(game).record.stake as int) > u64::MAX ==> r == Err::<(), EscrowError>(
            EscrowError::Overflow,
        ),
        ({
            let g = old(game).record;
            let fits = 2 * (g.stake as int) <= u64::MAX;
            &&& (resolve_authorized(*cfg, caller) && g.is_ready() && fits
                && winner.spec_is_unset() && g.stake == 0 ==> r == Err::<(), EscrowError>(
                EscrowError::StakeTooLow,
            ))
            &&& (resolve_authorized(*cfg, caller) && g.is_ready() && fits
                && winner.spec_is_unset() && g.stake > 0 && old(game).holding < 2 * (
            g.stake as int) ==> r == Err::<(), EscrowError>(EscrowError::InsufficientEscrow))
            &&& (resolve_authorized(*cfg, caller) && g.is_ready() && fits
                && winner.spec_is_unset() && g.stake > 0 && old(game).holding >= 2 * (
            g.stake as int) && *old(player1_balance) + g.stake > u64::MAX ==> r == Err::<
                (),
                EscrowError,
            >(EscrowError::Overflow))
            &&& (resolve_authorized(*cfg, caller) && g.is_ready() && fits
                && winner.spec_is_unset() && g.stake > 0 && old(game).holding >= 2 * (
            g.stake as int) && *old(player1_balance) + g.stake <= u64::MAX && *old(
                player2_balance,
            ) + g.stake > u64::MAX ==> r == Err::<(), EscrowError>(EscrowError::Overflow))
            &&& (resolve_authorized(*cfg, caller) && g.is_ready() && fits
                && winner.spec_is_unset() && g.stake > 0 && old(game).holding >= 2 * (
            g.stake as int) && *old(player1_balance) + g.stake <= u64::MAX && *old(
                player2_balance,
            ) + g.stake <= u64::MAX ==> r is Ok && *final(player1_balance) == *old(
                player1_balance,
            ) + g.stake && *final(player2_balance) == *old(player2_balance) + g.stake)
        }),
        ({
            let g = old(game).record;
            let fits = 2 * (g.stake as int) <= u64::MAX;
            let pot = 2 * (g.stake as int);
            &&& (resolve_authorized(*cfg, caller) && g.is_ready() && fits
                && !winner.spec_is_unset() && winner == g.player1 && old(game).holding < pot ==> r
                == Err::<(), EscrowError>(EscrowError::InsufficientEscrow))
            &&& (resolve_authorized(*cfg, caller) && g.is_ready() && fits
                && !winner.spec_is_unset() && winner == g.player1 && old(game).holding >= pot
                && *old(player1_balance) + pot > u64::MAX ==> r == Err::<(), EscrowError>(
                EscrowError::Overflow,
            ))
            &&& (resolve_authorized(*cfg, caller) && g.is_ready() && fits
                && !winner.spec_is_unset() && winner == g.player1 && old(game).holding >= pot
                && *old(player1_balance) + pot <= u64::MAX ==> r is Ok && *final(player1_balance)
                == *old(player1_balance) + pot && *final(player2_balance) == *old(
                player2_balance,
            ))
            &&& (resolve_authorized(*cfg, caller) && g.is_ready() && fits
                && !winner.spec_is_unset() && winner != g.player1 && winner == g.player2 && old(
                game,
            ).holding < pot ==> r == Err::<(), EscrowError>(EscrowError::InsufficientEscrow))
            &&& (resolve_authorized(*cfg, caller) && g.is_ready() && fits
                && !winner.spec_is_unset() && winner != g.player1 && winner == g.player2 && old(
                game,
            ).holding >= pot && *old(player2_balance) + pot > u64::MAX ==> r == Err::<
                (),
                EscrowError,
            >(EscrowError::Overflow))
            &&& (resolve_authorized(*cfg, caller) && g.is_ready() && fits
                && !winner.spec_is_unset() && winner != g.player1 && winner == g.player2 && old(
                game,
            ).holding >= pot && *old(player2_balance) + pot <= u64::MAX ==> r is Ok
                && *final(player2_balance) == *old(player2_balance) + pot
                && *final(player1_balance) == *old(player1_balance))
            &&& (resolve_authorized(*cfg, caller) && g.is_ready() && fits
                && !winner.spec_is_unset() && winner != g.player1 && winner != g.player2 ==> r
                == Err::<(), EscrowError>(EscrowError::InvalidWinner))
        }),
        r is Ok ==> final(game).record == (Game {
            winner,
            active: false,
            ..old(game).record
        }),
        r is Ok ==> final(game).holding == old(game).holding - 2 * (old(game).record.stake as int),
        r is Err ==> *final(game) == *old(game) && *final(player1_balance) == *old(
            player1_balance,
        ) && *final(player2_balance) == *old(player2_balance),
        final(game).holding + *final(player1_balance) + *final(player2_balance) == old(
            game,
        ).holding + *old(player1_balance) + *old(player2_balance),
        old(game).wf() && r is Ok ==> final(game).holding == 0,
        old(game).wf() ==> final(game).wf(),
{
    if !(caller == cfg.owner || caller == cfg.resolver) {
        return Err(EscrowError::NotOwnerOrResolver);
    }
    if !game.record.active {
        return Err(EscrowError::GameNotActive);
    }
    if game.record.player2.is_unset() {
        return Err(EscrowError::GameNotReady);
    }
    let stake = game.record.stake;
    if stake > u64::MAX / 2 {
        return Err(EscrowError::Overflow);
    }
    let total_prize = stake * 2;
    if winner.is_unset() {
        if stake == 0 {
            return Err(EscrowError::StakeTooLow);
        }
        if game.holding < total_prize {
            return Err(EscrowError::InsufficientEscrow);
        }
        if *player1_balance > u64::MAX - stake {
            return Err(EscrowError::Overflow);
        }
        if *player2_balance > u64::MAX - stake {
            return Err(EscrowError::Overflow);
        }
        transfer(&mut game.holding, player1_balance, stake)?;
        transfer(&mut game.holding, player2_balance, stake)?;
    } else if winner == game.record.player1 {
        transfer(&mut game.holding, player1_balance, total_prize)?;
    } else if winner == game.record.player2 {
        transfer(&mut game.holding, player2_balance, total_prize)?;
    } else {
        return Err(EscrowError::InvalidWinner);
    }
    game.record.winner = winner;
    game.record.active = false;
    Ok(())
}

} // verus!
