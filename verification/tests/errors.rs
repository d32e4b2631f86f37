use chess_bet_escrow::error::EscrowError;
use chess_bet_escrow::identity::Identity;
use chess_bet_escrow::lifecycle::cancel_lobby;
use chess_bet_escrow::lifecycle::create_lobby;
use chess_bet_escrow::lifecycle::initialize;
use chess_bet_escrow::lifecycle::join_lobby;
use chess_bet_escrow::lifecycle::resolve_game;
use chess_bet_escrow::lifecycle::set_resolver;
use chess_bet_escrow::records::Config;
use chess_bet_escrow::records::Game;
use chess_bet_escrow::records::GameAccount;

fn id(n: u64) -> Identity {
    Identity { w0: n, w1: 0, w2: 0, w3: 0 }
}

fn ready_game(stake: u64, holding: u64) -> GameAccount {
    GameAccount {
        record: Game {
            game_id: 1,
            player1: id(1),
            player2: id(2),
            stake,
            active: true,
            winner: Identity::unset(),
        },
        holding,
    }
}

#[test]
fn set_resolver_by_non_owner_fails() {
    let owner = id(9);
    let mut cfg = initialize(owner);
    set_resolver(&mut cfg, owner, id(7)).unwrap();
    let r = set_resolver(&mut cfg, id(3), id(4));
    assert_eq!(r, Err(EscrowError::NotOwner));
    // The stored resolver is unchanged.
    assert_eq!(cfg.resolver, id(7));
    assert_eq!(cfg.owner, owner);
}

#[test]
fn create_with_zero_stake_fails() {
    let mut cfg = initialize(id(9));
    let mut bal: u64 = 100;
    let r = create_lobby(&mut cfg, id(1), &mut bal, 1, 0);
    assert_eq!(r, Err(EscrowError::StakeTooLow));
    assert_eq!(cfg.game_counter, 0);
    assert_eq!(bal, 100);
}

#[test]
fn create_with_wrong_game_id_fails() {
    let mut cfg = initialize(id(9));
    let mut bal: u64 = 100;
    let r = create_lobby(&mut cfg, id(1), &mut bal, 2, 10);
    assert_eq!(r, Err(EscrowError::BadGameId));
    // Counter unchanged, stake not debited, no record created.
    assert_eq!(cfg.game_counter, 0);
    assert_eq!(bal, 100);
}

#[test]
fn create_with_poor_balance_fails() {
    let mut cfg = initialize(id(9));
    let mut bal: u64 = 9;
    let r = create_lobby(&mut cfg, id(1), &mut bal, 1, 10);
    assert_eq!(r, Err(EscrowError::InsufficientEscrow));
    assert_eq!(cfg.game_counter, 0);
    assert_eq!(bal, 9);
}

#[test]
fn create_with_exhausted_counter_fails() {
    let mut cfg = Config { owner: id(9), resolver: Identity::unset(), game_counter: u64::MAX };
    let mut bal: u64 = 100;
    let r = create_lobby(&mut cfg, id(1), &mut bal, 1, 10);
    assert_eq!(r, Err(EscrowError::Overflow));
    assert_eq!(cfg.game_counter, u64::MAX);
    assert_eq!(bal, 100);
}

#[test]
fn join_twice_fails() {
    let mut cfg = initialize(id(9));
    let mut a_bal: u64 = 50;
    let mut b_bal: u64 = 50;
    let mut c_bal: u64 = 50;
    let mut game = create_lobby(&mut cfg, id(1), &mut a_bal, 1, 10).unwrap();
    join_lobby(&mut game, id(2), &mut b_bal).unwrap();
    let r = join_lobby(&mut game, id(3), &mut c_bal);
    assert_eq!(r, Err(EscrowError::LobbyHasOpponent));
    assert_eq!(c_bal, 50);
    assert_eq!(game.holding, 20);
    assert_eq!(game.record.player2, id(2));
}

#[test]
fn join_cancelled_lobby_fails() {
    let mut cfg = initialize(id(9));
    let mut a_bal: u64 = 50;
    let mut b_bal: u64 = 50;
    let mut game = create_lobby(&mut cfg, id(1), &mut a_bal, 1, 10).unwrap();
    cancel_lobby(&mut game, id(1), &mut a_bal).unwrap();
    let r = join_lobby(&mut game, id(2), &mut b_bal);
    assert_eq!(r, Err(EscrowError::GameNotActive));
    assert_eq!(b_bal, 50);
}

#[test]
fn join_with_poor_balance_fails() {
    let mut cfg = initialize(id(9));
    let mut a_bal: u64 = 50;
    let mut b_bal: u64 = 9;
    let mut game = create_lobby(&mut cfg, id(1), &mut a_bal, 1, 10).unwrap();
    let r = join_lobby(&mut game, id(2), &mut b_bal);
    assert_eq!(r, Err(EscrowError::InsufficientEscrow));
    assert_eq!(b_bal, 9);
    assert_eq!(game.holding, 10);
    assert!(game.record.player2.is_unset());
}

#[test]
fn join_overflowing_holding_fails() {
    let mut cfg = initialize(id(9));
    let mut a_bal: u64 = u64::MAX;
    let mut b_bal: u64 = u64::MAX;
    let mut game = create_lobby(&mut cfg, id(1), &mut a_bal, 1, u64::MAX).unwrap();
    let r = join_lobby(&mut game, id(2), &mut b_bal);
    assert_eq!(r, Err(EscrowError::Overflow));
    assert_eq!(b_bal, u64::MAX);
    assert_eq!(game.holding, u64::MAX);
    assert!(game.record.player2.is_unset());
}

#[test]
fn cancel_after_join_fails() {
    let mut cfg = initialize(id(9));
    let mut a_bal: u64 = 50;
    let mut b_bal: u64 = 50;
    let mut game = create_lobby(&mut cfg, id(1), &mut a_bal, 1, 10).unwrap();
    join_lobby(&mut game, id(2), &mut b_bal).unwrap();
    let r = cancel_lobby(&mut game, id(1), &mut a_bal);
    assert_eq!(r, Err(EscrowError::LobbyHasOpponent));
    assert_eq!(a_bal, 40);
    assert_eq!(game.holding, 20);
    assert!(game.record.active);
}

#[test]
fn cancel_by_non_creator_fails() {
    let mut cfg = initialize(id(9));
    let mut a_bal: u64 = 50;
    let mut x_bal: u64 = 50;
    let mut game = create_lobby(&mut cfg, id(1), &mut a_bal, 1, 10).unwrap();
    let r = cancel_lobby(&mut game, id(3), &mut x_bal);
    assert_eq!(r, Err(EscrowError::NotCreator));
    assert_eq!(x_bal, 50);
    assert_eq!(game.holding, 10);
    assert!(game.record.active);
}

#[test]
fn resolve_by_stranger_fails() {
    let cfg = initialize(id(9));
    let mut game = ready_game(10, 20);
    let before = game;
    let mut p1_bal: u64 = 0;
    let mut p2_bal: u64 = 0;
    let r = resolve_game(&cfg, &mut game, id(5), id(1), &mut p1_bal, &mut p2_bal);
    assert_eq!(r, Err(EscrowError::NotOwnerOrResolver));
    assert_eq!(game, before);
    assert_eq!(p1_bal, 0);
    assert_eq!(p2_bal, 0);
}

#[test]
fn resolve_open_lobby_fails() {
    let mut cfg = initialize(id(9));
    let mut a_bal: u64 = 50;
    let mut p2_bal: u64 = 0;
    let mut game = create_lobby(&mut cfg, id(1), &mut a_bal, 1, 10).unwrap();
    let r = resolve_game(&cfg, &mut game, id(9), id(1), &mut a_bal, &mut p2_bal);
    assert_eq!(r, Err(EscrowError::GameNotReady));
    assert_eq!(a_bal, 40);
    assert_eq!(game.holding, 10);
    assert!(game.record.active);
}

#[test]
fn resolve_with_unrelated_winner_fails() {
    let cfg = initialize(id(9));
    let mut game = ready_game(10, 20);
    let before = game;
    let mut p1_bal: u64 = 3;
    let mut p2_bal: u64 = 4;
    let r = resolve_game(&cfg, &mut game, id(9), id(5), &mut p1_bal, &mut p2_bal);
    assert_eq!(r, Err(EscrowError::InvalidWinner));
    // Balances and every record field are unchanged.
    assert_eq!(game, before);
    assert_eq!(p1_bal, 3);
    assert_eq!(p2_bal, 4);
}

#[test]
fn resolve_with_overflowing_pot_fails() {
    let cfg = initialize(id(9));
    let mut game = ready_game(u64::MAX / 2 + 1, u64::MAX);
    let before = game;
    let mut p1_bal: u64 = 0;
    let mut p2_bal: u64 = 0;
    let r = resolve_game(&cfg, &mut game, id(9), id(1), &mut p1_bal, &mut p2_bal);
    assert_eq!(r, Err(EscrowError::Overflow));
    assert_eq!(game, before);
}

#[test]
fn resolve_with_short_holding_fails() {
    let cfg = initialize(id(9));
    let mut game = ready_game(10, 19);
    let before = game;
    let mut p1_bal: u64 = 0;
    let mut p2_bal: u64 = 0;
    let r = resolve_game(&cfg, &mut game, id(9), id(1), &mut p1_bal, &mut p2_bal);
    assert_eq!(r, Err(EscrowError::InsufficientEscrow));
    assert_eq!(game, before);
    assert_eq!(p1_bal, 0);
}

#[test]
fn resolve_draw_with_zero_stake_fails() {
    let cfg = initialize(id(9));
    let mut game = ready_game(0, 0);
    let before = game;
    let mut p1_bal: u64 = 0;
    let mut p2_bal: u64 = 0;
    let r = resolve_game(&cfg, &mut game, id(9), Identity::unset(), &mut p1_bal, &mut p2_bal);
    assert_eq!(r, Err(EscrowError::StakeTooLow));
    assert_eq!(game, before);
}

#[test]
fn resolve_payout_overflowing_winner_balance_fails() {
    let cfg = initialize(id(9));
    let mut game = ready_game(10, 20);
    let before = game;
    let mut p1_bal: u64 = u64::MAX - 5;
    let mut p2_bal: u64 = 0;
    let r = resolve_game(&cfg, &mut game, id(9), id(1), &mut p1_bal, &mut p2_bal);
    assert_eq!(r, Err(EscrowError::Overflow));
    assert_eq!(game, before);
    assert_eq!(p1_bal, u64::MAX - 5);
    assert_eq!(p2_bal, 0);
}

#[test]
fn resolve_draw_overflowing_balance_fails() {
    let cfg = initialize(id(9));
    let mut game = ready_game(10, 20);
    let before = game;
    let mut p1_bal: u64 = 100;
    let mut p2_bal: u64 = u64::MAX - 5;
    let r = resolve_game(&cfg, &mut game, id(9), Identity::unset(), &mut p1_bal, &mut p2_bal);
    assert_eq!(r, Err(EscrowError::Overflow));
    // The first credit's room is not enough: nothing at all moves.
    assert_eq!(game, before);
    assert_eq!(p1_bal, 100);
    assert_eq!(p2_bal, u64::MAX - 5);
}
