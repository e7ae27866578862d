use duelpvp::accounts::{CloseDuel, SettleDuel, WithdrawTreasury};
use duelpvp::close::close_checked;
use duelpvp::create::{open_duel, Terms};
use duelpvp::dice::{next_coin, next_d6, roll_dice};
use duelpvp::errors::{DuelError, InstructionError};
use duelpvp::events::Settlement;
use duelpvp::join::enter;
use duelpvp::lamports::{move_lamports, push_payout, split_pot, vault_payout};
use duelpvp::pubkey::{same_bytes, zeroed, Pubkey};
use duelpvp::settle::{check_rolling, decide, settle_checked};
use duelpvp::state::{CoinSide, Duel, DuelStatus, GameKind, Treasury, WinCondition};
use duelpvp::treasury::take_from_treasury;
use duelpvp::{BPS_DENOMINATOR, DUEL_EXPIRY_SECONDS, HOUSE_FEE_BPS};

fn key(n: u8) -> Pubkey {
    Pubkey { bytes: [n; 32] }
}

const CREATOR: u8 = 1;
const OPPONENT: u8 = 2;
const TREASURY: u8 = 3;
const VAULT: u8 = 4;
const RANDOM: u8 = 5;
const BUMP: u8 = 254;
const GAME: u64 = 77;
const RENT: u64 = 300;

fn house(paused: bool, max: u64) -> Treasury {
    Treasury { admin: key(9), paused, max_bet_lamports: max, bump: 255 }
}

fn terms(kind: GameKind) -> Terms {
    Terms {
        game_id: GAME,
        bet_lamports: 1_000,
        win_condition: WinCondition::LowerWins,
        required_opponent: None,
        kind,
        creator_side: CoinSide::Tails,
    }
}

fn listed(kind: GameKind) -> Duel {
    open_duel(key(CREATOR), 250, &house(false, 0), 100, &terms(kind)).unwrap()
}

fn rolling(kind: GameKind) -> Duel {
    enter(&listed(kind), key(OPPONENT), &[7; 32], key(RANDOM)).unwrap()
}

fn settle_ctx(data: &[u8]) -> SettleDuel<'_> {
    SettleDuel {
        caller: key(8),
        creator: key(CREATOR),
        opponent: key(OPPONENT),
        treasury_key: key(TREASURY),
        treasury: Some(house(false, 0)),
        duel_key: key(6),
        duel: None,
        vault: key(VAULT),
        random: key(RANDOM),
        random_data: data,
    }
}

fn close_ctx(data: &[u8]) -> CloseDuel<'_> {
    CloseDuel {
        caller: key(CREATOR),
        creator: key(CREATOR),
        opponent: key(OPPONENT),
        treasury_key: key(TREASURY),
        treasury: Some(house(false, 0)),
        treasury_lamports: 5_000,
        vault: key(VAULT),
        random: key(RANDOM),
        random_data: data,
        duel_key: key(6),
        duel: None,
        duel_lamports: RENT,
    }
}

/// Random bytes whose first four dice are the given faces.
fn bytes_for(faces: [u8; 4]) -> [u8; 64] {
    let mut b = [255u8; 64];
    for i in 0..4 {
        b[2 * i + 1] = faces[i] - 1;
    }
    b
}

#[test]
fn constants() {
    assert_eq!(HOUSE_FEE_BPS, 100);
    assert_eq!(BPS_DENOMINATOR, 10_000);
    assert_eq!(DUEL_EXPIRY_SECONDS, 86_400);
}

#[test]
fn keys_are_compared_by_their_bytes() {
    assert!(key(1) == key(1));
    let mut k = key(1);
    k.bytes[31] = 0;
    assert!(k != key(1));
    assert_eq!(Pubkey::default().bytes, [0u8; 32]);
    assert!(same_bytes(&zeroed(), &[0u8; 32]));
    assert!(!same_bytes(&zeroed(), &k.bytes));
}

#[test]
fn die_skips_rejected_bytes() {
    let mut b = [255u8; 64];
    b[1] = 252;
    b[2] = 251;
    b[3] = 6;
    let mut cur = 0usize;
    assert_eq!(next_d6(&b, &mut cur), 6);
    assert_eq!(cur, 3);
    assert_eq!(next_d6(&b, &mut cur), 1);
    assert_eq!(cur, 4);
}

#[test]
fn die_falls_back_to_the_first_byte() {
    let mut b = [255u8; 64];
    let mut cur = 10usize;
    // 255 % 6 + 1
    assert_eq!(next_d6(&b, &mut cur), 4);
    assert_eq!(cur, 64);
    b[0] = 5;
    assert_eq!(next_d6(&b, &mut cur), 6);
    assert_eq!(cur, 64);
    let mut far = 100usize;
    assert_eq!(next_d6(&b, &mut far), 6);
    assert_eq!(far, 100);
}

#[test]
fn each_face_has_its_share_of_bytes() {
    let mut faces = [0u32; 7];
    for v in 0..=255u8 {
        let mut b = [255u8; 64];
        b[0] = v;
        let mut cur = 0usize;
        let die = next_d6(&b, &mut cur);
        if cur == 1 {
            faces[die as usize] += 1;
        }
    }
    assert_eq!(faces, [0, 42, 42, 42, 42, 42, 42]);
}

#[test]
fn each_side_has_its_share_of_bytes() {
    let mut heads = 0;
    for v in 0..=255u8 {
        let mut b = [1u8; 64];
        b[0] = v;
        if next_coin(&b) == CoinSide::Heads {
            heads += 1;
        }
    }
    assert_eq!(heads, 128);
    assert_eq!(next_coin(&[254; 64]), CoinSide::Heads);
    assert_eq!(next_coin(&[255; 64]), CoinSide::Tails);
}

#[test]
fn four_dice_in_order() {
    assert_eq!(roll_dice(&bytes_for([1, 2, 3, 4])), ([1, 2], [3, 4]));
    // Too few accepted bytes: the first byte stands in.
    let mut b = [253u8; 64];
    b[63] = 0;
    assert_eq!(roll_dice(&b), ([1, 2], [2, 2]));
}

#[test]
fn pot_is_split_at_one_percent() {
    assert_eq!(split_pot(1_000), Ok((1_980, 20)));
    assert_eq!(split_pot(1_049), Ok((2_078, 20)));
    assert_eq!(split_pot(49), Ok((98, 0)));
    assert_eq!(split_pot(50), Ok((99, 1)));
    assert_eq!(split_pot(0), Ok((0, 0)));
    let largest = u64::MAX / 200;
    assert_eq!(split_pot(largest), Ok((2 * largest - 2 * largest / 100, 2 * largest / 100)));
    assert_eq!(split_pot(largest + 1), Err(DuelError::MathOverflow));
    assert_eq!(split_pot(u64::MAX), Err(DuelError::MathOverflow));
}

#[test]
fn payout_of_nothing_is_no_transfer() {
    assert!(vault_payout(key(VAULT), key(CREATOR), 0, GAME, key(CREATOR), BUMP).is_none());
    let t = vault_payout(key(VAULT), key(OPPONENT), 5, GAME, key(CREATOR), BUMP).unwrap();
    assert_eq!((t.from, t.to, t.lamports), (key(VAULT), key(OPPONENT), 5));
    assert_eq!((t.signer.game_id, t.signer.creator, t.signer.bump), (GAME, key(CREATOR), BUMP));
    let mut list = Vec::new();
    push_payout(&mut list, None);
    assert_eq!(list.len(), 0);
    push_payout(&mut list, Some(t));
    assert_eq!(list.len(), 1);
}

#[test]
fn lamports_move_between_balances() {
    let (mut a, mut b) = (10u64, 5u64);
    assert_eq!(move_lamports(&mut a, &mut b, 4), Ok(()));
    assert_eq!((a, b), (6, 9));
    assert_eq!(move_lamports(&mut a, &mut b, 7), Err(DuelError::InsufficientFunds));
    assert_eq!((a, b), (6, 9));
    assert_eq!(move_lamports(&mut a, &mut b, 0), Ok(()));
    assert_eq!((a, b), (6, 9));
    let mut full = u64::MAX;
    assert_eq!(move_lamports(&mut a, &mut full, 1), Err(DuelError::MathOverflow));
    assert_eq!((a, full), (5, u64::MAX));
}

fn withdrawal(lamports: u64, to: u8, there: u64) -> WithdrawTreasury {
    WithdrawTreasury {
        admin: key(9),
        treasury_key: key(TREASURY),
        treasury: Some(house(false, 0)),
        treasury_lamports: lamports,
        destination: key(to),
        destination_lamports: there,
    }
}

#[test]
fn withdrawal_keeps_the_rent_reserve() {
    let violation = Err(InstructionError::Duel(DuelError::TreasuryRentViolation));
    let mut ctx = withdrawal(100, 7, 1);
    assert_eq!(take_from_treasury(&mut ctx, 30, 71), violation);
    assert_eq!((ctx.treasury_lamports, ctx.destination_lamports), (100, 1));
    assert_eq!(take_from_treasury(&mut ctx, 30, 70), Ok(()));
    assert_eq!((ctx.treasury_lamports, ctx.destination_lamports), (30, 71));
    assert_eq!(take_from_treasury(&mut ctx, 31, 0), violation);
    assert_eq!(take_from_treasury(&mut ctx, 30, 0), Ok(()));
    let mut ctx = withdrawal(100, 7, u64::MAX);
    assert_eq!(
        take_from_treasury(&mut ctx, 0, 1),
        Err(InstructionError::Duel(DuelError::MathOverflow))
    );
    assert_eq!(ctx.treasury_lamports, 100);
    let mut ctx = withdrawal(100, TREASURY, 100);
    assert_eq!(take_from_treasury(&mut ctx, 0, 1), Err(InstructionError::AccountBorrowFailed));
    assert_eq!(take_from_treasury(&mut ctx, 0, 0), Ok(()));
}

#[test]
fn new_duel_record() {
    let d = listed(GameKind::Dice);
    assert_eq!(d.game_id, GAME);
    assert_eq!(d.creator, key(CREATOR));
    assert_eq!(d.opponent, Pubkey::default());
    assert_eq!(d.required_opponent, None);
    assert_eq!(d.bet_lamports, 1_000);
    assert_eq!(d.status, DuelStatus::Waiting);
    assert_eq!(d.game_kind, GameKind::Dice);
    assert_eq!(d.force, [0; 32]);
    assert_eq!(d.randomness, Pubkey::default());
    assert_eq!((d.creator_dice, d.opponent_dice), ([0, 0], [0, 0]));
    assert_eq!(d.coin_result, CoinSide::Heads);
    assert_eq!(d.winner, Pubkey::default());
    assert!(!d.is_tie);
    assert_eq!((d.created_at, d.expiry), (100, 86_500));
    assert_eq!(d.bump, 250);
}

#[test]
fn terms_of_the_other_game_are_dropped() {
    let dice = listed(GameKind::Dice);
    assert_eq!((dice.win_condition, dice.creator_side), (WinCondition::LowerWins, CoinSide::Heads));
    let flip = listed(GameKind::CoinFlip);
    assert_eq!((flip.win_condition, flip.creator_side), (WinCondition::HigherWins, CoinSide::Tails));
}

#[test]
fn listing_errors() {
    let open = |t: &Treasury, bet: u64, now: i64| {
        let mut x = terms(GameKind::Dice);
        x.bet_lamports = bet;
        open_duel(key(CREATOR), 1, t, now, &x).map(|d| d.bet_lamports)
    };
    assert_eq!(open(&house(true, 5), 0, 0), Err(DuelError::InvalidBetAmount));
    assert_eq!(open(&house(true, 5), 6, 0), Err(DuelError::Paused));
    assert_eq!(open(&house(false, 5), 6, i64::MAX), Err(DuelError::BetTooLarge));
    assert_eq!(open(&house(false, 5), 5, 0), Ok(5));
    assert_eq!(open(&house(false, 0), u64::MAX, 0), Ok(u64::MAX));
    assert_eq!(open(&house(false, 0), 1, i64::MAX - 86_400), Ok(1));
    assert_eq!(open(&house(false, 0), 1, i64::MAX - 86_399), Err(DuelError::MathOverflow));
}

#[test]
fn joining_rules() {
    let mut d = listed(GameKind::Dice);
    let err = |d: &Duel, who: u8, force: [u8; 32]| enter(d, key(who), &force, key(RANDOM)).err();
    assert_eq!(err(&d, CREATOR, [7; 32]), Some(DuelError::CannotJoinOwnDuel));
    assert_eq!(err(&d, OPPONENT, [0; 32]), Some(DuelError::BadForce));
    d.required_opponent = Some(key(20));
    assert_eq!(err(&d, OPPONENT, [7; 32]), Some(DuelError::NotInvitedOpponent));
    assert_eq!(err(&d, 20, [7; 32]), None);
    d.status = DuelStatus::Rolling;
    assert_eq!(err(&d, 20, [7; 32]), Some(DuelError::InvalidState));
    d.status = DuelStatus::Settled;
    assert_eq!(err(&d, 20, [7; 32]), Some(DuelError::InvalidState));
}

#[test]
fn joined_record() {
    let d = rolling(GameKind::Dice);
    assert_eq!(d.status, DuelStatus::Rolling);
    assert_eq!(d.opponent, key(OPPONENT));
    assert_eq!(d.force, [7; 32]);
    assert_eq!(d.randomness, key(RANDOM));
    assert_eq!(d.bet_lamports, 1_000);
    assert_eq!(enter(&d, key(9), &[1; 32], key(9)).err(), Some(DuelError::InvalidState));
}

#[test]
fn dice_decisions() {
    let mut d = rolling(GameKind::Dice);
    assert_eq!(decide(&mut d, &bytes_for([1, 2, 3, 4])), (true, false));
    assert_eq!((d.creator_dice, d.opponent_dice), ([1, 2], [3, 4]));
    assert_eq!(d.winner, key(CREATOR));
    assert_eq!(d.status, DuelStatus::Settled);
    assert!(!d.is_tie);

    let mut d = rolling(GameKind::Dice);
    d.win_condition = WinCondition::HigherWins;
    assert_eq!(decide(&mut d, &bytes_for([1, 2, 3, 4])), (false, false));
    assert_eq!(d.winner, key(OPPONENT));

    let mut d = rolling(GameKind::Dice);
    assert_eq!(decide(&mut d, &bytes_for([6, 1, 3, 4])), (false, true));
    assert_eq!(d.winner, Pubkey::default());
    assert!(d.is_tie);
}

#[test]
fn coin_decisions() {
    let mut d = rolling(GameKind::CoinFlip);
    assert_eq!(decide(&mut d, &[3; 64]), (true, false));
    assert_eq!((d.coin_result, d.winner), (CoinSide::Tails, key(CREATOR)));
    let mut d = rolling(GameKind::CoinFlip);
    assert_eq!(decide(&mut d, &[4; 64]), (false, false));
    assert_eq!((d.coin_result, d.winner), (CoinSide::Heads, key(OPPONENT)));
    assert_eq!((d.creator_dice, d.opponent_dice), ([0, 0], [0, 0]));
    assert!(!d.is_tie);
}

#[test]
fn settlement_pays_winner_and_house() {
    let d = rolling(GameKind::Dice);
    let (next, out) =
        settle_checked(&settle_ctx(&[]), &d, GAME, BUMP, Ok(bytes_for([1, 1, 6, 6]))).unwrap();
    assert_eq!(next.status, DuelStatus::Settled);
    let paid: Vec<(Pubkey, Pubkey, u64)> =
        out.payouts.iter().map(|t| (t.from, t.to, t.lamports)).collect();
    assert_eq!(
        paid,
        vec![(key(VAULT), key(CREATOR), 1_980), (key(VAULT), key(TREASURY), 20)]
    );
    assert_eq!(out.payouts[1].signer.game_id, GAME);
    assert_eq!(out.payouts[1].signer.creator, key(CREATOR));
    assert_eq!(out.payouts[1].signer.bump, BUMP);
    match out.event {
        Settlement::Dice(e) => {
            assert_eq!((e.game_id, e.winner, e.is_tie), (GAME, key(CREATOR), false));
            assert_eq!((e.creator_dice, e.opponent_dice), ([1, 1], [6, 6]));
        }
        Settlement::CoinFlip(_) => panic!("a dice duel"),
    }
}

#[test]
fn settlement_of_a_tie_returns_the_stakes() {
    let mut d = rolling(GameKind::Dice);
    d.bet_lamports = u64::MAX;
    let (next, out) =
        settle_checked(&settle_ctx(&[]), &d, GAME, BUMP, Ok(bytes_for([2, 3, 1, 4]))).unwrap();
    assert!(next.is_tie);
    let paid: Vec<(Pubkey, u64)> = out.payouts.iter().map(|t| (t.to, t.lamports)).collect();
    assert_eq!(paid, vec![(key(CREATOR), u64::MAX), (key(OPPONENT), u64::MAX)]);
    match out.event {
        Settlement::Dice(e) => assert!(e.is_tie && e.winner == Pubkey::default()),
        Settlement::CoinFlip(_) => panic!("a dice duel"),
    }
}

#[test]
fn settlement_of_a_coin_flip() {
    let mut d = rolling(GameKind::CoinFlip);
    d.bet_lamports = 49;
    let (_, out) = settle_checked(&settle_ctx(&[]), &d, GAME, BUMP, Ok([2; 64])).unwrap();
    // The fee of a pot under 100 lamports is nothing.
    let paid: Vec<(Pubkey, u64)> = out.payouts.iter().map(|t| (t.to, t.lamports)).collect();
    assert_eq!(paid, vec![(key(OPPONENT), 98)]);
    match out.event {
        Settlement::CoinFlip(e) => {
            assert_eq!((e.game_id, e.winner), (GAME, key(OPPONENT)));
            assert_eq!((e.creator_side, e.coin_result), (CoinSide::Tails, CoinSide::Heads));
        }
        Settlement::Dice(_) => panic!("a coin flip"),
    }
}

#[test]
fn settlement_errors() {
    let ctx = settle_ctx(&[]);
    let settle = |d: &Duel, r: Result<[u8; 64], DuelError>| {
        settle_checked(&ctx, d, GAME, BUMP, r).err()
    };
    let ready = Ok(bytes_for([1, 1, 6, 6]));
    assert_eq!(settle(&listed(GameKind::Dice), ready), Some(DuelError::InvalidState));
    let mut d = rolling(GameKind::Dice);
    assert_eq!(
        settle(&d, Err(DuelError::RandomnessNotReady)),
        Some(DuelError::RandomnessNotReady)
    );
    d.bet_lamports = u64::MAX / 200 + 1;
    assert_eq!(settle(&d, ready), Some(DuelError::MathOverflow));
    d.randomness = key(50);
    assert_eq!(settle(&d, ready), Some(DuelError::RandomnessMismatch));
    let (next, _) = settle_checked(&ctx, &rolling(GameKind::Dice), GAME, BUMP, ready).unwrap();
    assert_eq!(settle(&next, ready), Some(DuelError::InvalidState));
}

#[test]
fn cancelling_a_listing() {
    let d = listed(GameKind::Dice);
    let out = close_checked(&mut close_ctx(&[]), &d, 0, RENT, GAME, BUMP, false).unwrap();
    let paid: Vec<(Pubkey, u64)> = out.payouts.iter().map(|t| (t.to, t.lamports)).collect();
    assert_eq!(paid, vec![(key(CREATOR), 1_000)]);
    assert_eq!(out.rent_to, key(CREATOR));
    assert_eq!((out.event.game_id, out.event.refunded), (GAME, true));
    let mut ctx = close_ctx(&[]);
    ctx.caller = key(OPPONENT);
    assert_eq!(
        close_checked(&mut ctx, &d, i64::MAX, RENT, GAME, BUMP, false).err(),
        Some(DuelError::Unauthorized)
    );
}

#[test]
fn refunding_a_stuck_duel() {
    let d = rolling(GameKind::Dice);
    let mut ctx = close_ctx(&[]);
    ctx.caller = key(99);
    let close = |ctx: &CloseDuel, now: i64, done: bool| {
        let mut ctx = *ctx;
        close_checked(&mut ctx, &d, now, RENT, GAME, BUMP, done).err()
    };
    assert_eq!(close(&ctx, d.expiry, false), Some(DuelError::NotExpired));
    assert_eq!(close(&ctx, d.expiry + 1, true), Some(DuelError::AlreadyFulfilled));
    let out = close_checked(&mut ctx.clone(), &d, d.expiry + 1, 0, GAME, BUMP, false).unwrap();
    let paid: Vec<(Pubkey, u64)> = out.payouts.iter().map(|t| (t.to, t.lamports)).collect();
    assert_eq!(paid, vec![(key(OPPONENT), 1_000), (key(CREATOR), 1_000)]);
    assert!(out.event.refunded);
    // The record of a refunded duel goes back whole.
    assert_eq!((out.residual, out.rent), (0, RENT));
    ctx.opponent = key(98);
    assert_eq!(close(&ctx, d.expiry + 1, false), Some(DuelError::Unauthorized));
    ctx.random = key(97);
    assert_eq!(close(&ctx, d.expiry + 1, false), Some(DuelError::RandomnessMismatch));
}

#[test]
fn closing_a_settled_duel_pays_nothing() {
    let mut d = rolling(GameKind::CoinFlip);
    decide(&mut d, &[0; 64]);
    let mut ctx = close_ctx(&[]);
    ctx.caller = key(99);
    let out = close_checked(&mut ctx, &d, 0, RENT, GAME, BUMP, true).unwrap();
    assert_eq!(out.payouts.len(), 0);
    assert_eq!(out.rent_to, key(CREATOR));
    assert!(!out.event.refunded);
    assert_eq!((out.residual, out.rent), (0, RENT));
    assert_eq!((ctx.duel_lamports, ctx.treasury_lamports), (RENT, 5_000));
}

#[test]
fn closing_a_settled_duel_sweeps_the_residual() {
    let mut d = rolling(GameKind::CoinFlip);
    decide(&mut d, &[0; 64]);
    let mut ctx = close_ctx(&[]);
    ctx.duel = Some(d);
    ctx.duel_lamports = RENT + 20;
    let out = close_checked(&mut ctx, &d, 0, RENT, GAME, BUMP, true).unwrap();
    assert_eq!(out.payouts.len(), 0);
    assert_eq!((out.residual, out.rent, out.rent_to), (20, RENT, key(CREATOR)));
    assert!(!out.event.refunded);
    assert_eq!((ctx.duel_lamports, ctx.treasury_lamports), (RENT, 5_020));
    assert!(ctx.duel.is_none());

    // A record below its rent reserve has no residual.
    let mut ctx = close_ctx(&[]);
    ctx.duel_lamports = RENT - 1;
    let out = close_checked(&mut ctx, &d, 0, RENT, GAME, BUMP, true).unwrap();
    assert_eq!((out.residual, out.rent), (0, RENT - 1));

    // A treasury that cannot take the residual.
    let mut ctx = close_ctx(&[]);
    ctx.duel = Some(d);
    ctx.duel_lamports = RENT + 20;
    ctx.treasury_lamports = u64::MAX - 19;
    assert_eq!(
        close_checked(&mut ctx, &d, 0, RENT, GAME, BUMP, true).err(),
        Some(DuelError::MathOverflow)
    );
    assert_eq!((ctx.duel_lamports, ctx.treasury_lamports), (RENT + 20, u64::MAX - 19));
    assert!(ctx.duel.is_some());
}

#[test]
fn only_a_settled_duel_has_a_residual() {
    let d = listed(GameKind::Dice);
    let mut ctx = close_ctx(&[]);
    ctx.duel_lamports = RENT + 20;
    let out = close_checked(&mut ctx, &d, 0, RENT, GAME, BUMP, false).unwrap();
    assert_eq!((out.residual, out.rent, out.rent_to), (0, RENT + 20, key(CREATOR)));
    assert_eq!(ctx.treasury_lamports, 5_000);
}

#[test]
fn a_duel_waits_for_its_own_randomness() {
    let d = rolling(GameKind::Dice);
    assert_eq!(check_rolling(&d, &key(RANDOM)), Ok(()));
    assert_eq!(check_rolling(&d, &key(51)), Err(DuelError::RandomnessMismatch));
    assert_eq!(
        check_rolling(&listed(GameKind::Dice), &key(RANDOM)),
        Err(DuelError::InvalidState)
    );
}
