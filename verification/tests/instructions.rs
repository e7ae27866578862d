use anchor_lang::prelude::Pubkey as Address;
use anchor_lang::AccountSerialize;
use duelpvp::accounts::{
    AdminOnly, CloseDuel, CreateDuel, InitializeTreasury, JoinDuel, SettleDuel, WithdrawTreasury,
};
use duelpvp::address::program_id;
use duelpvp::close::close_duel;
use duelpvp::create::create_duel;
use duelpvp::errors::{DuelError, InstructionError};
use duelpvp::join::join_duel;
use duelpvp::pubkey::Pubkey;
use duelpvp::settle::settle_duel;
use duelpvp::state::{CoinSide, Duel, DuelStatus, GameKind, Treasury, WinCondition};
use duelpvp::treasury::{initialize_treasury, set_max_bet, set_paused, withdraw_treasury};
use orao_solana_vrf::state::{FulfilledRequest, PendingRequest, RandomnessV2, Request};

const GAME: u64 = 0x0102030405060708;
const FORCE: [u8; 32] = [7; 32];
const NOW: i64 = 1_700_000_000;
const RENT: u64 = 300;

fn key(n: u8) -> Pubkey {
    Pubkey { bytes: [n; 32] }
}

fn address(k: Pubkey) -> Address {
    Address::new_from_array(k.bytes)
}

fn find(seeds: &[&[u8]], program: &Address) -> (Pubkey, u8) {
    let (k, bump) = Address::find_program_address(seeds, program);
    (Pubkey { bytes: k.to_bytes() }, bump)
}

fn own(seeds: &[&[u8]]) -> (Pubkey, u8) {
    find(seeds, &address(program_id()))
}

fn creator() -> Pubkey {
    key(1)
}

fn opponent() -> Pubkey {
    key(2)
}

fn admin() -> Pubkey {
    key(3)
}

fn treasury_key() -> Pubkey {
    own(&[b"treasury"]).0
}

fn treasury() -> Treasury {
    Treasury {
        admin: admin(),
        paused: false,
        max_bet_lamports: 0,
        bump: own(&[b"treasury"]).1,
    }
}

fn duel_key() -> (Pubkey, u8) {
    own(&[b"duel", &GAME.to_le_bytes(), &creator().bytes])
}

fn vault_key() -> (Pubkey, u8) {
    own(&[b"vault", &GAME.to_le_bytes(), &creator().bytes])
}

fn random_key() -> Pubkey {
    find(&[orao_solana_vrf::RANDOMNESS_ACCOUNT_SEED, &FORCE], &orao_solana_vrf::ID).0
}

fn program_data(authority: Option<Pubkey>) -> Vec<u8> {
    let mut d = vec![3, 0, 0, 0, 9, 0, 0, 0, 0, 0, 0, 0];
    match authority {
        Some(k) => {
            d.push(1);
            d.extend_from_slice(&k.bytes);
        }
        None => d.push(0),
    }
    d.extend_from_slice(b"the program's code");
    d
}

fn setup(data: &[u8]) -> InitializeTreasury<'_> {
    let loader = anchor_lang::solana_program::bpf_loader_upgradeable::ID;
    InitializeTreasury {
        admin: admin(),
        treasury_key: treasury_key(),
        treasury: None,
        program_data_key: find(&[&program_id().bytes], &loader).0,
        program_data_owner: Pubkey { bytes: loader.to_bytes() },
        program_data: data,
    }
}

fn creation() -> CreateDuel {
    CreateDuel {
        creator: creator(),
        duel_key: duel_key().0,
        duel: None,
        vault: vault_key().0,
        treasury_key: treasury_key(),
        treasury: Some(treasury()),
    }
}

fn create(ctx: &mut CreateDuel, kind: GameKind) -> Result<u64, InstructionError> {
    create_duel(
        ctx,
        NOW,
        GAME,
        1_000,
        WinCondition::HigherWins,
        None,
        kind,
        CoinSide::Tails,
    )
    .map(|o| o.stake.lamports)
}

fn listed(kind: GameKind) -> Duel {
    let mut ctx = creation();
    assert_eq!(create(&mut ctx, kind), Ok(1_000));
    ctx.duel.unwrap()
}

fn joining(duel: Option<Duel>) -> JoinDuel {
    JoinDuel {
        opponent: opponent(),
        creator: creator(),
        duel_key: duel_key().0,
        duel,
        vault: vault_key().0,
        vrf_config: find(&[orao_solana_vrf::CONFIG_ACCOUNT_SEED], &orao_solana_vrf::ID).0,
        vrf_treasury: key(40),
        random: random_key(),
    }
}

fn rolling(kind: GameKind) -> Duel {
    let mut ctx = joining(Some(listed(kind)));
    join_duel(&mut ctx, GAME, FORCE).unwrap();
    ctx.duel.unwrap()
}

fn settling(duel: Option<Duel>, data: &[u8]) -> SettleDuel<'_> {
    SettleDuel {
        caller: key(50),
        creator: creator(),
        opponent: opponent(),
        treasury_key: treasury_key(),
        treasury: Some(treasury()),
        duel_key: duel_key().0,
        duel,
        vault: vault_key().0,
        random: random_key(),
        random_data: data,
    }
}

fn closing(duel: Option<Duel>, data: &[u8]) -> CloseDuel<'_> {
    CloseDuel {
        caller: creator(),
        creator: creator(),
        opponent: opponent(),
        treasury_key: treasury_key(),
        treasury: Some(treasury()),
        treasury_lamports: 5_000,
        vault: vault_key().0,
        random: random_key(),
        random_data: data,
        duel_key: duel_key().0,
        duel,
        duel_lamports: RENT,
    }
}

fn written(request: Request) -> Vec<u8> {
    let mut out = Vec::new();
    RandomnessV2 { request }.try_serialize(&mut out).unwrap();
    out
}

fn fulfilled(randomness: [u8; 64]) -> Vec<u8> {
    written(Request::Fulfilled(FulfilledRequest {
        client: address(program_id()),
        seed: FORCE,
        randomness,
    }))
}

fn pending() -> Vec<u8> {
    written(Request::Pending(PendingRequest {
        client: address(program_id()),
        seed: FORCE,
        responses: Vec::new(),
    }))
}

#[test]
fn setup_by_the_upgrade_authority() {
    let data = program_data(Some(admin()));
    let mut ctx = setup(&data);
    assert_eq!(initialize_treasury(&mut ctx), Ok(()));
    let t = ctx.treasury.unwrap();
    assert_eq!((t.admin, t.paused, t.max_bet_lamports), (admin(), false, 0));
    assert_eq!(t.bump, own(&[b"treasury"]).1);
    // Once is enough.
    assert_eq!(initialize_treasury(&mut ctx), Err(InstructionError::AccountAlreadyInUse));
}

#[test]
fn setup_by_anyone_else() {
    let unauthorized = Err(InstructionError::Duel(DuelError::Unauthorized));
    let someone = program_data(Some(key(60)));
    assert_eq!(initialize_treasury(&mut setup(&someone)), unauthorized);
    let nobody = program_data(None);
    assert_eq!(initialize_treasury(&mut setup(&nobody)), unauthorized);
    let cut = program_data(Some(admin()));
    assert_eq!(initialize_treasury(&mut setup(&cut[..20])), unauthorized);
    let mut buffer = program_data(Some(admin()));
    buffer[0] = 1;
    assert_eq!(initialize_treasury(&mut setup(&buffer)), unauthorized);
    let data = program_data(Some(admin()));
    let mut ctx = setup(&data);
    ctx.program_data_owner = key(61);
    assert_eq!(initialize_treasury(&mut ctx), unauthorized);
    assert!(ctx.treasury.is_none());
}

#[test]
fn setup_with_wrong_addresses() {
    let data = program_data(Some(admin()));
    let mut ctx = setup(&data);
    ctx.treasury_key = key(62);
    assert_eq!(initialize_treasury(&mut ctx), Err(InstructionError::ConstraintSeeds));
    let mut ctx = setup(&data);
    ctx.program_data_key = key(63);
    assert_eq!(initialize_treasury(&mut ctx), Err(InstructionError::ConstraintSeeds));
}

#[test]
fn settings_are_the_admins() {
    let mut ctx = AdminOnly {
        admin: admin(),
        treasury_key: treasury_key(),
        treasury: Some(treasury()),
    };
    assert_eq!(set_paused(&mut ctx, true), Ok(()));
    assert_eq!(set_max_bet(&mut ctx, 500), Ok(()));
    let t = ctx.treasury.unwrap();
    assert_eq!((t.admin, t.paused, t.max_bet_lamports), (admin(), true, 500));
    assert_eq!(set_paused(&mut ctx, false), Ok(()));
    assert!(!ctx.treasury.unwrap().paused);
    ctx.admin = key(64);
    let unauthorized = Err(InstructionError::Duel(DuelError::Unauthorized));
    assert_eq!(set_paused(&mut ctx, true), unauthorized);
    assert_eq!(set_max_bet(&mut ctx, 1), unauthorized);
    assert_eq!(ctx.treasury.unwrap().max_bet_lamports, 500);
    ctx.treasury_key = key(65);
    assert_eq!(set_paused(&mut ctx, true), Err(InstructionError::ConstraintSeeds));
    ctx.treasury = None;
    assert_eq!(set_paused(&mut ctx, true), Err(InstructionError::AccountNotInitialized));
}

#[test]
fn withdrawal_by_the_admin() {
    let mut ctx = WithdrawTreasury {
        admin: admin(),
        treasury_key: treasury_key(),
        treasury: Some(treasury()),
        treasury_lamports: 1_000,
        destination: key(66),
        destination_lamports: 10,
    };
    assert_eq!(withdraw_treasury(&mut ctx, 900, 100), Ok(()));
    assert_eq!((ctx.treasury_lamports, ctx.destination_lamports), (900, 110));
    assert_eq!(
        withdraw_treasury(&mut ctx, 900, 1),
        Err(InstructionError::Duel(DuelError::TreasuryRentViolation))
    );
    ctx.admin = key(67);
    assert_eq!(
        withdraw_treasury(&mut ctx, 0, 1),
        Err(InstructionError::Duel(DuelError::Unauthorized))
    );
    assert_eq!(ctx.treasury_lamports, 900);
}

#[test]
fn listing_a_duel() {
    let mut ctx = creation();
    let out = create_duel(
        &mut ctx,
        NOW,
        GAME,
        1_000,
        WinCondition::HigherWins,
        Some(opponent()),
        GameKind::Dice,
        CoinSide::Tails,
    )
    .unwrap();
    assert_eq!((out.stake.from, out.stake.to), (creator(), vault_key().0));
    assert_eq!(out.stake.lamports, 1_000);
    assert_eq!((out.event.game_id, out.event.creator), (GAME, creator()));
    assert_eq!((out.event.bet_lamports, out.event.required_opponent), (1_000, Some(opponent())));
    assert_eq!((out.event.game_kind, out.event.creator_side), (GameKind::Dice, CoinSide::Heads));
    let d = ctx.duel.unwrap();
    assert_eq!((d.bump, d.expiry), (duel_key().1, NOW + 86_400));
    // The record exists now.
    assert_eq!(create(&mut ctx, GameKind::Dice), Err(InstructionError::AccountAlreadyInUse));
}

#[test]
fn listing_is_refused() {
    let mut ctx = creation();
    ctx.treasury = None;
    assert_eq!(create(&mut ctx, GameKind::Dice), Err(InstructionError::AccountNotInitialized));
    let mut ctx = creation();
    ctx.duel_key = key(70);
    assert_eq!(create(&mut ctx, GameKind::Dice), Err(InstructionError::ConstraintSeeds));
    let mut ctx = creation();
    ctx.vault = key(71);
    assert_eq!(create(&mut ctx, GameKind::Dice), Err(InstructionError::ConstraintSeeds));
    let mut ctx = creation();
    ctx.treasury_key = key(72);
    assert_eq!(create(&mut ctx, GameKind::Dice), Err(InstructionError::ConstraintSeeds));
    let mut ctx = creation();
    ctx.treasury.as_mut().unwrap().paused = true;
    assert_eq!(
        create(&mut ctx, GameKind::Dice),
        Err(InstructionError::Duel(DuelError::Paused))
    );
    assert!(ctx.duel.is_none());
}

#[test]
fn joining_a_duel() {
    let mut ctx = joining(Some(listed(GameKind::CoinFlip)));
    let out = join_duel(&mut ctx, GAME, FORCE).unwrap();
    assert_eq!((out.stake.from, out.stake.to), (opponent(), vault_key().0));
    assert_eq!(out.stake.lamports, 1_000);
    assert_eq!((out.request.payer, out.request.request), (opponent(), random_key()));
    assert_eq!((out.request.network_state, out.request.treasury), (ctx.vrf_config, key(40)));
    assert_eq!(out.request.seed, FORCE);
    assert_eq!((out.event.game_id, out.event.opponent), (GAME, opponent()));
    assert_eq!(out.event.randomness, random_key());
    assert_eq!(ctx.duel.unwrap().status, DuelStatus::Rolling);
    assert_eq!(
        join_duel(&mut ctx, GAME, FORCE).err(),
        Some(InstructionError::Duel(DuelError::InvalidState))
    );
}

#[test]
fn joining_is_refused() {
    let d = listed(GameKind::Dice);
    let err = |ctx: JoinDuel, game: u64, force: [u8; 32]| {
        let mut ctx = ctx;
        join_duel(&mut ctx, game, force).err()
    };
    let seeds = Some(InstructionError::ConstraintSeeds);
    assert_eq!(err(joining(None), GAME, FORCE), Some(InstructionError::AccountNotInitialized));
    assert_eq!(err(joining(Some(d)), GAME + 1, FORCE), seeds);
    assert_eq!(err(joining(Some(d)), GAME, [8; 32]), seeds);
    let mut ctx = joining(Some(d));
    ctx.vault = key(73);
    assert_eq!(err(ctx, GAME, FORCE), seeds);
    let mut ctx = joining(Some(d));
    ctx.vrf_config = key(74);
    assert_eq!(err(ctx, GAME, FORCE), seeds);
    let mut other = d;
    other.creator = key(75);
    assert_eq!(err(joining(Some(other)), GAME, FORCE), Some(InstructionError::ConstraintHasOne));
    let mut ctx = joining(Some(d));
    ctx.opponent = creator();
    assert_eq!(
        err(ctx, GAME, FORCE),
        Some(InstructionError::Duel(DuelError::CannotJoinOwnDuel))
    );
}

#[test]
fn settling_with_fulfilled_randomness() {
    // Dice 1 and 2 against 3 and 4.
    let mut random = [255u8; 64];
    random[1..5].copy_from_slice(&[0, 1, 2, 3]);
    let data = fulfilled(random);
    let mut ctx = settling(Some(rolling(GameKind::Dice)), &data);
    let out = settle_duel(&mut ctx, GAME).unwrap();
    let d = ctx.duel.unwrap();
    assert_eq!((d.status, d.winner), (DuelStatus::Settled, opponent()));
    assert_eq!((d.creator_dice, d.opponent_dice), ([1, 2], [3, 4]));
    let paid: Vec<(Pubkey, u64)> = out.payouts.iter().map(|t| (t.to, t.lamports)).collect();
    assert_eq!(paid, vec![(opponent(), 1_980), (treasury_key(), 20)]);
    // The seeds of a payout are those of the vault it leaves.
    let seeds = out.payouts[0].signer.make_seeds();
    let refs: Vec<&[u8]> = seeds.iter().map(|s| s.as_slice()).collect();
    let signer = Address::create_program_address(&refs, &address(program_id())).unwrap();
    assert_eq!(signer, address(out.payouts[0].from));
    assert_eq!(out.payouts[0].from, vault_key().0);
    assert_eq!(
        settle_duel(&mut ctx, GAME).err(),
        Some(InstructionError::Duel(DuelError::InvalidState))
    );
}

#[test]
fn settling_waits_for_randomness() {
    let not_ready = Some(InstructionError::Duel(DuelError::RandomnessNotReady));
    let d = Some(rolling(GameKind::CoinFlip));
    let waiting = pending();
    assert_eq!(settle_duel(&mut settling(d, &waiting), GAME).err(), not_ready);
    assert_eq!(settle_duel(&mut settling(d, &[]), GAME).err(), not_ready);
    assert_eq!(settle_duel(&mut settling(d, &[1; 200]), GAME).err(), not_ready);
    let data = fulfilled([1; 64]);
    let mut ctx = settling(d, &data);
    assert!(settle_duel(&mut ctx, GAME).is_ok());
    assert_eq!(ctx.duel.unwrap().winner, creator());
}

#[test]
fn settling_is_refused() {
    let data = fulfilled([1; 64]);
    let d = rolling(GameKind::CoinFlip);
    let err = |ctx: SettleDuel, game: u64| {
        let mut ctx = ctx;
        settle_duel(&mut ctx, game).err()
    };
    let seeds = Some(InstructionError::ConstraintSeeds);
    assert_eq!(err(settling(None, &data), GAME), Some(InstructionError::AccountNotInitialized));
    let mut ctx = settling(Some(d), &data);
    ctx.treasury = None;
    assert_eq!(err(ctx, GAME), Some(InstructionError::AccountNotInitialized));
    let mut ctx = settling(Some(d), &data);
    ctx.opponent = key(80);
    assert_eq!(err(ctx, GAME), Some(InstructionError::ConstraintAddress));
    let mut ctx = settling(Some(d), &data);
    ctx.treasury_key = key(81);
    assert_eq!(err(ctx, GAME), seeds);
    assert_eq!(err(settling(Some(d), &data), GAME + 1), seeds);
    let mut ctx = settling(Some(d), &data);
    ctx.vault = key(82);
    assert_eq!(err(ctx, GAME), seeds);
    let mut other = d;
    other.creator = key(83);
    assert_eq!(err(settling(Some(other), &data), GAME), Some(InstructionError::ConstraintHasOne));
    let mut ctx = settling(Some(d), &data);
    ctx.random = key(84);
    assert_eq!(err(ctx, GAME), Some(InstructionError::Duel(DuelError::RandomnessMismatch)));
}

#[test]
fn closing_a_listing() {
    let mut ctx = closing(Some(listed(GameKind::Dice)), &[]);
    ctx.opponent = creator();
    let out = close_duel(&mut ctx, NOW, RENT, GAME).unwrap();
    let paid: Vec<(Pubkey, Pubkey, u64)> =
        out.payouts.iter().map(|t| (t.from, t.to, t.lamports)).collect();
    assert_eq!(paid, vec![(vault_key().0, creator(), 1_000)]);
    assert_eq!(out.payouts[0].signer.bump, vault_key().1);
    assert_eq!((out.rent_to, out.event.refunded), (creator(), true));
    // The record is gone.
    assert!(ctx.duel.is_none());
    assert_eq!(
        close_duel(&mut ctx, NOW, RENT, GAME).err(),
        Some(InstructionError::AccountNotInitialized)
    );
}

#[test]
fn refund_and_settlement_exclude_each_other() {
    let d = rolling(GameKind::CoinFlip);
    let late = d.expiry + 1;
    let data = fulfilled([1; 64]);
    assert_eq!(
        close_duel(&mut closing(Some(d), &data), late, RENT, GAME).err(),
        Some(InstructionError::Duel(DuelError::AlreadyFulfilled))
    );
    assert!(settle_duel(&mut settling(Some(d), &data), GAME).is_ok());
    let waiting = pending();
    for data in [&waiting[..], &[][..], &[9u8; 100][..]] {
        assert_eq!(
            close_duel(&mut closing(Some(d), data), d.expiry, RENT, GAME).err(),
            Some(InstructionError::Duel(DuelError::NotExpired))
        );
        let out = close_duel(&mut closing(Some(d), data), late, RENT, GAME).unwrap();
        let paid: Vec<(Pubkey, u64)> = out.payouts.iter().map(|t| (t.to, t.lamports)).collect();
        assert_eq!(paid, vec![(opponent(), 1_000), (creator(), 1_000)]);
        assert!(settle_duel(&mut settling(Some(d), data), GAME).is_err());
    }
}

#[test]
fn closing_is_refused() {
    let d = listed(GameKind::Dice);
    let err = |ctx: CloseDuel, game: u64| {
        let mut ctx = ctx;
        close_duel(&mut ctx, NOW, RENT, game).err()
    };
    let seeds = Some(InstructionError::ConstraintSeeds);
    let mut ctx = closing(Some(d), &[]);
    ctx.treasury_key = key(90);
    assert_eq!(err(ctx, GAME), seeds);
    let mut ctx = closing(Some(d), &[]);
    ctx.vault = key(91);
    assert_eq!(err(ctx, GAME), seeds);
    assert_eq!(err(closing(Some(d), &[]), GAME + 1), seeds);
    let mut ctx = closing(Some(d), &[]);
    ctx.duel_key = key(92);
    assert_eq!(err(ctx, GAME), seeds);
    let mut other = d;
    other.creator = key(93);
    assert_eq!(err(closing(Some(other), &[]), GAME), Some(InstructionError::ConstraintHasOne));
    let mut ctx = closing(Some(d), &[]);
    ctx.caller = opponent();
    assert_eq!(err(ctx, GAME), Some(InstructionError::Duel(DuelError::Unauthorized)));
}

#[test]
fn the_vault_ends_empty() {
    let mut ctx = creation();
    let mut vault = create(&mut ctx, GameKind::Dice).unwrap();
    let mut ctx = joining(ctx.duel);
    vault += join_duel(&mut ctx, GAME, FORCE).unwrap().stake.lamports;
    assert_eq!(vault, 2_000);
    let data = fulfilled([3; 64]);
    let mut ctx = settling(ctx.duel, &data);
    for t in settle_duel(&mut ctx, GAME).unwrap().payouts {
        vault -= t.lamports;
    }
    assert_eq!(vault, 0);
    let mut ctx = closing(ctx.duel, &data);
    ctx.duel_lamports = RENT + 7;
    let out = close_duel(&mut ctx, NOW, RENT, GAME).unwrap();
    assert_eq!(out.payouts.len(), 0);
    // What the record holds above its rent is the treasury's.
    assert_eq!((out.residual, out.rent, out.rent_to), (7, RENT, creator()));
    assert_eq!((ctx.treasury_lamports, ctx.duel_lamports), (5_007, RENT));
    assert!(ctx.duel.is_none());
}
