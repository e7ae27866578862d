//! When each instruction goes through, and why it is refused.
use crate::accounts::{
    CloseDuel, CreateDuel, InitializeTreasury, JoinDuel, SettleDuel, WithdrawTreasury,
};
use crate::accounts::admin_error;
use crate::address::{
    address_at, canonical_bump, canonical_error, derived_address, duel_seeds, largest_bump,
    program_id_bytes, stored_bump_error, treasury_seeds, vault_seeds,
};
use crate::close::close_error;
use crate::create::{bet_error, create_error, new_duel, Terms};
use crate::errors::{DuelError, InstructionError};
use crate::join::{join_error, joined};
use crate::loader::{loader_bytes, program_data_seeds, upgrade_authority};
use crate::pubkey::zero_bytes;
use crate::pubkey::Pubkey;
use crate::settle::{decided, settle_error};
use crate::state::{Duel, DuelStatus, GameKind, Treasury};
use crate::treasury::{
    fresh_treasury, initialize_error, take_error, with_max_bet, with_paused, withdraw_error,
    withdrawn,
};
use crate::vrf::{config_seeds, fulfilled, randomness_account, randomness_seeds, vrf_program_bytes};
use vstd::prelude::*;

verus! {

// Addresses.

/// Whether a key is the address that seeds and a bump give under a program.
pub open spec fn stands_at(key: Pubkey, seeds: Seq<Seq<u8>>, bump: u8, program: Seq<u8>) -> bool {
    derived_address(seeds.push(seq![bump]), program) == Some(key@)
}

/// Whether a bump is the largest with which seeds give an address.
pub open spec fn is_top_bump(seeds: Seq<Seq<u8>>, bump: u8, program: Seq<u8>) -> bool {
    &&& bump >= 1
    &&& derived_address(seeds.push(seq![bump]), program) is Some
    &&& forall|higher: u8|
        higher > bump ==> (#[trigger] derived_address(seeds.push(seq![higher]), program)) is None
}

/// Whether a key is the address that seeds give with their largest bump.
pub open spec fn stands_at_top(key: Pubkey, seeds: Seq<Seq<u8>>, program: Seq<u8>) -> bool {
    exists|bump: u8| #[trigger]
        is_top_bump(seeds, bump, program) && stands_at(key, seeds, bump, program)
}

/// The search from a bump downwards finds the largest that gives an address.
proof fn lemma_largest_bump(seeds: Seq<Seq<u8>>, program: Seq<u8>, top: u8)
    ensures
        match largest_bump(seeds, program, top) {
            Some(b) => {
                &&& 1 <= b <= top
                &&& address_at(seeds, b, program) is Some
                &&& forall|c: u8|
                    b < c <= top ==> (#[trigger] derived_address(seeds.push(seq![c]), program)) is None
            },
            None => forall|c: u8|
                1 <= c <= top ==> (#[trigger] derived_address(seeds.push(seq![c]), program)) is None,
        },
    decreases top,
{
    if top > 0 && address_at(seeds, top, program) is None {
        lemma_largest_bump(seeds, program, (top - 1) as u8);
    }
}

/// The canonical bump is the largest that gives an address, and there is only
/// one such.
pub proof fn law_canonical_bump_is_the_largest(seeds: Seq<Seq<u8>>, program: Seq<u8>, bump: u8)
    ensures
        canonical_bump(seeds, program) == Some(bump) <==> is_top_bump(seeds, bump, program),
{
    lemma_largest_bump(seeds, program, 255);
    if is_top_bump(seeds, bump, program) {
        assert(derived_address(seeds.push(seq![bump]), program) is Some);
        if let Some(b) = canonical_bump(seeds, program) {
            assert(derived_address(seeds.push(seq![b]), program) is Some);
        }
    }
}

/// An account passes the check of a stored bump if and only if it stands at
/// the address of that bump, and the check of the canonical bump if and only
/// if it stands at the address of the largest one.
pub proof fn law_address_checks(key: Pubkey, seeds: Seq<Seq<u8>>, bump: u8, program: Seq<u8>)
    ensures
        stored_bump_error(key, seeds, bump, program) is None <==> stands_at(
            key,
            seeds,
            bump,
            program,
        ),
        canonical_error(key, seeds, program) is None <==> stands_at_top(key, seeds, program),
{
    if let Some(b) = canonical_bump(seeds, program) {
        law_canonical_bump_is_the_largest(seeds, program, b);
        if stands_at(key, seeds, b, program) {
            assert(is_top_bump(seeds, b, program));
        }
    }
    if stands_at_top(key, seeds, program) {
        let b = choose|b: u8| #[trigger]
            is_top_bump(seeds, b, program) && stands_at(key, seeds, b, program);
        law_canonical_bump_is_the_largest(seeds, program, b);
    }
}

/// The accounts of a setup pass if and only if treasury and loader's record
/// stand at their addresses, and there is no treasury yet.
pub proof fn law_setup_accounts(ctx: InitializeTreasury)
    ensures
        ctx.accounts_error() is None <==> {
            &&& stands_at_top(ctx.treasury_key, treasury_seeds(), program_id_bytes()@)
            &&& ctx.treasury is None
            &&& stands_at_top(ctx.program_data_key, program_data_seeds(), loader_bytes()@)
        },
{
    law_address_checks(ctx.treasury_key, treasury_seeds(), 0, program_id_bytes()@);
    law_address_checks(ctx.program_data_key, program_data_seeds(), 0, loader_bytes()@);
}

/// The accounts of a listing pass if and only if the record and the vault
/// stand at their addresses, the record does not exist yet, and the treasury
/// exists at its address.
pub proof fn law_create_accounts(ctx: CreateDuel, game_id: u64)
    ensures
        ctx.accounts_error(game_id) is None <==> {
            &&& ctx.treasury matches Some(t) && stands_at(
                ctx.treasury_key,
                treasury_seeds(),
                t.bump,
                program_id_bytes()@,
            )
            &&& ctx.duel is None
            &&& stands_at_top(ctx.duel_key, duel_seeds(game_id, ctx.creator), program_id_bytes()@)
            &&& stands_at_top(ctx.vault, vault_seeds(game_id, ctx.creator), program_id_bytes()@)
        },
{
    let bump = (ctx.treasury->0).bump;
    law_address_checks(ctx.treasury_key, treasury_seeds(), bump, program_id_bytes()@);
    law_address_checks(ctx.duel_key, duel_seeds(game_id, ctx.creator), 0, program_id_bytes()@);
    law_address_checks(ctx.vault, vault_seeds(game_id, ctx.creator), 0, program_id_bytes()@);
}

/// Whether a duel's record exists at the address of the game and the creator
/// that an instruction names, and is that creator's.
pub open spec fn record_stands(
    duel: Option<Duel>,
    duel_key: Pubkey,
    game_id: u64,
    creator: Pubkey,
) -> bool {
    &&& duel is Some
    &&& (duel->0).creator == creator
    &&& stands_at(duel_key, duel_seeds(game_id, creator), (duel->0).bump, program_id_bytes()@)
}

/// Whether the treasury exists at its address.
pub open spec fn treasury_stands(treasury: Option<Treasury>, key: Pubkey) -> bool {
    treasury is Some && stands_at(
        key,
        treasury_seeds(),
        (treasury->0).bump,
        program_id_bytes()@,
    )
}

/// The accounts of a join pass if and only if each stands at its address: the
/// record, the vault, the service's configuration, and the account of the
/// request that the entropy leads to.
pub proof fn law_join_accounts(ctx: JoinDuel, game_id: u64, force: [u8; 32])
    ensures
        ctx.accounts_error(game_id, force) is None <==> {
            &&& record_stands(ctx.duel, ctx.duel_key, game_id, ctx.creator)
            &&& stands_at_top(ctx.vault, vault_seeds(game_id, ctx.creator), program_id_bytes()@)
            &&& stands_at_top(ctx.vrf_config, config_seeds(), vrf_program_bytes()@)
            &&& stands_at_top(ctx.random, randomness_seeds(force), vrf_program_bytes()@)
        },
{
    let seeds = duel_seeds(game_id, ctx.creator);
    law_address_checks(ctx.duel_key, seeds, (ctx.duel->0).bump, program_id_bytes()@);
    law_address_checks(ctx.vault, vault_seeds(game_id, ctx.creator), 0, program_id_bytes()@);
    law_address_checks(ctx.vrf_config, config_seeds(), 0, vrf_program_bytes()@);
    law_address_checks(ctx.random, randomness_seeds(force), 0, vrf_program_bytes()@);
}

/// The accounts of a settlement pass if and only if treasury, record and vault
/// stand at their addresses and the players are those of the record.
pub proof fn law_settle_accounts(ctx: SettleDuel, game_id: u64)
    ensures
        ctx.accounts_error(game_id) is None <==> {
            &&& treasury_stands(ctx.treasury, ctx.treasury_key)
            &&& record_stands(ctx.duel, ctx.duel_key, game_id, ctx.creator)
            &&& ctx.opponent == (ctx.duel->0).opponent
            &&& stands_at_top(ctx.vault, vault_seeds(game_id, ctx.creator), program_id_bytes()@)
        },
{
    let seeds = duel_seeds(game_id, ctx.creator);
    let bump = (ctx.treasury->0).bump;
    law_address_checks(ctx.treasury_key, treasury_seeds(), bump, program_id_bytes()@);
    law_address_checks(ctx.duel_key, seeds, (ctx.duel->0).bump, program_id_bytes()@);
    law_address_checks(ctx.vault, vault_seeds(game_id, ctx.creator), 0, program_id_bytes()@);
}

/// The accounts of a close pass if and only if treasury, record and vault
/// stand at their addresses, the creator is that of the record, and the record
/// is not its own beneficiary.
pub proof fn law_close_accounts(ctx: CloseDuel, game_id: u64)
    ensures
        ctx.accounts_error(game_id) is None <==> {
            &&& treasury_stands(ctx.treasury, ctx.treasury_key)
            &&& record_stands(ctx.duel, ctx.duel_key, game_id, ctx.creator)
            &&& ctx.duel_key != ctx.creator
            &&& stands_at_top(ctx.vault, vault_seeds(game_id, ctx.creator), program_id_bytes()@)
        },
{
    let seeds = duel_seeds(game_id, ctx.creator);
    let bump = (ctx.treasury->0).bump;
    law_address_checks(ctx.treasury_key, treasury_seeds(), bump, program_id_bytes()@);
    law_address_checks(ctx.duel_key, seeds, (ctx.duel->0).bump, program_id_bytes()@);
    law_address_checks(ctx.vault, vault_seeds(game_id, ctx.creator), 0, program_id_bytes()@);
}

/// An address that seeds cannot give with any bump is refused as such, and
/// any other that is not theirs for its seeds.
pub proof fn law_address_refusals(key: Pubkey, seeds: Seq<Seq<u8>>, bump: u8, program: Seq<u8>)
    ensures
        !stands_at(key, seeds, bump, program) ==> stored_bump_error(key, seeds, bump, program)
            == Some(InstructionError::ConstraintSeeds),
        canonical_error(key, seeds, program) == Some(InstructionError::NoViableBump) <==> (forall|
            b: u8,
        |
            b >= 1 ==> (#[trigger] derived_address(seeds.push(seq![b]), program)) is None),
        canonical_error(key, seeds, program) matches Some(e) ==> e == InstructionError::NoViableBump
            || e == InstructionError::ConstraintSeeds,
{
    lemma_largest_bump(seeds, program, 255);
    if let Some(b) = canonical_bump(seeds, program) {
        assert(derived_address(seeds.push(seq![b]), program) is Some);
    }
}

/// Whether a refusal is about an address.
pub open spec fn is_address_refusal(e: InstructionError) -> bool {
    e == InstructionError::ConstraintSeeds || e == InstructionError::NoViableBump
}

/// A setup whose accounts do not pass is refused for a treasury that exists at
/// the address already, or for an address.
pub proof fn law_setup_account_refusals(ctx: InitializeTreasury)
    ensures
        ctx.accounts_error() == Some(InstructionError::AccountAlreadyInUse) <==> stands_at_top(
            ctx.treasury_key,
            treasury_seeds(),
            program_id_bytes()@,
        ) && ctx.treasury is Some,
        ctx.accounts_error() matches Some(e) ==> e == InstructionError::AccountAlreadyInUse
            || is_address_refusal(e),
{
    law_address_checks(ctx.treasury_key, treasury_seeds(), 0, program_id_bytes()@);
}

/// A listing whose accounts do not pass is refused for the want of a treasury,
/// for a record that exists at the address already, or for an address.
pub proof fn law_create_account_refusals(ctx: CreateDuel, game_id: u64)
    ensures
        ctx.accounts_error(game_id) == Some(InstructionError::AccountNotInitialized)
            <==> ctx.treasury is None,
        ctx.accounts_error(game_id) == Some(InstructionError::AccountAlreadyInUse)
            <==> ctx.treasury is Some && ctx.duel is Some && stands_at_top(
            ctx.duel_key,
            duel_seeds(game_id, ctx.creator),
            program_id_bytes()@,
        ),
        ctx.accounts_error(game_id) matches Some(e) ==> e == InstructionError::AccountNotInitialized
            || e == InstructionError::AccountAlreadyInUse || is_address_refusal(e),
{
    law_address_checks(ctx.duel_key, duel_seeds(game_id, ctx.creator), 0, program_id_bytes()@);
}

/// A join whose accounts do not pass is refused for the want of a record, for
/// a creator that is not the record's, or for an address.
pub proof fn law_join_account_refusals(ctx: JoinDuel, game_id: u64, force: [u8; 32])
    ensures
        ctx.accounts_error(game_id, force) == Some(InstructionError::AccountNotInitialized)
            <==> ctx.duel is None,
        ctx.accounts_error(game_id, force) == Some(InstructionError::ConstraintHasOne)
            <==> ctx.duel is Some && (ctx.duel->0).creator != ctx.creator && stands_at(
            ctx.duel_key,
            duel_seeds(game_id, ctx.creator),
            (ctx.duel->0).bump,
            program_id_bytes()@,
        ),
        ctx.accounts_error(game_id, force) matches Some(e) ==> e
            == InstructionError::AccountNotInitialized || e == InstructionError::ConstraintHasOne
            || is_address_refusal(e),
{
}

/// A settlement whose accounts do not pass is refused for the want of a record
/// or a treasury, for an opponent or a creator that is not the record's, or
/// for an address.
pub proof fn law_settle_account_refusals(ctx: SettleDuel, game_id: u64)
    ensures
        ctx.accounts_error(game_id) == Some(InstructionError::AccountNotInitialized)
            <==> ctx.treasury is None || ctx.duel is None,
        ctx.accounts_error(game_id) == Some(InstructionError::ConstraintAddress)
            <==> ctx.treasury is Some && ctx.duel is Some && ctx.opponent
            != (ctx.duel->0).opponent,
        ctx.accounts_error(game_id) == Some(InstructionError::ConstraintHasOne)
            <==> treasury_stands(ctx.treasury, ctx.treasury_key) && ctx.duel is Some
            && ctx.opponent == (ctx.duel->0).opponent && (ctx.duel->0).creator != ctx.creator
            && stands_at(
            ctx.duel_key,
            duel_seeds(game_id, ctx.creator),
            (ctx.duel->0).bump,
            program_id_bytes()@,
        ),
        ctx.accounts_error(game_id) matches Some(e) ==> e == InstructionError::AccountNotInitialized
            || e == InstructionError::ConstraintAddress || e == InstructionError::ConstraintHasOne
            || is_address_refusal(e),
{
}

/// A close whose accounts do not pass is refused for the want of a record or a
/// treasury, for a creator that is not the record's, for a record that would
/// be its own beneficiary, or for an address.
pub proof fn law_close_account_refusals(ctx: CloseDuel, game_id: u64)
    ensures
        ({
            let e = ctx.accounts_error(game_id);
            let vault_stands = stands_at_top(
                ctx.vault,
                vault_seeds(game_id, ctx.creator),
                program_id_bytes()@,
            );
            &&& e == Some(InstructionError::AccountNotInitialized) <==> ctx.treasury is None
                || ctx.duel is None
            &&& e == Some(InstructionError::ConstraintHasOne) <==> treasury_stands(
                ctx.treasury,
                ctx.treasury_key,
            ) && vault_stands && ctx.duel is Some && (ctx.duel->0).creator != ctx.creator
                && stands_at(
                ctx.duel_key,
                duel_seeds(game_id, ctx.creator),
                (ctx.duel->0).bump,
                program_id_bytes()@,
            )
            &&& e == Some(InstructionError::ConstraintClose) <==> treasury_stands(
                ctx.treasury,
                ctx.treasury_key,
            ) && vault_stands && record_stands(ctx.duel, ctx.duel_key, game_id, ctx.creator)
                && ctx.duel_key == ctx.creator
            &&& e is Some ==> e->0 == InstructionError::AccountNotInitialized || e->0
                == InstructionError::ConstraintHasOne || e->0 == InstructionError::ConstraintClose
                || is_address_refusal(e->0)
        }),
{
    law_address_checks(ctx.vault, vault_seeds(game_id, ctx.creator), 0, program_id_bytes()@);
}

// The treasury.

/// The setup goes through if and only if its accounts pass and the loader's
/// record, which is the loader's own, names the caller as the upgrade
/// authority. It is refused as unauthorized exactly when only the latter fails.
pub proof fn law_when_setup_succeeds(ctx: InitializeTreasury)
    ensures
        initialize_error(ctx) is None <==> {
            &&& ctx.accounts_error() is None
            &&& ctx.program_data_owner.bytes == loader_bytes()
            &&& upgrade_authority(ctx.program_data@) == Some(Some(ctx.admin@))
        },
        ctx.accounts_error() is Some ==> initialize_error(ctx) == ctx.accounts_error(),
        ctx.accounts_error() is None && initialize_error(ctx) is Some ==> initialize_error(ctx)
            == Some(InstructionError::Duel(DuelError::Unauthorized)),
{
}

/// After the setup the admin is in charge: their instructions pass, nobody
/// else's do, and any bet is taken.
pub proof fn law_setup_leaves_a_working_treasury(ctx: InitializeTreasury, other: Pubkey, bet: u64)
    requires
        initialize_error(ctx) is None,
    ensures
        ({
            let bump = canonical_bump(treasury_seeds(), program_id_bytes()@)->0;
            let made = fresh_treasury(ctx.admin, bump);
            &&& treasury_stands(Some(made), ctx.treasury_key)
            &&& admin_error(other, ctx.treasury_key, Some(made)) is None <==> other == ctx.admin
            &&& bet > 0 ==> bet_error(made, bet) is None
        }),
{
    law_setup_accounts(ctx);
    law_address_checks(ctx.treasury_key, treasury_seeds(), 0, program_id_bytes()@);
    let b = choose|b: u8| #[trigger]
        is_top_bump(treasury_seeds(), b, program_id_bytes()@) && stands_at(
            ctx.treasury_key,
            treasury_seeds(),
            b,
            program_id_bytes()@,
        );
    law_canonical_bump_is_the_largest(treasury_seeds(), program_id_bytes()@, b);
}

/// An instruction of the admin's passes if and only if the treasury exists at
/// its address and the caller is the admin that it names.
pub proof fn law_when_admin_passes(admin: Pubkey, key: Pubkey, treasury: Option<Treasury>)
    ensures
        admin_error(admin, key, treasury) is None <==> treasury_stands(treasury, key) && (
        treasury->0).admin == admin,
        treasury is None ==> admin_error(admin, key, treasury) == Some(
            InstructionError::AccountNotInitialized,
        ),
        treasury is Some && !treasury_stands(treasury, key) ==> admin_error(admin, key, treasury)
            == Some(InstructionError::ConstraintSeeds),
        treasury_stands(treasury, key) && (treasury->0).admin != admin ==> admin_error(
            admin,
            key,
            treasury,
        ) == Some(InstructionError::Duel(DuelError::Unauthorized)),
{
    law_address_checks(key, treasury_seeds(), (treasury->0).bump, program_id_bytes()@);
}

/// A pause stops every listing and lifting it stops none; a limit stops
/// exactly the bets above it. Neither setting touches the other, the admin or
/// the address.
pub proof fn law_settings_take_effect(treasury: Treasury, bet: u64, limit: u64)
    requires
        bet > 0,
    ensures
        bet_error(with_paused(treasury, true), bet) == Some(DuelError::Paused),
        bet_error(with_max_bet(with_paused(treasury, false), limit), bet) is None <==> (limit == 0
            || bet <= limit),
        with_paused(treasury, true).max_bet_lamports == treasury.max_bet_lamports,
        with_paused(treasury, false).max_bet_lamports == treasury.max_bet_lamports,
        with_max_bet(treasury, limit).max_bet_lamports == limit,
        with_max_bet(treasury, limit).paused == treasury.paused,
        forall|on: bool| #[trigger]
            with_paused(treasury, on).admin == treasury.admin && with_paused(treasury, on).bump
                == treasury.bump && with_paused(treasury, on).paused == on,
        with_max_bet(treasury, limit).admin == treasury.admin,
        with_max_bet(treasury, limit).bump == treasury.bump,
{
}

/// With the admin's accounts in order a withdrawal goes through if and only if
/// what it leaves covers the rent reserve, it goes to another account, and
/// that account can take it. An amount of zero may go anywhere.
pub proof fn law_when_withdrawal_succeeds(ctx: WithdrawTreasury, rent_min: u64, amount: u64)
    ensures
        withdraw_error(ctx, rent_min, amount) is None <==> {
            &&& treasury_stands(ctx.treasury, ctx.treasury_key)
            &&& (ctx.treasury->0).admin == ctx.admin
            &&& rent_min + amount <= ctx.treasury_lamports
            &&& amount == 0 || ctx.destination != ctx.treasury_key
            &&& ctx.destination_lamports + amount <= u64::MAX
        },
        admin_error(ctx.admin, ctx.treasury_key, ctx.treasury) is Some ==> withdraw_error(
            ctx,
            rent_min,
            amount,
        ) == admin_error(ctx.admin, ctx.treasury_key, ctx.treasury),
{
    law_when_admin_passes(ctx.admin, ctx.treasury_key, ctx.treasury);
}

/// Why an amount that is the admin's to take is not taken: for the reserve,
/// for a destination that is the treasury itself, or for want of room there.
pub proof fn law_withdrawal_refusals(ctx: WithdrawTreasury, rent_min: u64, amount: u64)
    ensures
        take_error(ctx, rent_min, amount) == Some(
            InstructionError::Duel(DuelError::TreasuryRentViolation),
        ) <==> rent_min + amount > ctx.treasury_lamports,
        rent_min + amount <= ctx.treasury_lamports ==> (take_error(ctx, rent_min, amount) == Some(
            InstructionError::AccountBorrowFailed,
        ) <==> amount > 0 && ctx.destination == ctx.treasury_key),
        rent_min + amount <= ctx.treasury_lamports && ctx.destination != ctx.treasury_key ==> (
        take_error(ctx, rent_min, amount) == Some(InstructionError::Duel(DuelError::MathOverflow))
            <==> ctx.destination_lamports + amount > u64::MAX),
{
}

/// Where an amount can be withdrawn, so can any smaller one, and the rest
/// after it.
pub proof fn law_smaller_withdrawals_succeed(
    ctx: WithdrawTreasury,
    rent_min: u64,
    amount: u64,
    part: u64,
)
    requires
        withdraw_error(ctx, rent_min, amount) is None,
        part <= amount,
    ensures
        withdraw_error(ctx, rent_min, part) is None,
        withdraw_error(withdrawn(ctx, part), rent_min, (amount - part) as u64)
            is None,
{
}

// Listing.

/// A listing goes through if and only if its accounts pass, the bet is more
/// than nothing and within the limit, new duels are not paused, and the
/// deadline can be computed. Each refusal has its own cause.
pub proof fn law_when_listing_succeeds(ctx: CreateDuel, now: i64, terms: Terms)
    ensures
        ctx.accounts_error(terms.game_id) is Some ==> create_error(ctx, now, terms)
            == ctx.accounts_error(terms.game_id),
        ctx.accounts_error(terms.game_id) is None ==> ({
            let t = ctx.treasury->0;
            let bet = terms.bet_lamports;
            let limited = t.max_bet_lamports > 0 && bet > t.max_bet_lamports;
            let e = create_error(ctx, now, terms);
            &&& e is None <==> bet > 0 && !t.paused && !limited && now <= i64::MAX - 86_400
            &&& e == Some(InstructionError::Duel(DuelError::InvalidBetAmount)) <==> bet == 0
            &&& e == Some(InstructionError::Duel(DuelError::Paused)) <==> bet > 0 && t.paused
            &&& e == Some(InstructionError::Duel(DuelError::BetTooLarge)) <==> bet > 0 && !t.paused
                && limited
            &&& e == Some(InstructionError::Duel(DuelError::MathOverflow)) <==> bet > 0
                && !t.paused && !limited && now > i64::MAX - 86_400
        }),
{
}

// Joining.

/// A join goes through if and only if its accounts pass, the duel is open, the
/// joiner is not the creator, is the one invited where one is, and brings
/// entropy that is not all zeros. Each refusal has its own cause.
pub proof fn law_when_join_succeeds(ctx: JoinDuel, game_id: u64, force: [u8; 32])
    ensures
        ctx.accounts_error(game_id, force) is Some ==> join_error(ctx, game_id, force)
            == ctx.accounts_error(game_id, force),
        ctx.accounts_error(game_id, force) is None ==> ({
            let d = ctx.duel->0;
            let open = d.status == DuelStatus::Waiting;
            let own = ctx.opponent == d.creator;
            let welcome = match d.required_opponent {
                Some(invited) => ctx.opponent == invited,
                None => true,
            };
            let entropy = exists|i: int| 0 <= i < 32 && force[i] != 0;
            let e = join_error(ctx, game_id, force);
            &&& e is None <==> open && !own && welcome && entropy
            &&& e == Some(InstructionError::Duel(DuelError::InvalidState)) <==> !open
            &&& e == Some(InstructionError::Duel(DuelError::CannotJoinOwnDuel)) <==> open && own
            &&& e == Some(InstructionError::Duel(DuelError::NotInvitedOpponent)) <==> open && !own
                && !welcome
            &&& e == Some(InstructionError::Duel(DuelError::BadForce)) <==> open && !own && welcome
                && !entropy
        }),
{
    let entropy = exists|i: int| 0 <= i < 32 && force[i] != 0;
    assert(forall|i: int| 0 <= i < 32 ==> zero_bytes()[i] == 0);
    if !entropy {
        assert(force =~= zero_bytes());
    }
}

// Settling.

/// A settlement goes through if and only if its accounts pass, the duel is
/// joined, the randomness account is the duel's own and holds the random
/// bytes, and, unless the dice tie, the pot times the fee's hundred basis
/// points fits in 64 bits. Each refusal has its own cause.
pub proof fn law_when_settlement_succeeds(ctx: SettleDuel, game_id: u64)
    ensures
        ctx.accounts_error(game_id) is Some ==> settle_error(ctx, game_id) == ctx.accounts_error(
            game_id,
        ),
        ctx.accounts_error(game_id) is None ==> ({
            let d = ctx.duel->0;
            let joined = d.status == DuelStatus::Rolling;
            let own = ctx.random == d.randomness;
            let ready = ctx.random_data@.len() > 0 && (randomness_account(ctx.random_data@) matches Some(
                Some(_),
            ));
            let bytes = randomness_account(ctx.random_data@)->0->0;
            let after = decided(d, bytes);
            let tie = d.game_kind == GameKind::Dice && after.creator_dice[0]
                + after.creator_dice[1] == after.opponent_dice[0] + after.opponent_dice[1];
            let fits = 200 * d.bet_lamports <= u64::MAX;
            let e = settle_error(ctx, game_id);
            &&& e is None <==> joined && own && ready && (tie || fits)
            &&& e == Some(InstructionError::Duel(DuelError::InvalidState)) <==> !joined
            &&& e == Some(InstructionError::Duel(DuelError::RandomnessMismatch)) <==> joined && !own
            &&& e == Some(InstructionError::Duel(DuelError::RandomnessNotReady)) <==> joined && own
                && !ready
            &&& e == Some(InstructionError::Duel(DuelError::MathOverflow)) <==> joined && own
                && ready && !tie && !fits
        }),
{
}

/// The random bytes of an account are those that its data is read to hold; an
/// empty account has none.
pub proof fn law_fulfilled_is_what_is_read(data: Seq<u8>, bytes: Seq<u8>)
    ensures
        fulfilled(data) == Some(bytes) <==> data.len() > 0 && randomness_account(data) == Some(
            Some(bytes),
        ),
{
}

// Closing.

/// A settled duel whose accounts pass can be closed by anyone at any time, as
/// long as the treasury can take what the record holds above its rent. A
/// record that holds no more than its rent can always be closed.
pub proof fn law_settled_duel_can_be_closed(
    ctx: CloseDuel,
    now: i64,
    rent_min: u64,
    game_id: u64,
)
    requires
        ctx.accounts_error(game_id) is None,
        (ctx.duel->0).status == DuelStatus::Settled,
    ensures
        ctx.duel_lamports <= rent_min ==> close_error(ctx, now, rent_min, game_id) is None,
        ctx.duel_lamports > rent_min ==> (close_error(ctx, now, rent_min, game_id) is None <==>
            ctx.treasury_lamports + (ctx.duel_lamports - rent_min) <= u64::MAX),
        close_error(ctx, now, rent_min, game_id) matches Some(e) ==> e == InstructionError::Duel(
            DuelError::MathOverflow,
        ),
{
}

/// A listing whose accounts pass can be cancelled by its creator at any time,
/// whatever the balances and the randomness account, and by nobody else.
pub proof fn law_listing_can_be_cancelled(ctx: CloseDuel, now: i64, rent_min: u64, game_id: u64)
    requires
        ctx.accounts_error(game_id) is None,
        (ctx.duel->0).status == DuelStatus::Waiting,
    ensures
        close_error(ctx, now, rent_min, game_id) is None <==> ctx.caller == (ctx.duel->0).creator,
        ctx.caller != (ctx.duel->0).creator ==> close_error(ctx, now, rent_min, game_id) == Some(
            InstructionError::Duel(DuelError::Unauthorized),
        ),
{
}

/// A joined duel whose accounts pass can be refunded by anyone if and only if
/// the randomness account is the duel's own and holds no random bytes, the
/// deadline has passed, and the opponent is the duel's. Each refusal has its
/// own cause.
pub proof fn law_when_refund_succeeds(ctx: CloseDuel, now: i64, rent_min: u64, game_id: u64)
    requires
        ctx.accounts_error(game_id) is None,
        (ctx.duel->0).status == DuelStatus::Rolling,
    ensures
        ({
            let d = ctx.duel->0;
            let own = ctx.random == d.randomness;
            let ready = ctx.random_data@.len() > 0 && (randomness_account(ctx.random_data@) matches Some(
                Some(_),
            ));
            let late = now > d.expiry;
            let payable = ctx.opponent == d.opponent;
            let e = close_error(ctx, now, rent_min, game_id);
            &&& e is None <==> own && !ready && late && payable
            &&& e == Some(InstructionError::Duel(DuelError::RandomnessMismatch)) <==> !own
            &&& e == Some(InstructionError::Duel(DuelError::AlreadyFulfilled)) <==> own && ready
            &&& e == Some(InstructionError::Duel(DuelError::NotExpired)) <==> own && !ready && !late
            &&& e == Some(InstructionError::Duel(DuelError::Unauthorized)) <==> own && !ready
                && late && !payable
        }),
{
}

/// A close whose accounts do not pass is refused for that.
pub proof fn law_close_needs_its_accounts(ctx: CloseDuel, now: i64, rent_min: u64, game_id: u64)
    requires
        ctx.accounts_error(game_id) is Some,
    ensures
        close_error(ctx, now, rent_min, game_id) == ctx.accounts_error(game_id),
{
}

// One instruction after another.

/// A duel that was listed can be joined with the same record and vault: by
/// anyone but the creator where nobody is invited, and by the invited one
/// alone where someone is.
pub proof fn law_listed_duel_can_be_joined(
    create: CreateDuel,
    now: i64,
    terms: Terms,
    join: JoinDuel,
    force: [u8; 32],
)
    requires
        create_error(create, now, terms) is None,
        join.duel == Some(
            new_duel(create.creator, create.duel_bump(terms.game_id)->0, now, terms),
        ),
        join.creator == create.creator,
        join.duel_key == create.duel_key,
        join.vault == create.vault,
        stands_at_top(join.vrf_config, config_seeds(), vrf_program_bytes()@),
        stands_at_top(join.random, randomness_seeds(force), vrf_program_bytes()@),
        force[0] != 0,
    ensures
        join_error(join, terms.game_id, force) is None <==> join.opponent != create.creator && (
        terms.required_opponent is None || terms.required_opponent == Some(join.opponent)),
{
    law_create_accounts(create, terms.game_id);
    law_join_accounts(join, terms.game_id, force);
    law_when_join_succeeds(join, terms.game_id, force);
    law_address_checks(
        create.duel_key,
        duel_seeds(terms.game_id, create.creator),
        create.duel_bump(terms.game_id)->0,
        program_id_bytes()@,
    );
}

/// A duel that was listed can be cancelled by its creator with the same
/// accounts.
pub proof fn law_creator_can_take_it_back(
    create: CreateDuel,
    now: i64,
    terms: Terms,
    close: CloseDuel,
    later: i64,
    rent_min: u64,
)
    requires
        create_error(create, now, terms) is None,
        close.duel == Some(
            new_duel(create.creator, create.duel_bump(terms.game_id)->0, now, terms),
        ),
        close.caller == create.creator,
        close.creator == create.creator,
        close.duel_key == create.duel_key,
        close.duel_key != close.creator,
        close.vault == create.vault,
        close.treasury_key == create.treasury_key,
        close.treasury == create.treasury,
    ensures
        close_error(close, later, rent_min, terms.game_id) is None,
{
    law_create_accounts(create, terms.game_id);
    law_close_accounts(close, terms.game_id);
    law_listing_can_be_cancelled(close, later, rent_min, terms.game_id);
    law_address_checks(
        create.duel_key,
        duel_seeds(terms.game_id, create.creator),
        create.duel_bump(terms.game_id)->0,
        program_id_bytes()@,
    );
}

/// A duel that was joined can be settled with the same record, vault and
/// randomness account as soon as that account holds the random bytes.
pub proof fn law_joined_duel_can_be_settled(
    join: JoinDuel,
    force: [u8; 32],
    settle: SettleDuel,
    game_id: u64,
)
    requires
        join_error(join, game_id, force) is None,
        settle.duel == Some(joined(join.duel->0, join.opponent, force, join.random)),
        settle.creator == join.creator,
        settle.opponent == join.opponent,
        settle.duel_key == join.duel_key,
        settle.vault == join.vault,
        settle.random == join.random,
        treasury_stands(settle.treasury, settle.treasury_key),
        settle.random_data@.len() > 0,
        randomness_account(settle.random_data@) matches Some(Some(_)),
        200 * (join.duel->0).bet_lamports <= u64::MAX,
    ensures
        settle_error(settle, game_id) is None,
{
    law_join_accounts(join, game_id, force);
    law_settle_accounts(settle, game_id);
    law_when_settlement_succeeds(settle, game_id);
}

/// A duel that was settled can be closed by anyone with the same record, vault
/// and treasury, when its record holds no more than its rent.
pub proof fn law_settled_duel_can_go(
    settle: SettleDuel,
    close: CloseDuel,
    now: i64,
    rent_min: u64,
    game_id: u64,
)
    requires
        settle_error(settle, game_id) is None,
        close.duel == Some(decided(settle.duel->0, fulfilled(settle.random_data@)->0)),
        close.creator == settle.creator,
        close.duel_key == settle.duel_key,
        close.duel_key != close.creator,
        close.vault == settle.vault,
        close.treasury_key == settle.treasury_key,
        close.treasury == settle.treasury,
        close.duel_lamports <= rent_min,
    ensures
        close_error(close, now, rent_min, game_id) is None,
{
    law_settle_accounts(settle, game_id);
    law_close_accounts(close, game_id);
    law_settled_duel_can_be_closed(close, now, rent_min, game_id);
}

} // verus!
