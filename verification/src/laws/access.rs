//! Who may do what, and when.
use crate::accounts::{admin_error, treasury_error};
use crate::accounts::{
    CloseDuel, CreateDuel, InitializeTreasury, JoinDuel, SettleDuel, WithdrawTreasury,
};
use crate::address::{address_at, canonical_bump, duel_seeds, le_bytes, vault_seeds};
use crate::close::{close_error, close_payouts, close_rule};
use crate::create::{bet_error, create_error, Terms};
use crate::errors::{DuelError, InstructionError};
use crate::join::{join_error, join_rule, joined};
use crate::lamports::fee_fits;
use crate::loader::{loader_bytes, upgrade_authority};
use crate::pubkey::Pubkey;
use crate::settle::{decided, settle_error, settle_payouts, settle_rule, ties};
use crate::state::{Duel, DuelStatus, Treasury};
use crate::treasury::{fresh_treasury, initialize_error, withdraw_error, withdrawn};
use crate::vrf::{fulfilled, randomness_seeds, vrf_program_bytes};
use vstd::prelude::*;

verus! {

// The treasury.

/// Only the program's upgrade authority gets through the setup, and it becomes
/// the admin.
pub proof fn law_only_upgrade_authority_initializes(ctx: InitializeTreasury, bump: u8)
    requires
        initialize_error(ctx) is None,
    ensures
        ctx.program_data_owner.bytes == loader_bytes(),
        upgrade_authority(ctx.program_data@) == Some(Some(ctx.admin@)),
        fresh_treasury(ctx.admin, bump).admin == ctx.admin,
{
}

/// The setup works once: where a treasury exists, nobody can set it up again.
pub proof fn law_setup_is_one_time(ctx: InitializeTreasury)
    requires
        ctx.treasury is Some,
    ensures
        initialize_error(ctx) is Some,
{
}

/// The settings and the funds of the treasury are the admin's alone.
pub proof fn law_only_admin(admin: Pubkey, key: Pubkey, treasury: Treasury)
    requires
        admin != treasury.admin,
    ensures
        admin_error(admin, key, Some(treasury)) is Some,
        treasury_error(key, treasury) is None ==> admin_error(admin, key, Some(treasury)) == Some(
            InstructionError::Duel(DuelError::Unauthorized),
        ),
{
}

/// A withdrawal leaves the treasury its rent reserve, and moves lamports
/// without making or losing any.
pub proof fn law_withdrawal_keeps_reserve(ctx: WithdrawTreasury, rent_min: u64, amount: u64)
    requires
        withdraw_error(ctx, rent_min, amount) is None,
    ensures
        ctx.treasury matches Some(t) && t.admin == ctx.admin,
        withdrawn(ctx, amount).treasury_lamports >= rent_min,
        withdrawn(ctx, amount).treasury_lamports + withdrawn(ctx, amount).destination_lamports
            == ctx.treasury_lamports + ctx.destination_lamports,
        withdrawn(ctx, amount).destination_lamports == ctx.destination_lamports + amount,
        withdrawn(ctx, amount).treasury == ctx.treasury,
{
}

/// A limit of zero is no limit.
pub proof fn law_no_limit(treasury: Treasury, bet: u64)
    requires
        treasury.max_bet_lamports == 0,
        !treasury.paused,
        bet > 0,
    ensures
        bet_error(treasury, bet) is None,
{
}

/// While new duels are paused, or the bet is over the limit, none is listed.
pub proof fn law_pause_and_limit_hold(ctx: CreateDuel, now: i64, terms: Terms)
    requires
        ctx.treasury matches Some(t) && (t.paused || 0 < t.max_bet_lamports < terms.bet_lamports),
    ensures
        create_error(ctx, now, terms) is Some,
{
}

/// Pausing and the limit stop new duels only: the settings have no say in
/// whether a duel under way can be settled, nor in what is paid.
pub proof fn law_settings_do_not_touch_settlement(
    ctx: SettleDuel,
    treasury: Treasury,
    paused: bool,
    max_bet_lamports: u64,
    game_id: u64,
    bump: u8,
    bytes: Seq<u8>,
)
    requires
        ctx.treasury == Some(treasury),
    ensures
        ({
            let other = SettleDuel {
                treasury: Some(Treasury { paused, max_bet_lamports, ..treasury }),
                ..ctx
            };
            &&& settle_error(other, game_id) == settle_error(ctx, game_id)
            &&& settle_payouts(other, ctx.duel->0, game_id, bump, bytes) == settle_payouts(
                ctx,
                ctx.duel->0,
                game_id,
                bump,
                bytes,
            )
        }),
{
}

/// The settings have no say in refunds either.
pub proof fn law_settings_do_not_touch_refunds(
    ctx: CloseDuel,
    treasury: Treasury,
    paused: bool,
    max_bet_lamports: u64,
    now: i64,
    rent_min: u64,
    game_id: u64,
    bump: u8,
)
    requires
        ctx.treasury == Some(treasury),
    ensures
        ({
            let other = CloseDuel {
                treasury: Some(Treasury { paused, max_bet_lamports, ..treasury }),
                ..ctx
            };
            &&& close_error(other, now, rent_min, game_id) == close_error(ctx, now, rent_min, game_id)
            &&& close_payouts(other, ctx.duel->0, game_id, bump) == close_payouts(
                ctx,
                ctx.duel->0,
                game_id,
                bump,
            )
        }),
{
}

// Joining.

/// Nobody plays against themselves, a private duel takes only its invited
/// opponent, and a public one takes anyone else who brings entropy.
pub proof fn law_who_may_join(duel: Duel, opponent: Pubkey, force: [u8; 32])
    requires
        duel.status == DuelStatus::Waiting,
        force != crate::pubkey::zero_bytes(),
    ensures
        join_rule(duel, opponent, force) is None <==> opponent != duel.creator && (
        duel.required_opponent is None || duel.required_opponent == Some(opponent)),
{
}

/// A duel is joined once, and not after it is decided.
pub proof fn law_joined_once(
    duel: Duel,
    opponent: Pubkey,
    force: [u8; 32],
    random: Pubkey,
    bytes: Seq<u8>,
    other: Pubkey,
    other_force: [u8; 32],
)
    ensures
        join_rule(joined(duel, opponent, force, random), other, other_force) == Some(
            DuelError::InvalidState,
        ),
        join_rule(decided(duel, bytes), other, other_force) == Some(DuelError::InvalidState),
{
}

/// The randomness account of a joined duel is the one that the joiner's
/// entropy leads to.
pub proof fn law_randomness_follows_entropy(ctx: JoinDuel, game_id: u64, force: [u8; 32])
    requires
        join_error(ctx, game_id, force) is None,
    ensures
        ({
            let next = joined(ctx.duel->0, ctx.opponent, force, ctx.random);
            let seeds = randomness_seeds(next.force);
            let bump = canonical_bump(seeds, vrf_program_bytes()@);
            &&& bump is Some
            &&& address_at(seeds, bump->0, vrf_program_bytes()@) == Some(next.randomness@)
        }),
{
}

// Settling and closing.

/// Settling is open to anyone: who calls makes no difference.
pub proof fn law_settling_is_permissionless(
    ctx: SettleDuel,
    caller: Pubkey,
    game_id: u64,
    bump: u8,
    bytes: Seq<u8>,
)
    ensures
        ({
            let other = SettleDuel { caller, ..ctx };
            &&& settle_error(other, game_id) == settle_error(ctx, game_id)
            &&& settle_payouts(other, ctx.duel->0, game_id, bump, bytes) == settle_payouts(
                ctx,
                ctx.duel->0,
                game_id,
                bump,
                bytes,
            )
        }),
{
}

/// A duel that is listed, or decided already, cannot be settled: nothing is
/// paid before an opponent came, and nothing twice.
pub proof fn law_settled_once(
    duel: Duel,
    bytes: Seq<u8>,
    random: Pubkey,
    randomness: Result<Seq<u8>, DuelError>,
)
    ensures
        settle_rule(decided(duel, bytes), random, randomness) == Some(DuelError::InvalidState),
        duel.status == DuelStatus::Waiting ==> settle_rule(duel, random, randomness) == Some(
            DuelError::InvalidState,
        ),
{
}

/// A closed duel is gone: it can be neither joined, settled nor closed again.
pub proof fn law_closed_is_gone(
    join: JoinDuel,
    settle: SettleDuel,
    close: CloseDuel,
    now: i64,
    rent_min: u64,
    game_id: u64,
    force: [u8; 32],
)
    requires
        join.duel is None,
        settle.duel is None,
        close.duel is None,
    ensures
        join_error(join, game_id, force) == Some(InstructionError::AccountNotInitialized),
        settle_error(settle, game_id) == Some(InstructionError::AccountNotInitialized),
        close_error(close, now, rent_min, game_id) == Some(InstructionError::AccountNotInitialized),
{
}

/// Only the creator cancels a listing, and at any time.
pub proof fn law_only_creator_cancels(
    ctx: CloseDuel,
    duel: Duel,
    now: i64,
    rent_min: u64,
    is_fulfilled: bool,
)
    requires
        duel.status == DuelStatus::Waiting,
    ensures
        close_rule(ctx, duel, now, rent_min, is_fulfilled) is None <==> ctx.caller == duel.creator,
        ctx.caller != duel.creator ==> close_rule(ctx, duel, now, rent_min, is_fulfilled) == Some(
            DuelError::Unauthorized,
        ),
{
}

/// A joined duel whose outcome is decided cannot be refunded, however late it
/// is and whoever asks: a loser cannot wait out the deadline.
pub proof fn law_no_refund_of_a_decided_duel(
    ctx: CloseDuel,
    duel: Duel,
    now: i64,
    rent_min: u64,
)
    requires
        duel.status == DuelStatus::Rolling,
    ensures
        close_rule(ctx, duel, now, rent_min, true) is Some,
        ctx.random == duel.randomness ==> close_rule(ctx, duel, now, rent_min, true) == Some(
            DuelError::AlreadyFulfilled,
        ),
{
}

/// A joined duel is never refunded before its deadline.
pub proof fn law_no_early_refund(
    ctx: CloseDuel,
    duel: Duel,
    now: i64,
    rent_min: u64,
    is_fulfilled: bool,
)
    requires
        duel.status == DuelStatus::Rolling,
        now <= duel.expiry,
    ensures
        close_rule(ctx, duel, now, rent_min, is_fulfilled) is Some,
{
}

/// At no moment can a joined duel both be settled and be refunded.
pub proof fn law_settle_or_refund(
    settle: SettleDuel,
    close: CloseDuel,
    now: i64,
    rent_min: u64,
    game_id: u64,
)
    requires
        settle.duel == close.duel,
        settle.duel matches Some(d) && d.status == DuelStatus::Rolling,
        settle.random_data@ == close.random_data@,
    ensures
        !(settle_error(settle, game_id) is None && close_error(close, now, rent_min, game_id) is None),
{
}

/// A joined duel never gets stuck: with its own accounts it can be settled as
/// soon as the randomness is there, and refunded when it has not come by the
/// deadline. A bet so large that its fee cannot be computed is the exception:
/// it can be settled only as a tie.
pub proof fn law_joined_duel_can_end(
    settle: SettleDuel,
    close: CloseDuel,
    now: i64,
    rent_min: u64,
    game_id: u64,
)
    requires
        settle.duel == close.duel,
        settle.random_data@ == close.random_data@,
        settle.accounts_error(game_id) is None,
        close.accounts_error(game_id) is None,
        settle.duel matches Some(d) && {
            &&& d.status == DuelStatus::Rolling
            &&& d.randomness == settle.random
            &&& d.randomness == close.random
            &&& d.opponent == close.opponent
        },
    ensures
        ({
            let d = settle.duel->0;
            match fulfilled(settle.random_data@) {
                Some(bytes) => settle_error(settle, game_id) is None <==> (ties(d, bytes)
                    || fee_fits(d.bet_lamports)),
                None => close_error(close, now, rent_min, game_id) is None <==> now > d.expiry,
            }
        }),
{
}

// Addresses.

/// A number is recovered from its bytes.
proof fn lemma_le_bytes_injective(x: nat, y: nat, n: nat)
    requires
        le_bytes(x, n) == le_bytes(y, n),
        x < vstd::arithmetic::power::pow(256, n),
        y < vstd::arithmetic::power::pow(256, n),
    ensures
        x == y,
    decreases n,
{
    reveal(vstd::arithmetic::power::pow);
    if n > 0 {
        let m = (n - 1) as nat;
        let a = seq![(x % 256) as u8];
        let b = seq![(y % 256) as u8];
        assert((a + le_bytes(x / 256, m))[0] == (b + le_bytes(y / 256, m))[0]);
        assert((a + le_bytes(x / 256, m)).skip(1) =~= le_bytes(x / 256, m));
        assert((b + le_bytes(y / 256, m)).skip(1) =~= le_bytes(y / 256, m));
        assert(x % 256 == y % 256);
        lemma_le_bytes_injective(x / 256, y / 256, m);
    }
}

/// Two duels of different games or creators have different seeds, both for
/// their records and for their vaults, and a record never shares its seeds
/// with a vault.
pub proof fn law_seeds_tell_duels_apart(g: u64, h: u64, a: Pubkey, b: Pubkey)
    ensures
        duel_seeds(g, a) == duel_seeds(h, b) ==> g == h && a == b,
        vault_seeds(g, a) == vault_seeds(h, b) ==> g == h && a == b,
        duel_seeds(g, a) != vault_seeds(h, b),
{
    let p = vstd::arithmetic::power::pow(256, 8);
    assert(p == 0x1_0000_0000_0000_0000) by {
        reveal_with_fuel(vstd::arithmetic::power::pow, 9);
    }
    if le_bytes(g as nat, 8) == le_bytes(h as nat, 8) {
        lemma_le_bytes_injective(g as nat, h as nat, 8);
    }
    if a@ == b@ {
        crate::pubkey::lemma_key_of_bytes(a, b);
    }
    if duel_seeds(g, a) == duel_seeds(h, b) {
        assert(duel_seeds(g, a)[1] == duel_seeds(h, b)[1]);
        assert(duel_seeds(g, a)[2] == duel_seeds(h, b)[2]);
    }
    if vault_seeds(g, a) == vault_seeds(h, b) {
        assert(vault_seeds(g, a)[1] == vault_seeds(h, b)[1]);
        assert(vault_seeds(g, a)[2] == vault_seeds(h, b)[2]);
    }
    if duel_seeds(g, a) == vault_seeds(h, b) {
        assert(duel_seeds(g, a)[0].len() == vault_seeds(h, b)[0].len());
    }
}

} // verus!
