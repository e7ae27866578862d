//! What a call of each instruction, and of each rule under it, does.
//!
//! Each law takes the arguments of a call and what came back, and says how the
//! two relate.
use crate::accounts::{admin_error, vault_bump};
use crate::accounts::{
    AdminOnly, CloseDuel, CreateDuel, InitializeTreasury, JoinDuel, SettleDuel, WithdrawTreasury,
};
use crate::address::{
    canonical_bump, duel_seeds, program_id_bytes, treasury_seeds, vault_seeds,
};
use crate::close::{close_checked, close_duel, close_error, close_rule, CloseOutcome};
use crate::create::{create_duel, create_error, new_duel, open_duel, terms_error, CreateOutcome, Terms};
use crate::dice::{next_coin, next_d6, roll_dice};
use crate::errors::{DuelError, InstructionError};
use crate::events::Settlement;
use crate::join::{enter, join_duel, join_error, join_rule, JoinOutcome};
use crate::lamports::{move_lamports, push_payout, split_pot, vault_payout, VaultTransfer};
use crate::laws::admission::{
    is_top_bump, law_canonical_bump_is_the_largest, law_close_accounts,
    law_close_needs_its_accounts, law_create_accounts, law_join_accounts,
    law_listing_can_be_cancelled, law_settle_accounts, law_settled_duel_can_be_closed,
    law_setup_accounts, law_when_admin_passes, law_when_join_succeeds, law_when_listing_succeeds,
    law_when_refund_succeeds, law_when_settlement_succeeds, law_when_setup_succeeds,
    law_when_withdrawal_succeeds, record_stands, stands_at, stands_at_top, treasury_stands,
};
use crate::laws::outcome::{
    law_die_falls_back_on_the_first_byte, law_die_is_a_used_byte,
    law_next_die_is_the_next_used_byte, law_settlement_transfers_in_order,
    law_closing_given_the_randomness, law_settling_given_the_bytes, law_when_entry_is_allowed, law_when_terms_are_accepted, law_winner_follows_the_roll,
    rolled_even, rolled_for_creator, used_before,
};
use crate::loader::{loader_bytes, program_data_seeds, upgrade_authority};
use crate::pubkey::{nobody, Pubkey};
use crate::settle::{
    decide, decided, result_bytes, settle_checked, settle_duel, settle_error, settle_rule,
    SettleOutcome,
};
use crate::state::{CoinSide, Duel, DuelStatus, GameKind, Treasury, WinCondition};
use crate::treasury::{
    initialize_error, initialize_treasury, set_max_bet, set_paused, take_from_treasury,
    withdraw_error, withdraw_treasury,
};
use crate::vrf::{config_seeds, randomness_account, randomness_seeds, vrf_program_bytes};
use crate::vrf::{is_randomness_fulfilled, read_fulfilled_randomness};
use vstd::prelude::*;

verus! {

/// A call of the setup goes through for the upgrade authority alone, while
/// there is no treasury. It makes the caller the admin of one that takes any
/// bet, and remembers the bump of its address. A refused call changes nothing.
pub proof fn law_setup_call<'a>(
    ctx: &mut InitializeTreasury<'a>,
    r: Result<(), InstructionError>,
)
    requires
        call_ensures(initialize_treasury, (ctx,), r),
    ensures
        ({
            let before = *old(ctx);
            let after = *final(ctx);
            let seeds = treasury_seeds();
            let stands = stands_at_top(before.treasury_key, seeds, program_id_bytes()@)
                && before.treasury is None && stands_at_top(
                before.program_data_key,
                program_data_seeds(),
                loader_bytes()@,
            );
            let authorized = before.program_data_owner.bytes == loader_bytes()
                && upgrade_authority(before.program_data@) == Some(Some(before.admin@));
            &&& r is Ok <==> stands && authorized
            &&& stands && !authorized ==> r == Err::<(), InstructionError>(
                InstructionError::Duel(DuelError::Unauthorized),
            )
            &&& r is Err ==> after == before
            &&& r matches Err(e) ==> initialize_error(before) == Some(e)
            &&& r is Ok ==> {
                let t = after.treasury->0;
                &&& after == (InitializeTreasury { treasury: Some(t), ..before })
                &&& t.admin == before.admin
                &&& !t.paused
                &&& t.max_bet_lamports == 0
                &&& is_top_bump(seeds, t.bump, program_id_bytes()@)
                &&& stands_at(before.treasury_key, seeds, t.bump, program_id_bytes()@)
            }
        }),
{
    law_setup_accounts(*ctx);
    law_when_setup_succeeds(*ctx);
    if let Some(b) = canonical_bump(treasury_seeds(), program_id_bytes()@) {
        law_canonical_bump_is_the_largest(treasury_seeds(), program_id_bytes()@, b);
    }
}

/// A call to pause or to go on is the admin's, and does just that.
pub proof fn law_pause_call(ctx: &mut AdminOnly, paused: bool, r: Result<(), InstructionError>)
    requires
        call_ensures(set_paused, (ctx, paused), r),
    ensures
        ({
            let before = *old(ctx);
            let after = *final(ctx);
            &&& r is Ok <==> treasury_stands(before.treasury, before.treasury_key) && (
            before.treasury->0).admin == before.admin
            &&& r is Err ==> after == before
            &&& r matches Err(e) ==> admin_error(before.admin, before.treasury_key, before.treasury) == Some(e)
            &&& r is Ok ==> after == (AdminOnly {
                treasury: Some(Treasury { paused, ..before.treasury->0 }),
                ..before
            })
        }),
{
    law_when_admin_passes(ctx.admin, ctx.treasury_key, ctx.treasury);
}

/// A call to set the limit is the admin's, and does just that.
pub proof fn law_limit_call(ctx: &mut AdminOnly, limit: u64, r: Result<(), InstructionError>)
    requires
        call_ensures(set_max_bet, (ctx, limit), r),
    ensures
        ({
            let before = *old(ctx);
            let after = *final(ctx);
            &&& r is Ok <==> treasury_stands(before.treasury, before.treasury_key) && (
            before.treasury->0).admin == before.admin
            &&& r is Err ==> after == before
            &&& r matches Err(e) ==> admin_error(before.admin, before.treasury_key, before.treasury) == Some(e)
            &&& r is Ok ==> after == (AdminOnly {
                treasury: Some(Treasury { max_bet_lamports: limit, ..before.treasury->0 }),
                ..before
            })
        }),
{
    law_when_admin_passes(ctx.admin, ctx.treasury_key, ctx.treasury);
}

/// A call to withdraw goes through for the admin if and only if the reserve
/// stays, the amount goes elsewhere, and there is room for it; it then moves
/// the amount and nothing else.
pub proof fn law_withdraw_call(
    ctx: &mut WithdrawTreasury,
    rent_min: u64,
    amount: u64,
    r: Result<(), InstructionError>,
)
    requires
        call_ensures(withdraw_treasury, (ctx, rent_min, amount), r),
    ensures
        ({
            let before = *old(ctx);
            let after = *final(ctx);
            &&& r is Ok <==> {
                &&& treasury_stands(before.treasury, before.treasury_key)
                &&& (before.treasury->0).admin == before.admin
                &&& rent_min + amount <= before.treasury_lamports
                &&& amount == 0 || before.destination != before.treasury_key
                &&& before.destination_lamports + amount <= u64::MAX
            }
            &&& r is Err ==> after == before
            &&& r matches Err(e) ==> withdraw_error(before, rent_min, amount) == Some(e)
            &&& r is Ok ==> {
                &&& after.treasury_lamports == before.treasury_lamports - amount
                &&& after.destination_lamports == before.destination_lamports + amount
                &&& after == (WithdrawTreasury {
                    treasury_lamports: after.treasury_lamports,
                    destination_lamports: after.destination_lamports,
                    ..before
                })
            }
        }),
{
    law_when_withdrawal_succeeds(*ctx, rent_min, amount);
}

/// The same of the call that takes the amount once the admin is known.
pub proof fn law_take_call(
    ctx: &mut WithdrawTreasury,
    rent_min: u64,
    amount: u64,
    r: Result<(), InstructionError>,
)
    requires
        call_ensures(take_from_treasury, (ctx, rent_min, amount), r),
    ensures
        ({
            let before = *old(ctx);
            let after = *final(ctx);
            let covered = rent_min + amount <= before.treasury_lamports;
            let apart = amount == 0 || before.destination != before.treasury_key;
            let room = before.destination_lamports + amount <= u64::MAX;
            &&& r is Ok <==> covered && apart && room
            &&& !covered ==> r == Err::<(), InstructionError>(
                InstructionError::Duel(DuelError::TreasuryRentViolation),
            )
            &&& covered && !apart ==> r == Err::<(), InstructionError>(
                InstructionError::AccountBorrowFailed,
            )
            &&& covered && apart && !room ==> r == Err::<(), InstructionError>(
                InstructionError::Duel(DuelError::MathOverflow),
            )
            &&& r is Err ==> after == before
            &&& r is Ok ==> {
                &&& after.treasury_lamports + amount == before.treasury_lamports
                &&& after.destination_lamports == before.destination_lamports + amount
                &&& after == (WithdrawTreasury {
                    treasury_lamports: after.treasury_lamports,
                    destination_lamports: after.destination_lamports,
                    ..before
                })
            }
        }),
{
}

/// A call to list a duel goes through where nothing stands in the way; the new
/// record then says what was offered, the creator owes the vault the bet, and
/// the event tells the same.
pub proof fn law_create_call(
    ctx: &mut CreateDuel,
    now: i64,
    game_id: u64,
    bet: u64,
    condition: WinCondition,
    invited: Option<Pubkey>,
    kind: GameKind,
    side: CoinSide,
    r: Result<CreateOutcome, InstructionError>,
)
    requires
        call_ensures(create_duel, (ctx, now, game_id, bet, condition, invited, kind, side), r),
    ensures
        ({
            let before = *old(ctx);
            let after = *final(ctx);
            let t = before.treasury->0;
            &&& r is Ok <==> {
                &&& treasury_stands(before.treasury, before.treasury_key)
                &&& before.duel is None
                &&& stands_at_top(
                    before.duel_key,
                    duel_seeds(game_id, before.creator),
                    program_id_bytes()@,
                )
                &&& stands_at_top(
                    before.vault,
                    vault_seeds(game_id, before.creator),
                    program_id_bytes()@,
                )
                &&& bet > 0
                &&& !t.paused
                &&& t.max_bet_lamports == 0 || bet <= t.max_bet_lamports
                &&& now + 24 * 60 * 60 <= i64::MAX
            }
            &&& r is Err ==> after == before
            &&& r matches Err(e) ==> create_error(
                before,
                now,
                Terms {
                    game_id,
                    bet_lamports: bet,
                    win_condition: condition,
                    required_opponent: invited,
                    kind,
                    creator_side: side,
                },
            ) == Some(e)
            &&& r is Ok ==> {
                let d = after.duel->0;
                let done = r->Ok_0;
                &&& after == (CreateDuel { duel: Some(d), ..before })
                &&& d == new_duel(
                    before.creator,
                    d.bump,
                    now,
                    Terms {
                        game_id,
                        bet_lamports: bet,
                        win_condition: condition,
                        required_opponent: invited,
                        kind,
                        creator_side: side,
                    },
                )
                &&& d.game_id == game_id
                &&& d.creator == before.creator
                &&& d.required_opponent == invited
                &&& d.bet_lamports == bet
                &&& d.game_kind == kind
                &&& kind == GameKind::Dice ==> d.win_condition == condition
                &&& kind == GameKind::CoinFlip ==> d.creator_side == side
                &&& d.status == DuelStatus::Waiting
                &&& d.opponent == nobody()
                &&& d.created_at == now
                &&& d.expiry == now + 24 * 60 * 60
                &&& stands_at(
                    before.duel_key,
                    duel_seeds(game_id, before.creator),
                    d.bump,
                    program_id_bytes()@,
                )
                &&& done.stake.from == before.creator
                &&& done.stake.to == before.vault
                &&& done.stake.lamports == bet
                &&& done.event.game_id == game_id
                &&& done.event.creator == before.creator
                &&& done.event.bet_lamports == bet
                &&& done.event.required_opponent == invited
                &&& done.event.game_kind == kind
                &&& done.event.creator_side == d.creator_side
            }
        }),
{
    let terms = Terms {
        game_id,
        bet_lamports: bet,
        win_condition: condition,
        required_opponent: invited,
        kind,
        creator_side: side,
    };
    law_create_accounts(*ctx, game_id);
    law_when_listing_succeeds(*ctx, now, terms);
}

/// A call to write a new record, once the accounts are known.
pub proof fn law_open_call(
    creator: Pubkey,
    bump: u8,
    treasury: Treasury,
    now: i64,
    terms: Terms,
    r: Result<Duel, DuelError>,
)
    requires
        call_ensures(open_duel, (creator, bump, &treasury, now, &terms), r),
    ensures
        r is Ok <==> {
            &&& terms.bet_lamports > 0
            &&& !treasury.paused
            &&& treasury.max_bet_lamports == 0 || terms.bet_lamports <= treasury.max_bet_lamports
            &&& now + 24 * 60 * 60 <= i64::MAX
        },
        r matches Err(e) ==> terms_error(treasury, terms.bet_lamports, now) == Some(e),
        r matches Ok(d) ==> {
            &&& d == new_duel(creator, bump, now, terms)
            &&& d.game_id == terms.game_id
            &&& d.creator == creator
            &&& d.bump == bump
            &&& d.required_opponent == terms.required_opponent
            &&& d.bet_lamports == terms.bet_lamports
            &&& d.game_kind == terms.kind
            &&& terms.kind == GameKind::Dice ==> d.win_condition == terms.win_condition
            &&& terms.kind == GameKind::CoinFlip ==> d.creator_side == terms.creator_side
            &&& d.created_at == now
            &&& d.expiry == now + 24 * 60 * 60
        },
{
    law_when_terms_are_accepted(treasury, terms.bet_lamports, now);
}

/// A call to join goes through for anyone but the creator, or for the one
/// invited alone; the record then names the joiner, who owes the vault the
/// same bet, and the randomness is asked for with their entropy.
pub proof fn law_join_call(
    ctx: &mut JoinDuel,
    game_id: u64,
    force: [u8; 32],
    r: Result<JoinOutcome, InstructionError>,
)
    requires
        call_ensures(join_duel, (ctx, game_id, force), r),
    ensures
        ({
            let before = *old(ctx);
            let after = *final(ctx);
            let d = before.duel->0;
            &&& r is Ok <==> {
                &&& record_stands(before.duel, before.duel_key, game_id, before.creator)
                &&& stands_at_top(
                    before.vault,
                    vault_seeds(game_id, before.creator),
                    program_id_bytes()@,
                )
                &&& stands_at_top(before.vrf_config, config_seeds(), vrf_program_bytes()@)
                &&& stands_at_top(before.random, randomness_seeds(force), vrf_program_bytes()@)
                &&& d.status == DuelStatus::Waiting
                &&& before.opponent != d.creator
                &&& d.required_opponent is None || d.required_opponent == Some(before.opponent)
                &&& exists|i: int| 0 <= i < 32 && force[i] != 0
            }
            &&& r is Err ==> after == before
            &&& r matches Err(e) ==> join_error(before, game_id, force) == Some(e)
            &&& r is Ok ==> {
                let done = r->Ok_0;
                &&& after == (JoinDuel {
                    duel: Some(
                        Duel {
                            opponent: before.opponent,
                            force,
                            randomness: before.random,
                            status: DuelStatus::Rolling,
                            ..d
                        },
                    ),
                    ..before
                })
                &&& done.stake.from == before.opponent
                &&& done.stake.to == before.vault
                &&& done.stake.lamports == d.bet_lamports
                &&& done.request.payer == before.opponent
                &&& done.request.network_state == before.vrf_config
                &&& done.request.treasury == before.vrf_treasury
                &&& done.request.request == before.random
                &&& done.request.seed == force
                &&& done.event.game_id == d.game_id
                &&& done.event.opponent == before.opponent
                &&& done.event.randomness == before.random
            }
        }),
{
    law_join_accounts(*ctx, game_id, force);
    law_when_join_succeeds(*ctx, game_id, force);
}

/// A call to enter an opponent, once the accounts are known.
pub proof fn law_enter_call(
    duel: Duel,
    opponent: Pubkey,
    force: [u8; 32],
    random: Pubkey,
    r: Result<Duel, DuelError>,
)
    requires
        call_ensures(enter, (&duel, opponent, &force, random), r),
    ensures
        r is Ok <==> {
            &&& duel.status == DuelStatus::Waiting
            &&& opponent != duel.creator
            &&& duel.required_opponent is None || duel.required_opponent == Some(opponent)
            &&& !(forall|i: int| 0 <= i < 32 ==> force[i] == 0)
        },
        r matches Err(e) ==> join_rule(duel, opponent, force) == Some(e),
        r matches Ok(d) ==> d == (Duel {
            opponent,
            force,
            randomness: random,
            status: DuelStatus::Rolling,
            ..duel
        }),
{
    law_when_entry_is_allowed(duel, opponent, force);
}

/// A call to settle goes through once the duel's own randomness account holds
/// the random bytes. The record then holds the roll and the player whom it
/// favours, and that player is paid the pot less one percent, which goes to
/// the treasury; or each player the stake, when the dice add up to the same.
pub proof fn law_settle_call<'a>(
    ctx: &mut SettleDuel<'a>,
    game_id: u64,
    r: Result<SettleOutcome, InstructionError>,
)
    requires
        call_ensures(settle_duel, (ctx, game_id), r),
    ensures
        ({
            let before = *old(ctx);
            let after = *final(ctx);
            let d = before.duel->0;
            let bytes = randomness_account(before.random_data@)->0->0;
            &&& r is Ok <==> {
                &&& treasury_stands(before.treasury, before.treasury_key)
                &&& record_stands(before.duel, before.duel_key, game_id, before.creator)
                &&& before.opponent == d.opponent
                &&& stands_at_top(
                    before.vault,
                    vault_seeds(game_id, before.creator),
                    program_id_bytes()@,
                )
                &&& d.status == DuelStatus::Rolling
                &&& before.random == d.randomness
                &&& before.random_data@.len() > 0
                &&& randomness_account(before.random_data@) matches Some(Some(_))
                &&& 200 * d.bet_lamports <= u64::MAX || rolled_even(decided(d, bytes))
            }
            &&& r is Err ==> after == before
            &&& r matches Err(e) ==> settle_error(before, game_id) == Some(e)
            &&& r is Ok ==> {
                let next = after.duel->0;
                let paid = (r->Ok_0).payouts@;
                let bet = d.bet_lamports as int;
                let fee = (2 * bet) / 100;
                &&& after == (SettleDuel { duel: Some(next), ..before })
                &&& next == decided(d, bytes)
                &&& next.status == DuelStatus::Settled
                &&& rolled_even(next) ==> next.winner == nobody()
                &&& !rolled_even(next) && rolled_for_creator(next) ==> next.winner == d.creator
                &&& !rolled_even(next) && !rolled_for_creator(next) ==> next.winner == d.opponent
                &&& bet > 0 && rolled_even(next) ==> {
                    &&& paid.len() == 2
                    &&& paid[0].to == d.creator && paid[0].lamports == bet
                    &&& paid[1].to == d.opponent && paid[1].lamports == bet
                }
                &&& bet > 0 && !rolled_even(next) ==> {
                    &&& paid[0].to == next.winner && paid[0].lamports == 2 * bet - fee
                    &&& fee == 0 ==> paid.len() == 1
                    &&& fee > 0 ==> paid.len() == 2 && paid[1].to == before.treasury_key
                        && paid[1].lamports == fee
                }
                &&& bet == 0 ==> paid.len() == 0
                &&& match (r->Ok_0).event {
                    Settlement::Dice(event) => {
                        &&& d.game_kind == GameKind::Dice
                        &&& event.game_id == d.game_id
                        &&& event.winner == next.winner
                        &&& event.is_tie == rolled_even(next)
                        &&& event.creator_dice == next.creator_dice
                        &&& event.opponent_dice == next.opponent_dice
                    },
                    Settlement::CoinFlip(event) => {
                        &&& d.game_kind == GameKind::CoinFlip
                        &&& event.game_id == d.game_id
                        &&& event.winner == next.winner
                        &&& event.creator_side == next.creator_side
                        &&& event.coin_result == next.coin_result
                    },
                }
            }
        }),
{
    law_settle_accounts(*ctx, game_id);
    law_when_settlement_succeeds(*ctx, game_id);
    if r is Ok {
        let bump = vault_bump(game_id, ctx.creator)->0;
        law_settlement_transfers_in_order(*ctx, game_id, bump);
        law_winner_follows_the_roll(ctx.duel->0, randomness_account(ctx.random_data@)->0->0);
    }
}

/// A call to decide a duel enters the roll and the player whom it favours, and
/// tells whether that is the creator, and whether the dice add up to the same.
pub proof fn law_decide_call(duel: &mut Duel, randomness: [u8; 64], r: (bool, bool))
    requires
        call_ensures(decide, (duel, &randomness), r),
    ensures
        ({
            let before = *old(duel);
            let after = *final(duel);
            &&& after == decided(before, randomness@)
            &&& r.1 == rolled_even(after)
            &&& r.0 == rolled_for_creator(after)
            &&& r.1 ==> after.winner == nobody() && after.is_tie
            &&& !r.1 && r.0 ==> after.winner == before.creator
            &&& !r.1 && !r.0 ==> after.winner == before.opponent
            &&& after.status == DuelStatus::Settled
            &&& after == (Duel {
                creator_dice: after.creator_dice,
                opponent_dice: after.opponent_dice,
                coin_result: after.coin_result,
                status: after.status,
                winner: after.winner,
                is_tie: after.is_tie,
                ..before
            })
        }),
{
    law_winner_follows_the_roll(*duel, randomness@);
}

/// A call to close takes the record away and pays back the stakes that are
/// still in the vault. It goes through for anyone on a settled duel whose
/// residual the treasury can take, for the creator on a listing, and for
/// anyone on a joined duel that is past its deadline without randomness.
pub proof fn law_close_call<'a>(
    ctx: &mut CloseDuel<'a>,
    now: i64,
    rent_min: u64,
    game_id: u64,
    r: Result<CloseOutcome, InstructionError>,
)
    requires
        call_ensures(close_duel, (ctx, now, rent_min, game_id), r),
    ensures
        ({
            let before = *old(ctx);
            let after = *final(ctx);
            let d = before.duel->0;
            let settled = d.status == DuelStatus::Settled;
            let listed = d.status == DuelStatus::Waiting;
            let joined = d.status == DuelStatus::Rolling;
            let above = if settled && before.duel_lamports > rent_min {
                before.duel_lamports - rent_min
            } else {
                0
            };
            &&& r is Ok <==> {
                &&& treasury_stands(before.treasury, before.treasury_key)
                &&& record_stands(before.duel, before.duel_key, game_id, before.creator)
                &&& before.duel_key != before.creator
                &&& stands_at_top(
                    before.vault,
                    vault_seeds(game_id, before.creator),
                    program_id_bytes()@,
                )
                &&& settled ==> before.treasury_lamports + above <= u64::MAX
                &&& listed ==> before.caller == d.creator
                &&& joined ==> {
                    &&& before.random == d.randomness
                    &&& !(before.random_data@.len() > 0 && (randomness_account(
                        before.random_data@,
                    ) matches Some(Some(_))))
                    &&& now > d.expiry
                    &&& before.opponent == d.opponent
                }
            }
            &&& r is Err ==> after == before
            &&& r matches Err(e) ==> close_error(before, now, rent_min, game_id) == Some(e)
            &&& r is Ok ==> {
                let done = r->Ok_0;
                let paid = done.payouts@;
                let bet = d.bet_lamports;
                &&& after.treasury_lamports == before.treasury_lamports + above
                &&& after.duel_lamports == before.duel_lamports - above
                &&& after == (CloseDuel {
                    duel: None,
                    treasury_lamports: after.treasury_lamports,
                    duel_lamports: after.duel_lamports,
                    ..before
                })
                &&& done.residual == above
                &&& done.rent == before.duel_lamports - above
                &&& done.rent_to == d.creator
                &&& done.event.game_id == game_id
                &&& done.event.refunded == !settled
                &&& settled || bet == 0 ==> paid.len() == 0
                &&& listed && bet > 0 ==> paid.len() == 1 && paid[0].to == d.creator
                    && paid[0].lamports == bet
                &&& joined && bet > 0 ==> {
                    &&& paid.len() == 2
                    &&& paid[0].to == d.opponent && paid[0].lamports == bet
                    &&& paid[1].to == d.creator && paid[1].lamports == bet
                }
                &&& forall|i: int| #![trigger paid[i]]
                    0 <= i < paid.len() ==> paid[i].from == before.vault
            }
        }),
{
    law_close_accounts(*ctx, game_id);
    if ctx.accounts_error(game_id) is Some {
        law_close_needs_its_accounts(*ctx, now, rent_min, game_id);
    } else {
        match (ctx.duel->0).status {
            DuelStatus::Settled => {
                law_settled_duel_can_be_closed(*ctx, now, rent_min, game_id);
            },
            DuelStatus::Waiting => {
                law_listing_can_be_cancelled(*ctx, now, rent_min, game_id);
            },
            DuelStatus::Rolling => {
                law_when_refund_succeeds(*ctx, now, rent_min, game_id);
            },
        }
    }
}

/// A call to settle, once the accounts are known and the randomness account is
/// read.
pub proof fn law_settle_checked_call<'a>(
    ctx: SettleDuel<'a>,
    duel: Duel,
    game_id: u64,
    bump: u8,
    randomness: Result<[u8; 64], DuelError>,
    r: Result<(Duel, SettleOutcome), DuelError>,
)
    requires
        call_ensures(settle_checked, (&ctx, &duel, game_id, bump, randomness), r),
    ensures
        r is Ok <==> {
            &&& duel.status == DuelStatus::Rolling
            &&& ctx.random == duel.randomness
            &&& randomness is Ok
            &&& 200 * duel.bet_lamports <= u64::MAX || rolled_even(
                decided(duel, (randomness->Ok_0)@),
            )
        },
        r matches Err(e) ==> settle_rule(duel, ctx.random, result_bytes(randomness)) == Some(e),
        r matches Ok((next, done)) ==> {
            let paid = done.payouts@;
            let bet = duel.bet_lamports as int;
            let fee = (2 * bet) / 100;
            &&& next == decided(duel, (randomness->Ok_0)@)
            &&& bet > 0 && rolled_even(next) ==> {
                &&& paid.len() == 2
                &&& paid[0].to == ctx.creator && paid[0].lamports == bet
                &&& paid[1].to == ctx.opponent && paid[1].lamports == bet
            }
            &&& bet > 0 && !rolled_even(next) ==> {
                &&& paid[0].to == if rolled_for_creator(next) {
                    ctx.creator
                } else {
                    ctx.opponent
                }
                &&& paid[0].lamports == 2 * bet - fee
                &&& fee == 0 ==> paid.len() == 1
                &&& fee > 0 ==> paid.len() == 2 && paid[1].to == ctx.treasury_key
                    && paid[1].lamports == fee
            }
            &&& bet == 0 ==> paid.len() == 0
            &&& forall|i: int| #![trigger paid[i]]
                0 <= i < paid.len() ==> paid[i].from == ctx.vault && paid[i].signer.game_id
                    == game_id && paid[i].signer.creator == duel.creator && paid[i].signer.bump
                    == bump
        },
{
    law_settling_given_the_bytes(duel, ctx.random, result_bytes(randomness));
    law_winner_follows_the_roll(duel, (randomness->Ok_0)@);
}

/// A call to close, once the accounts are known and the randomness account is
/// read.
pub proof fn law_close_checked_call<'a>(
    ctx: &mut CloseDuel<'a>,
    duel: Duel,
    now: i64,
    rent_min: u64,
    game_id: u64,
    bump: u8,
    is_fulfilled: bool,
    r: Result<CloseOutcome, DuelError>,
)
    requires
        call_ensures(
            close_checked,
            (ctx, &duel, now, rent_min, game_id, bump, is_fulfilled),
            r,
        ),
    ensures
        ({
            let before = *old(ctx);
            let after = *final(ctx);
            let settled = duel.status == DuelStatus::Settled;
            let listed = duel.status == DuelStatus::Waiting;
            let joined = duel.status == DuelStatus::Rolling;
            let above = if settled && before.duel_lamports > rent_min {
                before.duel_lamports - rent_min
            } else {
                0
            };
            &&& r is Ok <==> {
                &&& settled ==> before.treasury_lamports + above <= u64::MAX
                &&& listed ==> before.caller == duel.creator
                &&& joined ==> before.random == duel.randomness && !is_fulfilled && now
                    > duel.expiry && before.opponent == duel.opponent
            }
            &&& r is Err ==> after == before
            &&& r matches Err(e) ==> close_rule(before, duel, now, rent_min, is_fulfilled) == Some(e)
            &&& r is Ok ==> {
                let done = r->Ok_0;
                let paid = done.payouts@;
                let bet = duel.bet_lamports;
                &&& after.duel is None
                &&& after.treasury_lamports == before.treasury_lamports + above
                &&& after.duel_lamports == before.duel_lamports - above
                &&& done.residual == above
                &&& done.rent == before.duel_lamports - above
                &&& done.rent_to == before.creator
                &&& done.event.game_id == game_id
                &&& done.event.refunded == !settled
                &&& settled || bet == 0 ==> paid.len() == 0
                &&& listed && bet > 0 ==> paid.len() == 1 && paid[0].to == before.creator
                    && paid[0].lamports == bet
                &&& joined && bet > 0 ==> {
                    &&& paid.len() == 2
                    &&& paid[0].to == before.opponent && paid[0].lamports == bet
                    &&& paid[1].to == before.creator && paid[1].lamports == bet
                }
                &&& forall|i: int| #![trigger paid[i]]
                    0 <= i < paid.len() ==> paid[i].from == before.vault && paid[i].signer.game_id
                        == game_id && paid[i].signer.creator == duel.creator
                        && paid[i].signer.bump == bump
            }
        }),
{
    law_closing_given_the_randomness(*ctx, duel, now, rent_min, is_fulfilled);
}

/// Reading a randomness account gives the random bytes that its data holds;
/// the question whether they are there is answered with yes exactly then.
pub proof fn law_read_calls(data: &[u8], r: Result<[u8; 64], DuelError>, there: bool)
    requires
        call_ensures(read_fulfilled_randomness, (data,), r),
        call_ensures(is_randomness_fulfilled, (data,), there),
    ensures
        there == r is Ok,
        there <==> data@.len() > 0 && (randomness_account(data@) matches Some(Some(_))),
        r matches Ok(bytes) ==> randomness_account(data@) == Some(Some(bytes@)),
        r matches Err(e) ==> e == DuelError::RandomnessNotReady,
{
}

/// A call to split a pot gives one percent of two bets, rounded down, and the
/// rest, as long as two hundred bets fit in 64 bits.
pub proof fn law_split_call(bet: u64, r: Result<(u64, u64), DuelError>)
    requires
        call_ensures(split_pot, (bet,), r),
    ensures
        r is Ok <==> 200 * bet <= u64::MAX,
        r is Err ==> r == Err::<(u64, u64), DuelError>(DuelError::MathOverflow),
        r matches Ok((win, fee)) ==> win + fee == 2 * bet && fee * 100 <= 2 * bet < fee * 100 + 100,
{
}

/// A call to move lamports moves them, or says why not: for want of funds, and
/// then nothing moves, or for want of room, and then the debit stands.
pub proof fn law_move_call(from: &mut u64, to: &mut u64, amount: u64, r: Result<(), DuelError>)
    requires
        call_ensures(move_lamports, (from, to, amount), r),
    ensures
        r is Ok <==> amount <= *old(from) && *old(to) + amount <= u64::MAX,
        r is Ok ==> *final(from) + amount == *old(from) && *final(to) == *old(to) + amount,
        amount > *old(from) ==> r == Err::<(), DuelError>(DuelError::InsufficientFunds)
            && *final(from) == *old(from) && *final(to) == *old(to),
        amount <= *old(from) && *old(to) + amount > u64::MAX ==> r == Err::<(), DuelError>(
            DuelError::MathOverflow,
        ) && *final(from) + amount == *old(from) && *final(to) == *old(to),
{
}

/// A call to pay out makes a transfer of the amount, and none of nothing; it
/// is appended to those before it.
pub proof fn law_payout_calls(
    payouts: &mut Vec<VaultTransfer>,
    vault: Pubkey,
    to: Pubkey,
    amount: u64,
    game_id: u64,
    creator: Pubkey,
    bump: u8,
    transfer: Option<VaultTransfer>,
)
    requires
        call_ensures(vault_payout, (vault, to, amount, game_id, creator, bump), transfer),
        call_ensures(push_payout, (payouts, transfer), ()),
    ensures
        amount == 0 ==> final(payouts)@ == old(payouts)@,
        amount > 0 ==> {
            &&& final(payouts)@.len() == old(payouts)@.len() + 1
            &&& final(payouts)@.drop_last() == old(payouts)@
            &&& final(payouts)@.last().from == vault
            &&& final(payouts)@.last().to == to
            &&& final(payouts)@.last().lamports == amount
            &&& final(payouts)@.last().signer.game_id == game_id
            &&& final(payouts)@.last().signer.creator == creator
            &&& final(payouts)@.last().signer.bump == bump
        },
{
}

/// A call for the next die finds the first byte below 252 at the cursor or
/// after it, shows its remainder by six, plus one, and passes it.
pub proof fn law_next_die_call(bytes: [u8; 64], cursor: &mut usize, r: u8, at: int)
    requires
        call_ensures(next_d6, (&bytes, cursor), r),
        *old(cursor) <= at < 64,
        forall|i: int| *old(cursor) <= i < at ==> bytes@[i] >= 252,
        bytes@[at] < 252,
    ensures
        r == bytes@[at] % 6 + 1,
        *final(cursor) == at + 1,
{
    law_next_die_is_the_next_used_byte(bytes@, *cursor as int, at);
}

/// Where no byte is left for it, the first byte of all decides.
pub proof fn law_next_die_call_without_bytes(bytes: [u8; 64], cursor: &mut usize, r: u8)
    requires
        call_ensures(next_d6, (&bytes, cursor), r),
        forall|i: int| *old(cursor) <= i < 64 ==> bytes@[i] >= 252,
    ensures
        r == bytes@[0] % 6 + 1,
        *old(cursor) <= 64 ==> *final(cursor) == 64,
        *old(cursor) > 64 ==> *final(cursor) == *old(cursor),
{
    if *cursor <= 64 {
        law_next_die_is_the_next_used_byte(bytes@, *cursor as int, 64);
    }
}

/// The die that a call of the roll gives at one of its four places.
pub open spec fn rolled_at(r: ([u8; 2], [u8; 2]), n: int) -> u8 {
    if n < 2 {
        r.0[n]
    } else {
        r.1[n - 2]
    }
}

/// A call of the roll gives four dice, two and two. Each is that of the byte
/// below 252 that has as many such bytes before it as there are dice before
/// it, or of the first byte of all when there are too few.
pub proof fn law_roll_call(bytes: [u8; 64], r: ([u8; 2], [u8; 2]), n: int, at: int)
    requires
        call_ensures(roll_dice, (&bytes,), r),
        0 <= n < 4,
    ensures
        1 <= rolled_at(r, n) <= 6,
        0 <= at < 64 && bytes@[at] < 252 && used_before(bytes@, at) == n ==> rolled_at(r, n)
            == bytes@[at] % 6 + 1,
        used_before(bytes@, 64) <= n ==> rolled_at(r, n) == bytes@[0] % 6 + 1,
{
    if 0 <= at < 64 && bytes@[at] < 252 && used_before(bytes@, at) == n {
        law_die_is_a_used_byte(bytes@, n, at);
    }
    if used_before(bytes@, 64) <= n {
        law_die_falls_back_on_the_first_byte(bytes@, n);
    }
}

/// A call of the coin shows heads if and only if the first byte is even.
pub proof fn law_coin_call(bytes: [u8; 64], r: CoinSide)
    requires
        call_ensures(next_coin, (&bytes,), r),
    ensures
        r == CoinSide::Heads <==> bytes@[0] % 2 == 0,
{
}

} // verus!
