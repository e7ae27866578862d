//! Cancelling, refunding and closing a duel.
use crate::accounts::vault_bump;
use crate::accounts::CloseDuel;
use crate::errors::{DuelError, InstructionError};
use crate::events::DuelClosed;
use crate::lamports::{payout, VaultSigner};
use crate::lamports::{move_lamports, push_payout, vault_payout, VaultTransfer};
use crate::pubkey::Pubkey;
use crate::state::{Duel, DuelStatus};
use crate::vrf::fulfilled;
use crate::vrf::is_randomness_fulfilled;
use vstd::prelude::*;

verus! {

/// What follows from closing a duel.
#[derive(Debug)]
pub struct CloseOutcome {
    /// The transfers to make out of the vault, in this order.
    pub payouts: Vec<VaultTransfer>,
    /// What the treasury got of the balance of the duel's record.
    pub residual: u64,
    /// The rest of that balance, to be returned when the record goes.
    pub rent: u64,
    /// Who gets it.
    pub rent_to: Pubkey,
    pub event: DuelClosed,
}

/// What the treasury gets of the balance of a duel's record: of a settled one
/// whatever is above the rent, of any other nothing.
pub open spec fn residual(duel: Duel, lamports: u64, rent_min: u64) -> int {
    if duel.status == DuelStatus::Settled && lamports > rent_min {
        lamports - rent_min
    } else {
        0
    }
}

/// Why a duel cannot be closed, given whether its randomness is there.
///
/// A settled duel is anyone's to close, as long as the treasury can take the
/// residual. A listing is the creator's to cancel. A joined duel is refunded
/// only when the randomness never came and the deadline has passed: once the
/// outcome is decided the duel has to be settled, or a loser could wait out
/// the deadline and take the stake back.
pub open spec fn close_rule(
    ctx: CloseDuel,
    duel: Duel,
    now: i64,
    rent_min: u64,
    is_fulfilled: bool,
) -> Option<DuelError> {
    match duel.status {
        DuelStatus::Settled => if ctx.treasury_lamports + residual(
            duel,
            ctx.duel_lamports,
            rent_min,
        ) > u64::MAX {
            Some(DuelError::MathOverflow)
        } else {
            None
        },
        DuelStatus::Waiting => if ctx.caller != duel.creator {
            Some(DuelError::Unauthorized)
        } else {
            None
        },
        DuelStatus::Rolling => if ctx.random != duel.randomness {
            Some(DuelError::RandomnessMismatch)
        } else if is_fulfilled {
            Some(DuelError::AlreadyFulfilled)
        } else if now <= duel.expiry {
            Some(DuelError::NotExpired)
        } else if ctx.opponent != duel.opponent {
            Some(DuelError::Unauthorized)
        } else {
            None
        },
    }
}

/// What is paid out of the vault: each stake that is still in it goes back.
pub open spec fn close_payouts(ctx: CloseDuel, duel: Duel, game_id: u64, bump: u8) -> Seq<
    VaultTransfer,
> {
    let signer = VaultSigner { game_id, creator: duel.creator, bump };
    let bet = duel.bet_lamports as int;
    match duel.status {
        DuelStatus::Settled => Seq::empty(),
        DuelStatus::Waiting => payout(ctx.vault, ctx.creator, bet, signer),
        DuelStatus::Rolling => payout(ctx.vault, ctx.opponent, bet, signer) + payout(
            ctx.vault,
            ctx.creator,
            bet,
            signer,
        ),
    }
}

/// What is announced of a duel that is closed.
pub open spec fn closing(duel: Duel, game_id: u64) -> DuelClosed {
    DuelClosed { game_id, refunded: duel.status != DuelStatus::Settled }
}

/// The accounts after a close: the record is gone, the treasury has the
/// residual, and the rest of the record's balance is left to return.
pub open spec fn closed<'info>(ctx: CloseDuel<'info>, duel: Duel, rent_min: u64) -> CloseDuel<
    'info,
> {
    let swept = residual(duel, ctx.duel_lamports, rent_min);
    CloseDuel {
        duel: None,
        duel_lamports: (ctx.duel_lamports - swept) as u64,
        treasury_lamports: (ctx.treasury_lamports + swept) as u64,
        ..ctx
    }
}

/// Whether an outcome is that of closing a duel.
pub open spec fn is_close_outcome(
    outcome: CloseOutcome,
    ctx: CloseDuel,
    duel: Duel,
    rent_min: u64,
    game_id: u64,
    bump: u8,
) -> bool {
    &&& outcome.payouts@ == close_payouts(ctx, duel, game_id, bump)
    &&& outcome.residual == residual(duel, ctx.duel_lamports, rent_min)
    &&& outcome.rent == ctx.duel_lamports - residual(duel, ctx.duel_lamports, rent_min)
    &&& outcome.rent_to == ctx.creator
    &&& outcome.event == closing(duel, game_id)
}

/// Closes a duel whose accounts were checked, given whether its randomness is
/// there.
pub fn close_checked(
    ctx: &mut CloseDuel,
    duel: &Duel,
    now: i64,
    rent_min: u64,
    game_id: u64,
    bump: u8,
    is_fulfilled: bool,
) -> (r: Result<CloseOutcome, DuelError>)
    ensures
        match close_rule(*old(ctx), *duel, now, rent_min, is_fulfilled) {
            Some(e) => r == Err::<CloseOutcome, DuelError>(e) && *final(ctx) == *old(ctx),
            None => {
                &&& r is Ok
                &&& is_close_outcome(r->Ok_0, *old(ctx), *duel, rent_min, game_id, bump)
                &&& *final(ctx) == closed(*old(ctx), *duel, rent_min)
            },
        },
{
    let bet: u64 = duel.bet_lamports;
    let mut payouts: Vec<VaultTransfer> = Vec::new();
    let mut refunded: bool = false;
    let mut residual: u64 = 0;
    let mut record: u64 = ctx.duel_lamports;
    let mut treasury: u64 = ctx.treasury_lamports;
    match duel.status {
        DuelStatus::Settled => {
            if record > rent_min {
                residual = record - rent_min;
            }
            move_lamports(&mut record, &mut treasury, residual)?;
        },
        DuelStatus::Waiting => {
            if ctx.caller != duel.creator {
                return Err(DuelError::Unauthorized);
            }
            push_payout(
                &mut payouts,
                vault_payout(ctx.vault, ctx.creator, bet, game_id, duel.creator, bump),
            );
            refunded = true;
        },
        DuelStatus::Rolling => {
            if ctx.random != duel.randomness {
                return Err(DuelError::RandomnessMismatch);
            }
            if is_fulfilled {
                return Err(DuelError::AlreadyFulfilled);
            }
            if now <= duel.expiry {
                return Err(DuelError::NotExpired);
            }
            if ctx.opponent != duel.opponent {
                return Err(DuelError::Unauthorized);
            }
            push_payout(
                &mut payouts,
                vault_payout(ctx.vault, ctx.opponent, bet, game_id, duel.creator, bump),
            );
            push_payout(
                &mut payouts,
                vault_payout(ctx.vault, ctx.creator, bet, game_id, duel.creator, bump),
            );
            refunded = true;
        },
    }
    assert(payouts@ =~= close_payouts(*old(ctx), *duel, game_id, bump));
    ctx.duel = None;
    ctx.duel_lamports = record;
    ctx.treasury_lamports = treasury;
    Ok(
        CloseOutcome {
            payouts,
            residual,
            rent: record,
            rent_to: ctx.creator,
            event: DuelClosed { game_id, refunded },
        },
    )
}

/// Why an instruction to close is refused.
pub open spec fn close_error(ctx: CloseDuel, now: i64, rent_min: u64, game_id: u64) -> Option<
    InstructionError,
> {
    if ctx.accounts_error(game_id) is Some {
        ctx.accounts_error(game_id)
    } else {
        match close_rule(ctx, ctx.duel->0, now, rent_min, fulfilled(ctx.random_data@) is Some) {
            Some(e) => Some(InstructionError::Duel(e)),
            None => None,
        }
    }
}

/// Closes a duel's record at the time `now` and returns its rent to the
/// creator. A listing is cancelled and its stake refunded; a joined duel whose
/// randomness never came is refunded to both players. A settled duel has no
/// stakes left to return; whatever its record holds above its rent reserve,
/// `rent_min`, is swept to the treasury.
pub fn close_duel(ctx: &mut CloseDuel, now: i64, rent_min: u64, game_id: u64) -> (r: Result<
    CloseOutcome,
    InstructionError,
>)
    ensures
        match close_error(*old(ctx), now, rent_min, game_id) {
            Some(e) => r == Err::<CloseOutcome, InstructionError>(e) && *final(ctx) == *old(ctx),
            None => {
                let duel = old(ctx).duel->0;
                let bump = vault_bump(game_id, old(ctx).creator)->0;
                &&& r is Ok
                &&& is_close_outcome(r->Ok_0, *old(ctx), duel, rent_min, game_id, bump)
                &&& *final(ctx) == closed(*old(ctx), duel, rent_min)
            },
        },
{
    let (duel, bump) = ctx.check(game_id)?;
    let is_fulfilled: bool = is_randomness_fulfilled(ctx.random_data);
    match close_checked(ctx, &duel, now, rent_min, game_id, bump, is_fulfilled) {
        Ok(outcome) => Ok(outcome),
        Err(e) => Err(InstructionError::Duel(e)),
    }
}

} // verus!
