//! The treasury and its admin.
use crate::accounts::check_admin;
use crate::accounts::{admin_error, AdminOnly, InitializeTreasury, WithdrawTreasury};
use crate::address::{canonical_bump, program_id_bytes, treasury_seeds};
use crate::errors::{DuelError, InstructionError};
use crate::lamports::move_lamports;
use crate::loader::check_upgrade_authority;
use crate::loader::is_upgrade_authority;
use crate::pubkey::Pubkey;
use crate::state::Treasury;
use vstd::prelude::*;

verus! {

/// Why the setup is refused.
pub open spec fn initialize_error(ctx: InitializeTreasury) -> Option<InstructionError> {
    if ctx.accounts_error() is Some {
        ctx.accounts_error()
    } else if !is_upgrade_authority(ctx.program_data_owner, ctx.program_data@, ctx.admin) {
        Some(InstructionError::Duel(DuelError::Unauthorized))
    } else {
        None
    }
}

/// The treasury as the setup leaves it.
pub open spec fn fresh_treasury(admin: Pubkey, bump: u8) -> Treasury {
    Treasury { admin, paused: false, max_bet_lamports: 0, bump }
}

/// One-time setup. Only the program's upgrade authority can do it, so that
/// nobody seizes the admin's place by calling first.
pub fn initialize_treasury(ctx: &mut InitializeTreasury) -> (r: Result<(), InstructionError>)
    ensures
        match initialize_error(*old(ctx)) {
            Some(e) => r == Err::<(), InstructionError>(e) && *final(ctx) == *old(ctx),
            None => r is Ok && *final(ctx) == (InitializeTreasury {
                treasury: Some(
                    fresh_treasury(
                        old(ctx).admin,
                        canonical_bump(treasury_seeds(), program_id_bytes()@)->0,
                    ),
                ),
                ..*old(ctx)
            }),
        },
{
    let bump: u8 = ctx.check()?;
    match check_upgrade_authority(&ctx.program_data_owner, ctx.program_data, &ctx.admin) {
        Ok(()) => {},
        Err(e) => return Err(InstructionError::Duel(e)),
    }
    ctx.treasury =
    Some(Treasury { admin: ctx.admin, paused: false, max_bet_lamports: 0, bump });
    Ok(())
}

/// A treasury with the pause set or lifted.
pub open spec fn with_paused(treasury: Treasury, paused: bool) -> Treasury {
    Treasury { paused, ..treasury }
}

/// A treasury with another limit on bets.
pub open spec fn with_max_bet(treasury: Treasury, max_bet_lamports: u64) -> Treasury {
    Treasury { max_bet_lamports, ..treasury }
}

/// Pauses new duels, or allows them again.
pub fn set_paused(ctx: &mut AdminOnly, paused: bool) -> (r: Result<(), InstructionError>)
    ensures
        match admin_error(old(ctx).admin, old(ctx).treasury_key, old(ctx).treasury) {
            Some(e) => r == Err::<(), InstructionError>(e) && *final(ctx) == *old(ctx),
            None => r is Ok && *final(ctx) == (AdminOnly {
                treasury: Some(with_paused(old(ctx).treasury->0, paused)),
                ..*old(ctx)
            }),
        },
{
    let mut t: Treasury = check_admin(&ctx.admin, &ctx.treasury_key, &ctx.treasury)?;
    t.paused = paused;
    ctx.treasury = Some(t);
    Ok(())
}

/// Sets the largest bet of new duels; 0 for no limit.
pub fn set_max_bet(ctx: &mut AdminOnly, max_bet_lamports: u64) -> (r: Result<(), InstructionError>)
    ensures
        match admin_error(old(ctx).admin, old(ctx).treasury_key, old(ctx).treasury) {
            Some(e) => r == Err::<(), InstructionError>(e) && *final(ctx) == *old(ctx),
            None => r is Ok && *final(ctx) == (AdminOnly {
                treasury: Some(with_max_bet(old(ctx).treasury->0, max_bet_lamports)),
                ..*old(ctx)
            }),
        },
{
    let mut t: Treasury = check_admin(&ctx.admin, &ctx.treasury_key, &ctx.treasury)?;
    t.max_bet_lamports = max_bet_lamports;
    ctx.treasury = Some(t);
    Ok(())
}

/// Why an amount cannot be taken out of the treasury.
pub open spec fn take_error(ctx: WithdrawTreasury, rent_min: u64, amount: u64) -> Option<
    InstructionError,
> {
    if ctx.treasury_lamports < rent_min + amount {
        Some(InstructionError::Duel(DuelError::TreasuryRentViolation))
    } else if amount > 0 && ctx.destination == ctx.treasury_key {
        Some(InstructionError::AccountBorrowFailed)
    } else if ctx.destination_lamports + amount > u64::MAX {
        Some(InstructionError::Duel(DuelError::MathOverflow))
    } else {
        None
    }
}

/// The accounts after a withdrawal.
pub open spec fn withdrawn(ctx: WithdrawTreasury, amount: u64) -> WithdrawTreasury {
    WithdrawTreasury {
        treasury_lamports: (ctx.treasury_lamports - amount) as u64,
        destination_lamports: (ctx.destination_lamports + amount) as u64,
        ..ctx
    }
}

/// Takes an amount out of the treasury, leaving it at least `rent_min`.
pub fn take_from_treasury(ctx: &mut WithdrawTreasury, rent_min: u64, amount: u64) -> (r: Result<
    (),
    InstructionError,
>)
    ensures
        match take_error(*old(ctx), rent_min, amount) {
            Some(e) => r == Err::<(), InstructionError>(e) && *final(ctx) == *old(ctx),
            None => r is Ok && *final(ctx) == withdrawn(*old(ctx), amount),
        },
{
    let available: u64 = match ctx.treasury_lamports.checked_sub(rent_min) {
        Some(a) => a,
        None => return Err(InstructionError::Duel(DuelError::TreasuryRentViolation)),
    };
    if amount > available {
        return Err(InstructionError::Duel(DuelError::TreasuryRentViolation));
    }
    if amount > 0 && ctx.destination == ctx.treasury_key {
        return Err(InstructionError::AccountBorrowFailed);
    }
    let mut from: u64 = ctx.treasury_lamports;
    let mut to: u64 = ctx.destination_lamports;
    match move_lamports(&mut from, &mut to, amount) {
        Ok(()) => {},
        Err(e) => return Err(InstructionError::Duel(e)),
    }
    ctx.treasury_lamports = from;
    ctx.destination_lamports = to;
    Ok(())
}

/// Why a withdrawal is refused.
pub open spec fn withdraw_error(ctx: WithdrawTreasury, rent_min: u64, amount: u64) -> Option<
    InstructionError,
> {
    let admin = admin_error(ctx.admin, ctx.treasury_key, ctx.treasury);
    if admin is Some {
        admin
    } else {
        take_error(ctx, rent_min, amount)
    }
}

/// Moves an amount from the treasury to a destination of the admin's choice.
/// The treasury keeps the rent reserve of its account, `rent_min`.
pub fn withdraw_treasury(ctx: &mut WithdrawTreasury, rent_min: u64, amount: u64) -> (r: Result<
    (),
    InstructionError,
>)
    ensures
        match withdraw_error(*old(ctx), rent_min, amount) {
            Some(e) => r == Err::<(), InstructionError>(e) && *final(ctx) == *old(ctx),
            None => r is Ok && *final(ctx) == withdrawn(*old(ctx), amount),
        },
{
    check_admin(&ctx.admin, &ctx.treasury_key, &ctx.treasury)?;
    take_from_treasury(ctx, rent_min, amount)
}

} // verus!
