//! Joining a duel.
use crate::accounts::JoinDuel;
use crate::errors::{DuelError, InstructionError};
use crate::events::DuelJoined;
use crate::lamports::Deposit;
use crate::pubkey::zero_bytes;
use crate::pubkey::{same_bytes, zeroed, Pubkey};
use crate::state::{Duel, DuelStatus};
use vstd::prelude::*;

verus! {

/// A request to the randomness service.
#[derive(Clone, Copy, Debug)]
pub struct RandomnessRequest {
    pub payer: Pubkey,
    pub network_state: Pubkey,
    pub treasury: Pubkey,
    pub request: Pubkey,
    pub seed: [u8; 32],
}

/// What follows from joining a duel, in this order.
#[derive(Clone, Copy, Debug)]
pub struct JoinOutcome {
    /// The opponent's stake, to be moved into the vault.
    pub stake: Deposit,
    /// The randomness that decides the duel, to be requested.
    pub request: RandomnessRequest,
    pub event: DuelJoined,
}

/// Why a player cannot join a duel.
pub open spec fn join_rule(duel: Duel, opponent: Pubkey, force: [u8; 32]) -> Option<DuelError> {
    if duel.status != DuelStatus::Waiting {
        Some(DuelError::InvalidState)
    } else if opponent == duel.creator {
        Some(DuelError::CannotJoinOwnDuel)
    } else if duel.required_opponent is Some && duel.required_opponent != Some(opponent) {
        Some(DuelError::NotInvitedOpponent)
    } else if force == zero_bytes() {
        Some(DuelError::BadForce)
    } else {
        None
    }
}

/// The record of a duel that was joined.
pub open spec fn joined(duel: Duel, opponent: Pubkey, force: [u8; 32], random: Pubkey) -> Duel {
    Duel { opponent, force, randomness: random, status: DuelStatus::Rolling, ..duel }
}

/// Enters an opponent, their entropy and the randomness account that it leads
/// to in a duel's record.
pub fn enter(duel: &Duel, opponent: Pubkey, force: &[u8; 32], random: Pubkey) -> (r: Result<
    Duel,
    DuelError,
>)
    ensures
        match join_rule(*duel, opponent, *force) {
            Some(e) => r == Err::<Duel, DuelError>(e),
            None => r == Ok::<Duel, DuelError>(joined(*duel, opponent, *force, random)),
        },
{
    if duel.status != DuelStatus::Waiting {
        return Err(DuelError::InvalidState);
    }
    if opponent == duel.creator {
        return Err(DuelError::CannotJoinOwnDuel);
    }
    if let Some(required) = duel.required_opponent {
        if opponent != required {
            return Err(DuelError::NotInvitedOpponent);
        }
    }
    if same_bytes(force, &zeroed()) {
        return Err(DuelError::BadForce);
    }
    let mut d: Duel = *duel;
    d.opponent = opponent;
    d.force = *force;
    d.randomness = random;
    d.status = DuelStatus::Rolling;
    Ok(d)
}

/// Why an instruction to join is refused.
pub open spec fn join_error(ctx: JoinDuel, game_id: u64, force: [u8; 32]) -> Option<
    InstructionError,
> {
    if ctx.accounts_error(game_id, force) is Some {
        ctx.accounts_error(game_id, force)
    } else {
        match join_rule(ctx.duel->0, ctx.opponent, force) {
            Some(e) => Some(InstructionError::Duel(e)),
            None => None,
        }
    }
}

/// What follows from joining a duel.
pub open spec fn join_outcome(ctx: JoinDuel, force: [u8; 32]) -> JoinOutcome {
    JoinOutcome {
        stake: Deposit {
            from: ctx.opponent,
            to: ctx.vault,
            lamports: (ctx.duel->0).bet_lamports,
        },
        request: RandomnessRequest {
            payer: ctx.opponent,
            network_state: ctx.vrf_config,
            treasury: ctx.vrf_treasury,
            request: ctx.random,
            seed: force,
        },
        event: DuelJoined {
            game_id: (ctx.duel->0).game_id,
            opponent: ctx.opponent,
            randomness: ctx.random,
        },
    }
}

/// Joins a duel: the opponent's matching stake goes into the vault, and the
/// randomness is requested with `force`, entropy that the joiner makes up at
/// this moment. Nobody can know the outcome before, nor take the request's
/// account in advance.
pub fn join_duel(ctx: &mut JoinDuel, game_id: u64, force: [u8; 32]) -> (r: Result<
    JoinOutcome,
    InstructionError,
>)
    ensures
        match join_error(*old(ctx), game_id, force) {
            Some(e) => r == Err::<JoinOutcome, InstructionError>(e) && *final(ctx) == *old(ctx),
            None => {
                &&& r == Ok::<JoinOutcome, InstructionError>(join_outcome(*old(ctx), force))
                &&& *final(ctx) == (JoinDuel {
                    duel: Some(
                        joined(old(ctx).duel->0, old(ctx).opponent, force, old(ctx).random),
                    ),
                    ..*old(ctx)
                })
            },
        },
{
    let duel: Duel = ctx.check(game_id, &force)?;
    let next: Duel = match enter(&duel, ctx.opponent, &force, ctx.random) {
        Ok(d) => d,
        Err(e) => return Err(InstructionError::Duel(e)),
    };
    ctx.duel = Some(next);
    Ok(
        JoinOutcome {
            stake: Deposit { from: ctx.opponent, to: ctx.vault, lamports: duel.bet_lamports },
            request: RandomnessRequest {
                payer: ctx.opponent,
                network_state: ctx.vrf_config,
                treasury: ctx.vrf_treasury,
                request: ctx.random,
                seed: force,
            },
            event: DuelJoined {
                game_id: next.game_id,
                opponent: ctx.opponent,
                randomness: next.randomness,
            },
        },
    )
}

} // verus!
