//! Deciding a duel and paying it out.
use crate::accounts::vault_bump;
use crate::accounts::SettleDuel;
use crate::dice::{coin, die};
use crate::dice::{next_coin, roll_dice};
use crate::errors::{DuelError, InstructionError};
use crate::events::{CoinFlipSettled, DuelSettled, Settlement};
use crate::lamports::{fee_fits, house_fee, payout, winnings, VaultSigner};
use crate::lamports::{push_payout, split_pot, vault_payout, VaultTransfer};
use crate::pubkey::nobody;
use crate::pubkey::Pubkey;
use crate::state::{Duel, DuelStatus, GameKind, WinCondition};
use crate::vrf::fulfilled;
use crate::vrf::read_fulfilled_randomness;
use vstd::prelude::*;

verus! {

/// The creator's dice total.
pub open spec fn creator_total(bytes: Seq<u8>) -> int {
    die(bytes, 0) + die(bytes, 1)
}

/// The opponent's dice total.
pub open spec fn opponent_total(bytes: Seq<u8>) -> int {
    die(bytes, 2) + die(bytes, 3)
}

/// Whether the random bytes make a duel a tie. Only dice can tie.
pub open spec fn ties(duel: Duel, bytes: Seq<u8>) -> bool {
    duel.game_kind == GameKind::Dice && creator_total(bytes) == opponent_total(bytes)
}

/// Whether the random bytes make the creator win.
pub open spec fn creator_wins(duel: Duel, bytes: Seq<u8>) -> bool {
    match duel.game_kind {
        GameKind::Dice => match duel.win_condition {
            WinCondition::HigherWins => creator_total(bytes) > opponent_total(bytes),
            WinCondition::LowerWins => creator_total(bytes) < opponent_total(bytes),
        },
        GameKind::CoinFlip => coin(bytes) == duel.creator_side,
    }
}

/// Who wins: the zero key on a tie.
pub open spec fn winner(duel: Duel, bytes: Seq<u8>) -> Pubkey {
    if ties(duel, bytes) {
        nobody()
    } else if creator_wins(duel, bytes) {
        duel.creator
    } else {
        duel.opponent
    }
}

/// The record of a duel that the random bytes decided.
pub open spec fn decided(duel: Duel, bytes: Seq<u8>) -> Duel {
    let rolled = match duel.game_kind {
        GameKind::Dice => Duel {
            creator_dice: [die(bytes, 0), die(bytes, 1)],
            opponent_dice: [die(bytes, 2), die(bytes, 3)],
            ..duel
        },
        GameKind::CoinFlip => Duel { coin_result: coin(bytes), ..duel },
    };
    Duel {
        status: DuelStatus::Settled,
        is_tie: ties(duel, bytes) || duel.is_tie,
        winner: winner(duel, bytes),
        ..rolled
    }
}

/// What is announced of a duel that the random bytes decided.
pub open spec fn announcement(duel: Duel, bytes: Seq<u8>) -> Settlement {
    match duel.game_kind {
        GameKind::Dice => Settlement::Dice(
            DuelSettled {
                game_id: duel.game_id,
                winner: winner(duel, bytes),
                is_tie: ties(duel, bytes),
                creator_dice: [die(bytes, 0), die(bytes, 1)],
                opponent_dice: [die(bytes, 2), die(bytes, 3)],
            },
        ),
        GameKind::CoinFlip => Settlement::CoinFlip(
            CoinFlipSettled {
                game_id: duel.game_id,
                winner: winner(duel, bytes),
                creator_side: duel.creator_side,
                coin_result: coin(bytes),
            },
        ),
    }
}

/// What is paid out of the vault: on a tie each stake goes back, otherwise the
/// winner gets the pot less the fee, and the treasury the fee.
pub open spec fn settle_payouts(
    ctx: SettleDuel,
    duel: Duel,
    game_id: u64,
    bump: u8,
    bytes: Seq<u8>,
) -> Seq<VaultTransfer> {
    let signer = VaultSigner { game_id, creator: duel.creator, bump };
    let bet = duel.bet_lamports;
    if ties(duel, bytes) {
        payout(ctx.vault, ctx.creator, bet as int, signer) + payout(
            ctx.vault,
            ctx.opponent,
            bet as int,
            signer,
        )
    } else {
        let to = if creator_wins(duel, bytes) {
            ctx.creator
        } else {
            ctx.opponent
        };
        payout(ctx.vault, to, winnings(bet), signer) + payout(
            ctx.vault,
            ctx.treasury_key,
            house_fee(bet),
            signer,
        )
    }
}

/// What follows from settling a duel.
#[derive(Debug)]
pub struct SettleOutcome {
    /// The transfers to make out of the vault, in this order.
    pub payouts: Vec<VaultTransfer>,
    pub event: Settlement,
}

/// Why a duel cannot be settled, given what its randomness account was read as.
pub open spec fn settle_rule(
    duel: Duel,
    random: Pubkey,
    randomness: Result<Seq<u8>, DuelError>,
) -> Option<DuelError> {
    if duel.status != DuelStatus::Rolling {
        Some(DuelError::InvalidState)
    } else if random != duel.randomness {
        Some(DuelError::RandomnessMismatch)
    } else {
        match randomness {
            Err(e) => Some(e),
            Ok(bytes) => if !ties(duel, bytes) && !fee_fits(duel.bet_lamports) {
                Some(DuelError::MathOverflow)
            } else {
                None
            },
        }
    }
}

/// The bytes of a result.
pub open spec fn result_bytes(randomness: Result<[u8; 64], DuelError>) -> Result<
    Seq<u8>,
    DuelError,
> {
    match randomness {
        Ok(bytes) => Ok(bytes@),
        Err(e) => Err(e),
    }
}

/// Writes the outcome that the random bytes decide in a duel's record, and
/// tells whether the creator wins and whether the duel is a tie.
pub fn decide(duel: &mut Duel, randomness: &[u8; 64]) -> (r: (bool, bool))
    ensures
        *final(duel) == decided(*old(duel), randomness@),
        r.0 == creator_wins(*old(duel), randomness@),
        r.1 == ties(*old(duel), randomness@),
{
    duel.status = DuelStatus::Settled;
    let (creator_wins, tie) = match duel.game_kind {
        GameKind::Dice => {
            let (creator_dice, opponent_dice) = roll_dice(randomness);
            duel.creator_dice = creator_dice;
            duel.opponent_dice = opponent_dice;
            let cs: u16 = creator_dice[0] as u16 + creator_dice[1] as u16;
            let os: u16 = opponent_dice[0] as u16 + opponent_dice[1] as u16;
            let creator_wins: bool = match duel.win_condition {
                WinCondition::HigherWins => cs > os,
                WinCondition::LowerWins => cs < os,
            };
            (creator_wins, cs == os)
        },
        GameKind::CoinFlip => {
            let coin_result = next_coin(randomness);
            duel.coin_result = coin_result;
            (coin_result == duel.creator_side, false)
        },
    };
    if tie {
        duel.is_tie = true;
        duel.winner = Pubkey::default();
    } else {
        duel.winner = if creator_wins {
            duel.creator
        } else {
            duel.opponent
        };
    }
    (creator_wins, tie)
}

/// Checks that a duel waits for its randomness, and that the randomness account
/// is the one of this duel.
pub fn check_rolling(duel: &Duel, random: &Pubkey) -> (r: Result<(), DuelError>)
    ensures
        r == if duel.status != DuelStatus::Rolling {
            Err::<(), DuelError>(DuelError::InvalidState)
        } else if *random != duel.randomness {
            Err(DuelError::RandomnessMismatch)
        } else {
            Ok(())
        },
{
    if duel.status != DuelStatus::Rolling {
        return Err(DuelError::InvalidState);
    }
    if *random != duel.randomness {
        return Err(DuelError::RandomnessMismatch);
    }
    Ok(())
}

/// Settles a duel whose accounts were checked, given what its randomness
/// account was read as.
pub fn settle_checked(
    ctx: &SettleDuel,
    duel: &Duel,
    game_id: u64,
    bump: u8,
    randomness: Result<[u8; 64], DuelError>,
) -> (r: Result<(Duel, SettleOutcome), DuelError>)
    ensures
        match settle_rule(*duel, ctx.random, result_bytes(randomness)) {
            Some(e) => r == Err::<(Duel, SettleOutcome), DuelError>(e),
            None => {
                &&& randomness is Ok
                &&& r is Ok
                &&& (r->Ok_0).0 == decided(*duel, (randomness->Ok_0)@)
                &&& (r->Ok_0).1.payouts@ == settle_payouts(
                    *ctx,
                    *duel,
                    game_id,
                    bump,
                    (randomness->Ok_0)@,
                )
                &&& (r->Ok_0).1.event == announcement(*duel, (randomness->Ok_0)@)
            },
        },
{
    check_rolling(duel, &ctx.random)?;
    let bytes: [u8; 64] = randomness?;
    let mut next: Duel = *duel;
    let (creator_wins, tie) = decide(&mut next, &bytes);
    let bet: u64 = duel.bet_lamports;
    let mut payouts: Vec<VaultTransfer> = Vec::new();
    if tie {
        push_payout(
            &mut payouts,
            vault_payout(ctx.vault, ctx.creator, bet, game_id, duel.creator, bump),
        );
        push_payout(
            &mut payouts,
            vault_payout(ctx.vault, ctx.opponent, bet, game_id, duel.creator, bump),
        );
    } else {
        let (win_amount, fee) = split_pot(bet)?;
        let winner_key: Pubkey = if creator_wins {
            ctx.creator
        } else {
            ctx.opponent
        };
        push_payout(
            &mut payouts,
            vault_payout(ctx.vault, winner_key, win_amount, game_id, duel.creator, bump),
        );
        push_payout(
            &mut payouts,
            vault_payout(ctx.vault, ctx.treasury_key, fee, game_id, duel.creator, bump),
        );
    }
    assert(payouts@ =~= settle_payouts(*ctx, *duel, game_id, bump, bytes@));
    let event: Settlement = match next.game_kind {
        GameKind::Dice => Settlement::Dice(
            DuelSettled {
                game_id: next.game_id,
                winner: next.winner,
                is_tie: tie,
                creator_dice: next.creator_dice,
                opponent_dice: next.opponent_dice,
            },
        ),
        GameKind::CoinFlip => Settlement::CoinFlip(
            CoinFlipSettled {
                game_id: next.game_id,
                winner: next.winner,
                creator_side: next.creator_side,
                coin_result: next.coin_result,
            },
        ),
    };
    Ok((next, SettleOutcome { payouts, event }))
}

/// What the data of a randomness account gives a settlement.
pub open spec fn randomness_of(data: Seq<u8>) -> Result<Seq<u8>, DuelError> {
    match fulfilled(data) {
        Some(bytes) => Ok(bytes),
        None => Err(DuelError::RandomnessNotReady),
    }
}

/// Why an instruction to settle is refused.
pub open spec fn settle_error(ctx: SettleDuel, game_id: u64) -> Option<InstructionError> {
    if ctx.accounts_error(game_id) is Some {
        ctx.accounts_error(game_id)
    } else {
        match settle_rule(ctx.duel->0, ctx.random, randomness_of(ctx.random_data@)) {
            Some(e) => Some(InstructionError::Duel(e)),
            None => None,
        }
    }
}

/// Settles a duel; anyone may call it. The random bytes decide, and the vault
/// pays: the winner the pot less the house fee and the treasury the fee, or,
/// on a tie, each player their stake.
pub fn settle_duel(ctx: &mut SettleDuel, game_id: u64) -> (r: Result<
    SettleOutcome,
    InstructionError,
>)
    ensures
        match settle_error(*old(ctx), game_id) {
            Some(e) => r == Err::<SettleOutcome, InstructionError>(e) && *final(ctx) == *old(ctx),
            None => {
                let duel = old(ctx).duel->0;
                let bytes = fulfilled(old(ctx).random_data@)->0;
                &&& r is Ok
                &&& *final(ctx) == (SettleDuel { duel: Some(decided(duel, bytes)), ..*old(ctx) })
                &&& (r->Ok_0).payouts@ == settle_payouts(
                    *old(ctx),
                    duel,
                    game_id,
                    vault_bump(game_id, old(ctx).creator)->0,
                    bytes,
                )
                &&& (r->Ok_0).event == announcement(duel, bytes)
            },
        },
{
    let (duel, bump) = ctx.check(game_id)?;
    let randomness = read_fulfilled_randomness(ctx.random_data);
    match settle_checked(ctx, &duel, game_id, bump, randomness) {
        Ok((next, outcome)) => {
            ctx.duel = Some(next);
            Ok(outcome)
        },
        Err(e) => Err(InstructionError::Duel(e)),
    }
}

} // verus!
