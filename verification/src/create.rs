//! Listing a duel.
use crate::accounts::CreateDuel;
use crate::errors::{DuelError, InstructionError};
use crate::events::DuelCreated;
use crate::lamports::Deposit;
use crate::pubkey::{nobody, zero_bytes};
use crate::pubkey::{zeroed, Pubkey};
use crate::state::{CoinSide, Duel, DuelStatus, GameKind, Treasury, WinCondition};
use crate::DUEL_EXPIRY_SECONDS;
use vstd::prelude::*;

verus! {

/// The terms that a creator offers.
#[derive(Clone, Copy, Debug)]
pub struct Terms {
    pub game_id: u64,
    pub bet_lamports: u64,
    pub win_condition: WinCondition,
    pub required_opponent: Option<Pubkey>,
    pub kind: GameKind,
    pub creator_side: CoinSide,
}

/// What follows from listing a duel.
#[derive(Clone, Copy, Debug)]
pub struct CreateOutcome {
    /// The creator's stake, to be moved into the vault.
    pub stake: Deposit,
    pub event: DuelCreated,
}

/// Why the treasury's settings refuse a bet.
pub open spec fn bet_error(treasury: Treasury, bet: u64) -> Option<DuelError> {
    if bet == 0 {
        Some(DuelError::InvalidBetAmount)
    } else if treasury.paused {
        Some(DuelError::Paused)
    } else if 0 < treasury.max_bet_lamports < bet {
        Some(DuelError::BetTooLarge)
    } else {
        None
    }
}

/// Why a duel cannot be listed.
pub open spec fn terms_error(treasury: Treasury, bet: u64, now: i64) -> Option<DuelError> {
    if bet_error(treasury, bet) is Some {
        bet_error(treasury, bet)
    } else if now + DUEL_EXPIRY_SECONDS > i64::MAX {
        Some(DuelError::MathOverflow)
    } else {
        None
    }
}

/// The dice rule that a duel keeps: the one offered, or the default for a game
/// without dice.
pub open spec fn kept_condition(terms: Terms) -> WinCondition {
    match terms.kind {
        GameKind::Dice => terms.win_condition,
        GameKind::CoinFlip => WinCondition::HigherWins,
    }
}

/// The coin side that a duel keeps: the one picked, or the default for a game
/// without a coin.
pub open spec fn kept_side(terms: Terms) -> CoinSide {
    match terms.kind {
        GameKind::Dice => CoinSide::Heads,
        GameKind::CoinFlip => terms.creator_side,
    }
}

/// The record of a new duel.
pub open spec fn new_duel(creator: Pubkey, bump: u8, now: i64, terms: Terms) -> Duel {
    Duel {
        game_id: terms.game_id,
        creator,
        opponent: nobody(),
        required_opponent: terms.required_opponent,
        bet_lamports: terms.bet_lamports,
        win_condition: kept_condition(terms),
        status: DuelStatus::Waiting,
        game_kind: terms.kind,
        creator_side: kept_side(terms),
        force: zero_bytes(),
        randomness: nobody(),
        creator_dice: [0, 0],
        opponent_dice: [0, 0],
        coin_result: CoinSide::Heads,
        winner: nobody(),
        is_tie: false,
        created_at: now,
        expiry: (now + DUEL_EXPIRY_SECONDS) as i64,
        bump,
    }
}

/// Writes the record of a new duel. What does not apply to the chosen game is
/// set to a default, so that stale input never decides anything.
pub fn open_duel(creator: Pubkey, bump: u8, treasury: &Treasury, now: i64, terms: &Terms) -> (r:
    Result<Duel, DuelError>)
    ensures
        match terms_error(*treasury, terms.bet_lamports, now) {
            Some(e) => r == Err::<Duel, DuelError>(e),
            None => r == Ok::<Duel, DuelError>(new_duel(creator, bump, now, *terms)),
        },
{
    if terms.bet_lamports == 0 {
        return Err(DuelError::InvalidBetAmount);
    }
    if treasury.paused {
        return Err(DuelError::Paused);
    }
    if treasury.max_bet_lamports > 0 {
        if terms.bet_lamports > treasury.max_bet_lamports {
            return Err(DuelError::BetTooLarge);
        }
    }
    let (win_condition, creator_side) = match terms.kind {
        GameKind::Dice => (terms.win_condition, CoinSide::Heads),
        GameKind::CoinFlip => (WinCondition::HigherWins, terms.creator_side),
    };
    let expiry: i64 = match now.checked_add(DUEL_EXPIRY_SECONDS) {
        Some(e) => e,
        None => return Err(DuelError::MathOverflow),
    };
    Ok(
        Duel {
            game_id: terms.game_id,
            creator,
            opponent: Pubkey::default(),
            required_opponent: terms.required_opponent,
            bet_lamports: terms.bet_lamports,
            win_condition,
            status: DuelStatus::Waiting,
            game_kind: terms.kind,
            creator_side,
            force: zeroed(),
            randomness: Pubkey::default(),
            creator_dice: [0, 0],
            opponent_dice: [0, 0],
            coin_result: CoinSide::Heads,
            winner: Pubkey::default(),
            is_tie: false,
            created_at: now,
            expiry,
            bump,
        },
    )
}

/// Why an instruction to list a duel is refused.
pub open spec fn create_error(ctx: CreateDuel, now: i64, terms: Terms) -> Option<
    InstructionError,
> {
    if ctx.accounts_error(terms.game_id) is Some {
        ctx.accounts_error(terms.game_id)
    } else {
        match terms_error(ctx.treasury->0, terms.bet_lamports, now) {
            Some(e) => Some(InstructionError::Duel(e)),
            None => None,
        }
    }
}

/// What follows from listing a duel.
pub open spec fn create_outcome(ctx: CreateDuel, terms: Terms) -> CreateOutcome {
    CreateOutcome {
        stake: Deposit { from: ctx.creator, to: ctx.vault, lamports: terms.bet_lamports },
        event: DuelCreated {
            game_id: terms.game_id,
            creator: ctx.creator,
            bet_lamports: terms.bet_lamports,
            required_opponent: terms.required_opponent,
            game_kind: terms.kind,
            creator_side: kept_side(terms),
        },
    }
}

/// Lists a duel, public or private, at the time `now`. The creator's stake
/// goes into the vault. The listing stays open until someone joins or the
/// creator cancels it.
pub fn create_duel(
    ctx: &mut CreateDuel,
    now: i64,
    game_id: u64,
    bet_lamports: u64,
    win_condition: WinCondition,
    required_opponent: Option<Pubkey>,
    kind: GameKind,
    creator_side: CoinSide,
) -> (r: Result<CreateOutcome, InstructionError>)
    ensures
        ({
            let terms = Terms {
                game_id,
                bet_lamports,
                win_condition,
                required_opponent,
                kind,
                creator_side,
            };
            match create_error(*old(ctx), now, terms) {
                Some(e) => r == Err::<CreateOutcome, InstructionError>(e) && *final(ctx) == *old(
                    ctx,
                ),
                None => {
                    &&& r == Ok::<CreateOutcome, InstructionError>(
                        create_outcome(*old(ctx), terms),
                    )
                    &&& *final(ctx) == (CreateDuel {
                        duel: Some(
                            new_duel(
                                old(ctx).creator,
                                old(ctx).duel_bump(game_id)->0,
                                now,
                                terms,
                            ),
                        ),
                        ..*old(ctx)
                    })
                },
            }
        }),
{
    let terms = Terms {
        game_id,
        bet_lamports,
        win_condition,
        required_opponent,
        kind,
        creator_side,
    };
    let (treasury, bump) = ctx.check(game_id)?;
    let duel: Duel = match open_duel(ctx.creator, bump, &treasury, now, &terms) {
        Ok(d) => d,
        Err(e) => return Err(InstructionError::Duel(e)),
    };
    ctx.duel = Some(duel);
    Ok(
        CreateOutcome {
            stake: Deposit { from: ctx.creator, to: ctx.vault, lamports: bet_lamports },
            event: DuelCreated {
                game_id,
                creator: ctx.creator,
                bet_lamports,
                required_opponent,
                game_kind: kind,
                creator_side: duel.creator_side,
            },
        },
    )
}

} // verus!
