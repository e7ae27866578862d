//! What the program keeps on chain: one treasury, and one record per duel.
use crate::pubkey::Pubkey;
use vstd::prelude::*;

verus! {

/// The game that a duel plays.
#[derive(Clone, Copy, PartialEq, Eq, Structural, Debug)]
pub enum GameKind {
    /// Two dice each; the totals are compared.
    Dice,
    /// One coin; whoever picked the side that shows wins.
    CoinFlip,
}

/// Which dice total wins.
#[derive(Clone, Copy, PartialEq, Eq, Structural, Debug)]
pub enum WinCondition {
    HigherWins,
    LowerWins,
}

/// A side of the coin.
#[derive(Clone, Copy, PartialEq, Eq, Structural, Debug)]
pub enum CoinSide {
    Heads,
    Tails,
}

/// Where a duel stands.
#[derive(Clone, Copy, PartialEq, Eq, Structural, Debug)]
pub enum DuelStatus {
    /// Listed; the creator's stake is in the vault.
    Waiting,
    /// Joined; both stakes are in the vault and randomness was requested.
    Rolling,
    /// Decided and paid out.
    Settled,
}

/// The house account's record.
#[derive(Clone, Copy, Debug)]
pub struct Treasury {
    /// Who may pause, cap bets and withdraw.
    pub admin: Pubkey,
    /// Whether new duels are refused.
    pub paused: bool,
    /// The largest bet allowed; 0 for no limit.
    pub max_bet_lamports: u64,
    /// The bump seed of the treasury's address.
    pub bump: u8,
}

/// The record of one duel.
#[derive(Clone, Copy, Debug)]
pub struct Duel {
    pub game_id: u64,
    pub creator: Pubkey,
    /// The zero key until someone joins.
    pub opponent: Pubkey,
    /// For a private duel, the only key that may join.
    pub required_opponent: Option<Pubkey>,
    /// The stake of each player.
    pub bet_lamports: u64,
    pub win_condition: WinCondition,
    pub status: DuelStatus,
    pub game_kind: GameKind,
    pub creator_side: CoinSide,
    /// The joiner's entropy; zeros until someone joins.
    pub force: [u8; 32],
    /// The randomness account; the zero key until someone joins.
    pub randomness: Pubkey,
    pub creator_dice: [u8; 2],
    pub opponent_dice: [u8; 2],
    pub coin_result: CoinSide,
    /// The zero key until the duel is decided, and on a tie.
    pub winner: Pubkey,
    pub is_tie: bool,
    pub created_at: i64,
    /// After this time a duel whose randomness never came can be refunded.
    pub expiry: i64,
    /// The bump seed of the duel's address.
    pub bump: u8,
}

} // verus!
