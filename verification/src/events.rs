//! The events that the instructions announce.
use crate::pubkey::Pubkey;
use crate::state::{CoinSide, GameKind};
use vstd::prelude::*;

verus! {

/// A duel was listed.
#[derive(Clone, Copy, Debug)]
pub struct DuelCreated {
    pub game_id: u64,
    pub creator: Pubkey,
    pub bet_lamports: u64,
    pub required_opponent: Option<Pubkey>,
    pub game_kind: GameKind,
    pub creator_side: CoinSide,
}

/// An opponent joined, and randomness was requested.
#[derive(Clone, Copy, Debug)]
pub struct DuelJoined {
    pub game_id: u64,
    pub opponent: Pubkey,
    pub randomness: Pubkey,
}

/// A dice duel was decided.
#[derive(Clone, Copy, Debug)]
pub struct DuelSettled {
    pub game_id: u64,
    pub winner: Pubkey,
    pub is_tie: bool,
    pub creator_dice: [u8; 2],
    pub opponent_dice: [u8; 2],
}

/// A coin flip was decided.
#[derive(Clone, Copy, Debug)]
pub struct CoinFlipSettled {
    pub game_id: u64,
    pub winner: Pubkey,
    pub creator_side: CoinSide,
    pub coin_result: CoinSide,
}

/// A duel's record was closed.
#[derive(Clone, Copy, Debug)]
pub struct DuelClosed {
    pub game_id: u64,
    pub refunded: bool,
}

/// What a settlement announces: one event per kind of game.
#[derive(Clone, Copy, Debug)]
pub enum Settlement {
    Dice(DuelSettled),
    CoinFlip(CoinFlipSettled),
}

} // verus!
