//! What a duel's record says at each moment of its life.
use crate::create::{new_duel, terms_error, Terms};
use crate::join::{join_rule, joined};
use crate::laws::history::{after_step, after_steps};
use crate::laws::history::{Book, Step};
use crate::pubkey::Pubkey;
use crate::pubkey::{nobody, zero_bytes};
use crate::settle::decided;
use crate::state::{CoinSide, Duel, DuelStatus, GameKind, Treasury, WinCondition};
use crate::DUEL_EXPIRY_SECONDS;
use vstd::prelude::*;

verus! {

/// What holds of a duel's record from its listing to its end. A decided record
/// tells its own story: the winner is the one that the recorded dice or coin
/// give.
pub open spec fn consistent(duel: Duel) -> bool {
    let unrolled = duel.creator_dice == [0u8, 0u8] && duel.opponent_dice == [0u8, 0u8];
    let cs = duel.creator_dice[0] + duel.creator_dice[1];
    let os = duel.opponent_dice[0] + duel.opponent_dice[1];
    &&& duel.bet_lamports > 0
    &&& duel.expiry == duel.created_at + DUEL_EXPIRY_SECONDS
    &&& duel.game_kind == GameKind::Dice ==> duel.creator_side == CoinSide::Heads
    &&& duel.game_kind == GameKind::CoinFlip ==> duel.win_condition == WinCondition::HigherWins
    &&& duel.game_kind == GameKind::Dice ==> duel.coin_result == CoinSide::Heads
    &&& duel.game_kind == GameKind::CoinFlip ==> unrolled
    &&& duel.status == DuelStatus::Waiting ==> {
        &&& duel.opponent == nobody()
        &&& duel.force == zero_bytes()
        &&& duel.randomness == nobody()
    }
    &&& duel.status != DuelStatus::Waiting ==> {
        &&& duel.opponent != duel.creator
        &&& duel.required_opponent is None || duel.required_opponent == Some(duel.opponent)
        &&& duel.force != zero_bytes()
    }
    &&& duel.status != DuelStatus::Settled ==> {
        &&& unrolled
        &&& duel.coin_result == CoinSide::Heads
        &&& duel.winner == nobody()
        &&& !duel.is_tie
    }
    &&& duel.status == DuelStatus::Settled ==> match duel.game_kind {
        GameKind::Dice => {
            &&& 1 <= duel.creator_dice[0] <= 6
            &&& 1 <= duel.creator_dice[1] <= 6
            &&& 1 <= duel.opponent_dice[0] <= 6
            &&& 1 <= duel.opponent_dice[1] <= 6
            &&& duel.is_tie == (cs == os)
            &&& duel.winner == if cs == os {
                nobody()
            } else if (cs > os) == (duel.win_condition == WinCondition::HigherWins) {
                duel.creator
            } else {
                duel.opponent
            }
        },
        GameKind::CoinFlip => {
            &&& !duel.is_tie
            &&& duel.winner == if duel.coin_result == duel.creator_side {
                duel.creator
            } else {
                duel.opponent
            }
        },
    }
}

/// A new record is consistent.
pub proof fn law_new_duel_is_consistent(
    treasury: Treasury,
    creator: Pubkey,
    bump: u8,
    now: i64,
    terms: Terms,
)
    requires
        terms_error(treasury, terms.bet_lamports, now) is None,
    ensures
        consistent(new_duel(creator, bump, now, terms)),
        new_duel(creator, bump, now, terms).status == DuelStatus::Waiting,
{
}

/// Joining keeps a record consistent.
pub proof fn law_join_keeps_consistent(
    duel: Duel,
    opponent: Pubkey,
    force: [u8; 32],
    random: Pubkey,
)
    requires
        consistent(duel),
        join_rule(duel, opponent, force) is None,
    ensures
        consistent(joined(duel, opponent, force, random)),
        joined(duel, opponent, force, random).status == DuelStatus::Rolling,
{
}

/// Deciding keeps a record consistent.
pub proof fn law_decision_keeps_consistent(duel: Duel, bytes: Seq<u8>)
    requires
        consistent(duel),
        duel.status == DuelStatus::Rolling,
    ensures
        consistent(decided(duel, bytes)),
        decided(duel, bytes).status == DuelStatus::Settled,
{
}

/// Whatever is called in whatever order, the record of a duel is consistent.
pub proof fn law_record_is_always_consistent(steps: Seq<Step>)
    ensures
        after_steps(Book { duel: None, vault: 0 }, steps).duel matches Some(d) ==> consistent(d),
    decreases steps.len(),
{
    if steps.len() > 0 {
        law_record_is_always_consistent(steps.drop_last());
    }
}

/// How far a duel has come.
pub open spec fn stage(status: DuelStatus) -> int {
    match status {
        DuelStatus::Waiting => 0,
        DuelStatus::Rolling => 1,
        DuelStatus::Settled => 2,
    }
}

/// A duel only moves forward, one stage at a time: from listed to joined to
/// settled. It can go at any stage, and only a new one starts at the listing.
pub proof fn law_duel_moves_forward(book: Book, step: Step)
    ensures
        match (book.duel, after_step(book, step).duel) {
            (Some(before), Some(after)) => before == after || stage(after.status) == stage(
                before.status,
            ) + 1,
            (None, Some(after)) => after.status == DuelStatus::Waiting,
            _ => true,
        },
{
}

/// The terms of a listing are final: no later instruction changes them.
pub proof fn law_terms_are_final(book: Book, step: Step)
    ensures
        (book.duel is Some && after_step(book, step).duel is Some) ==> {
            let before = book.duel->0;
            let after = after_step(book, step).duel->0;
            &&& after.game_id == before.game_id
            &&& after.creator == before.creator
            &&& after.required_opponent == before.required_opponent
            &&& after.bet_lamports == before.bet_lamports
            &&& after.win_condition == before.win_condition
            &&& after.game_kind == before.game_kind
            &&& after.creator_side == before.creator_side
            &&& after.created_at == before.created_at
            &&& after.expiry == before.expiry
            &&& after.bump == before.bump
        },
{
}

/// Once a duel is joined, who plays and which randomness decides are final
/// too.
pub proof fn law_players_are_final(book: Book, step: Step)
    ensures
        (book.duel is Some && after_step(book, step).duel is Some && (book.duel->0).status
            != DuelStatus::Waiting) ==> {
            let before = book.duel->0;
            let after = after_step(book, step).duel->0;
            &&& after.opponent == before.opponent
            &&& after.force == before.force
            &&& after.randomness == before.randomness
        },
{
}

} // verus!
