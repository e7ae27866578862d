//! Nobody is favoured: the dice, the coin, and what they decide.
use crate::create::{new_duel, Terms};
use crate::dice::{accepted, coin, die, face};
use crate::pubkey::Pubkey;
use crate::settle::{creator_wins, ties, winner};
use crate::state::{CoinSide, Duel, GameKind, WinCondition};
use vstd::prelude::*;

verus! {

/// How many of the byte values below `n` are used for dice and show `side`.
pub open spec fn values_showing(side: u8, n: nat) -> nat
    decreases n,
{
    if n == 0 {
        0
    } else {
        let b = (n - 1) as u8;
        values_showing(side, (n - 1) as nat) + if accepted(b) && face(b) == side {
            1nat
        } else {
            0nat
        }
    }
}

/// The value `6 * q + j` shows the face `j + 1`.
proof fn lemma_one_value(side: u8, q: nat, j: nat)
    requires
        q < 42,
        j < 6,
    ensures
        values_showing(side, 6 * q + j + 1) == values_showing(side, 6 * q + j) + if side == j + 1 {
            1nat
        } else {
            0nat
        },
{
    let b = (6 * q + j) as u8;
    assert(b == 6 * q + j);
    assert(b % 6 == j);
}

/// Each run of six byte values shows every face once.
proof fn lemma_six_values(side: u8, k: nat)
    requires
        1 <= side <= 6,
        k <= 42,
    ensures
        values_showing(side, 6 * k) == k,
    decreases k,
{
    if k > 0 {
        let q = (k - 1) as nat;
        lemma_six_values(side, q);
        lemma_one_value(side, q, 0);
        lemma_one_value(side, q, 1);
        lemma_one_value(side, q, 2);
        lemma_one_value(side, q, 3);
        lemma_one_value(side, q, 4);
        lemma_one_value(side, q, 5);
    }
}

/// Dice are unbiased: of the 256 values of a byte, each face is shown by 42
/// that are used.
pub proof fn law_dice_are_fair(side: u8)
    requires
        1 <= side <= 6,
    ensures
        values_showing(side, 256) == 42,
{
    lemma_six_values(side, 42);
    reveal_with_fuel(values_showing, 5);
}

/// A die shows 1 to 6, whatever the random bytes are.
pub proof fn law_die_in_range(bytes: Seq<u8>, n: int)
    ensures
        1 <= die(bytes, n) <= 6,
{
}

/// How many of the byte values below `n` make the coin show `side`.
pub open spec fn values_flipping(side: CoinSide, n: nat) -> nat
    decreases n,
{
    if n == 0 {
        0
    } else {
        values_flipping(side, (n - 1) as nat) + if coin(seq![(n - 1) as u8]) == side {
            1nat
        } else {
            0nat
        }
    }
}

/// Each pair of byte values shows both sides once.
proof fn lemma_two_values(side: CoinSide, k: nat)
    requires
        k <= 128,
    ensures
        values_flipping(side, 2 * k) == k,
    decreases k,
{
    if k > 0 {
        lemma_two_values(side, (k - 1) as nat);
        reveal_with_fuel(values_flipping, 3);
    }
}

/// The coin is fair: half of the 256 values of the byte that decides show each
/// side.
pub proof fn law_coin_is_fair(side: CoinSide)
    ensures
        values_flipping(side, 256) == 128,
        forall|bytes: Seq<u8>| bytes.len() > 0 ==> #[trigger] coin(bytes) == coin(seq![bytes[0]]),
{
    lemma_two_values(side, 128);
}

/// A coin flip has no tie: exactly one of the two players wins, the creator if
/// and only if their side shows.
pub proof fn law_coin_flip_has_no_tie(duel: Duel, bytes: Seq<u8>)
    requires
        duel.game_kind == GameKind::CoinFlip,
    ensures
        !ties(duel, bytes),
        winner(duel, bytes) == if coin(bytes) == duel.creator_side {
            duel.creator
        } else {
            duel.opponent
        },
{
}

/// The dice rule only says which end wins: under the other rule the other
/// player wins, and the ties are the same.
pub proof fn law_conditions_are_opposite(duel: Duel, bytes: Seq<u8>)
    requires
        duel.game_kind == GameKind::Dice,
    ensures
        ({
            let high = Duel { win_condition: WinCondition::HigherWins, ..duel };
            let low = Duel { win_condition: WinCondition::LowerWins, ..duel };
            &&& ties(high, bytes) == ties(low, bytes)
            &&& !ties(high, bytes) ==> creator_wins(high, bytes) != creator_wins(low, bytes)
        }),
{
}

/// What a creator says about the game they did not pick changes nothing: the
/// side in a dice duel, the dice rule in a coin flip.
pub proof fn law_stale_terms_are_ignored(
    creator: Pubkey,
    bump: u8,
    now: i64,
    terms: Terms,
    side: CoinSide,
    condition: WinCondition,
)
    ensures
        terms.kind == GameKind::Dice ==> new_duel(creator, bump, now, terms) == new_duel(
            creator,
            bump,
            now,
            Terms { creator_side: side, ..terms },
        ),
        terms.kind == GameKind::CoinFlip ==> new_duel(creator, bump, now, terms) == new_duel(
            creator,
            bump,
            now,
            Terms { win_condition: condition, ..terms },
        ),
{
}

/// The outcome of a duel does not depend on the field of the other game.
pub proof fn law_outcome_ignores_other_game(
    duel: Duel,
    bytes: Seq<u8>,
    side: CoinSide,
    condition: WinCondition,
)
    ensures
        duel.game_kind == GameKind::Dice ==> winner(duel, bytes) == winner(
            Duel { creator_side: side, ..duel },
            bytes,
        ),
        duel.game_kind == GameKind::CoinFlip ==> winner(duel, bytes) == winner(
            Duel { win_condition: condition, ..duel },
            bytes,
        ),
{
}

} // verus!
