//! What each instruction leaves behind: the record, the transfers, the event.
use crate::accounts::{CloseDuel, CreateDuel, JoinDuel, SettleDuel, WithdrawTreasury};
use crate::address::{duel_seeds, le_bytes, treasury_seeds, vault_seeds};
use crate::close::{close_error, close_rule, closed, is_close_outcome, CloseOutcome};
use crate::create::{create_outcome, new_duel, terms_error, Terms};
use crate::dice::{accepted, accepted_bytes, coin, die, face, next_accepted};
use crate::errors::DuelError;
use crate::events::Settlement;
use crate::join::{join_outcome, join_rule, joined};
use crate::lamports::{fee_fits, house_fee, received, winnings, VaultSigner};
use crate::laws::escrow::law_settlement_shares;
use crate::pubkey::{nobody, zero_bytes, Pubkey};
use crate::settle::{
    announcement, creator_wins, decided, settle_error, settle_payouts, settle_rule, ties,
};
use crate::state::{CoinSide, Duel, DuelStatus, GameKind, Treasury, WinCondition};
use crate::treasury::{withdraw_error, withdrawn};
use crate::vrf::{config_seeds, fulfilled, randomness_seeds};
use vstd::prelude::*;

verus! {

// Dice and coin.

/// How many of the first `n` bytes are below 252.
pub open spec fn used_before(bytes: Seq<u8>, n: int) -> int
    decreases n,
{
    if n <= 0 {
        0
    } else {
        used_before(bytes, n - 1) + if bytes[n - 1] < 252 {
            1int
        } else {
            0int
        }
    }
}

/// The bytes used for dice among the first `n`.
proof fn lemma_used_bytes(bytes: Seq<u8>, n: int)
    requires
        0 <= n <= bytes.len(),
    ensures
        accepted_bytes(bytes.take(n)).len() == used_before(bytes, n),
        accepted_bytes(bytes) == accepted_bytes(bytes.take(n)) + accepted_bytes(bytes.skip(n)),
    decreases n,
{
    let keep = |b: u8| accepted(b);
    assert(bytes =~= bytes.take(n) + bytes.skip(n));
    Seq::filter_distributes_over_add(bytes.take(n), bytes.skip(n), keep);
    reveal(Seq::filter);
    if n > 0 {
        lemma_used_bytes(bytes, n - 1);
        assert(bytes.take(n).drop_last() =~= bytes.take(n - 1));
    }
}

/// A die is the remainder by six, plus one, of a byte below 252: the `n`-th
/// die of the one that has `n` such bytes before it.
pub proof fn law_die_is_a_used_byte(bytes: Seq<u8>, n: int, at: int)
    requires
        0 <= at < bytes.len(),
        bytes[at] < 252,
        used_before(bytes, at) == n,
    ensures
        die(bytes, n) == bytes[at] % 6 + 1,
{
    lemma_used_bytes(bytes, at);
    lemma_used_bytes(bytes, at + 1);
    reveal(Seq::filter);
    assert(bytes.take(at + 1).drop_last() =~= bytes.take(at));
    assert(accepted_bytes(bytes.take(at + 1)) == accepted_bytes(bytes.take(at)).push(bytes[at]));
}

/// When fewer than `n + 1` bytes are below 252, the `n`-th die is that of the
/// first byte.
pub proof fn law_die_falls_back_on_the_first_byte(bytes: Seq<u8>, n: int)
    requires
        used_before(bytes, bytes.len() as int) <= n,
    ensures
        die(bytes, n) == bytes[0] % 6 + 1,
{
    lemma_used_bytes(bytes, bytes.len() as int);
    assert(bytes.take(bytes.len() as int) =~= bytes);
}

/// The byte for the next die is the first one below 252 that the cursor has
/// not passed.
pub proof fn law_next_die_is_the_next_used_byte(bytes: Seq<u8>, from: int, at: int)
    requires
        0 <= from <= at <= bytes.len(),
        forall|i: int| from <= i < at ==> bytes[i] >= 252,
        at < bytes.len() ==> bytes[at] < 252,
    ensures
        next_accepted(bytes, from) == at,
        at < bytes.len() ==> face(bytes[at]) == bytes[at] % 6 + 1,
    decreases at - from,
{
    if from < at {
        law_next_die_is_the_next_used_byte(bytes, from + 1, at);
    }
}

/// The recorded dice are the first four used bytes, two for the creator and
/// then two for the opponent.
pub proof fn law_recorded_dice(duel: Duel, bytes: Seq<u8>, a: int, b: int, c: int, d: int)
    requires
        duel.game_kind == GameKind::Dice,
        0 <= a < b < c < d < bytes.len(),
        forall|i: int|
            0 <= i <= d ==> (#[trigger] bytes[i] < 252 <==> i == a || i == b || i == c || i == d),
    ensures
        ({
            let after = decided(duel, bytes);
            &&& after.creator_dice[0] == bytes[a] % 6 + 1
            &&& after.creator_dice[1] == bytes[b] % 6 + 1
            &&& after.opponent_dice[0] == bytes[c] % 6 + 1
            &&& after.opponent_dice[1] == bytes[d] % 6 + 1
        }),
{
    lemma_none_used(bytes, 0, a);
    lemma_none_used(bytes, a + 1, b);
    lemma_none_used(bytes, b + 1, c);
    lemma_none_used(bytes, c + 1, d);
    law_die_is_a_used_byte(bytes, 0, a);
    law_die_is_a_used_byte(bytes, 1, b);
    law_die_is_a_used_byte(bytes, 2, c);
    law_die_is_a_used_byte(bytes, 3, d);
}

/// Bytes of 252 and more do not count.
proof fn lemma_none_used(bytes: Seq<u8>, from: int, to: int)
    requires
        0 <= from <= to <= bytes.len(),
        forall|i: int| from <= i < to ==> bytes[i] >= 252,
    ensures
        used_before(bytes, to) == used_before(bytes, from),
    decreases to - from,
{
    if from < to {
        lemma_none_used(bytes, from, to - 1);
    }
}

/// The recorded dice and the recorded coin are those of the random bytes,
/// whatever these are; what the game has no use for stays as it was.
pub proof fn law_roll_is_recorded(duel: Duel, bytes: Seq<u8>)
    ensures
        ({
            let after = decided(duel, bytes);
            match duel.game_kind {
                GameKind::Dice => {
                    &&& after.creator_dice[0] == die(bytes, 0)
                    &&& after.creator_dice[1] == die(bytes, 1)
                    &&& after.opponent_dice[0] == die(bytes, 2)
                    &&& after.opponent_dice[1] == die(bytes, 3)
                    &&& after.coin_result == duel.coin_result
                },
                GameKind::CoinFlip => {
                    &&& after.coin_result == CoinSide::Heads <==> bytes[0] % 2 == 0
                    &&& after.creator_dice == duel.creator_dice
                    &&& after.opponent_dice == duel.opponent_dice
                },
            }
        }),
        coin(bytes) == CoinSide::Heads <==> bytes[0] % 2 == 0,
{
}

// Settling.

/// Whether a record's dice add up to the same.
pub open spec fn rolled_even(duel: Duel) -> bool {
    duel.game_kind == GameKind::Dice && duel.creator_dice[0] + duel.creator_dice[1]
        == duel.opponent_dice[0] + duel.opponent_dice[1]
}

/// Whether a record's dice or coin are in the creator's favour.
pub open spec fn rolled_for_creator(duel: Duel) -> bool {
    let mine = duel.creator_dice[0] + duel.creator_dice[1];
    let theirs = duel.opponent_dice[0] + duel.opponent_dice[1];
    ||| duel.game_kind == GameKind::Dice && duel.win_condition == WinCondition::HigherWins && mine
        > theirs
    ||| duel.game_kind == GameKind::Dice && duel.win_condition == WinCondition::LowerWins && theirs
        > mine
    ||| duel.game_kind == GameKind::CoinFlip && duel.coin_result == duel.creator_side
}

/// The recorded winner is the player whom the recorded dice or coin favour,
/// and nobody when the dice add up to the same; then, and only then, a tie is
/// entered. The duel is settled, and nothing else in the record changes.
pub proof fn law_winner_follows_the_roll(duel: Duel, bytes: Seq<u8>)
    ensures
        ({
            let after = decided(duel, bytes);
            &&& rolled_even(after) ==> after.is_tie && after.winner == nobody()
            &&& !rolled_even(after) ==> after.is_tie == duel.is_tie && after.winner
                == if rolled_for_creator(after) {
                duel.creator
            } else {
                duel.opponent
            }
            &&& ties(duel, bytes) <==> rolled_even(after)
            &&& creator_wins(duel, bytes) <==> rolled_for_creator(after)
            &&& after.status == DuelStatus::Settled
            &&& after.game_id == duel.game_id
            &&& after.creator == duel.creator
            &&& after.opponent == duel.opponent
            &&& after.required_opponent == duel.required_opponent
            &&& after.bet_lamports == duel.bet_lamports
            &&& after.win_condition == duel.win_condition
            &&& after.game_kind == duel.game_kind
            &&& after.creator_side == duel.creator_side
            &&& after.force == duel.force
            &&& after.randomness == duel.randomness
            &&& after.created_at == duel.created_at
            &&& after.expiry == duel.expiry
            &&& after.bump == duel.bump
        }),
{
}

/// The key that stands for nobody is all zeros.
pub proof fn law_nobody_is_zero(i: int)
    requires
        0 <= i < 32,
    ensures
        nobody().bytes[i] == 0,
        zero_bytes()[i] == 0,
{
}

/// The one whom the record names as the winner is the one who is paid: the
/// whole pot less one percent, rounded down, which goes to the treasury. The
/// loser gets nothing. When the dice add up to the same, each player gets the
/// stake back and the treasury nothing.
pub proof fn law_recorded_winner_is_paid(ctx: SettleDuel, game_id: u64, bump: u8)
    requires
        settle_error(ctx, game_id) is None,
        (ctx.duel->0).creator != (ctx.duel->0).opponent,
        (ctx.duel->0).creator != ctx.treasury_key,
        (ctx.duel->0).opponent != ctx.treasury_key,
    ensures
        ({
            let duel = ctx.duel->0;
            let bytes = fulfilled(ctx.random_data@)->0;
            let after = decided(duel, bytes);
            let paid = settle_payouts(ctx, duel, game_id, bump, bytes);
            let bet = duel.bet_lamports as int;
            let fee = (2 * bet) / 100;
            if rolled_even(after) {
                &&& received(paid, duel.creator) == bet
                &&& received(paid, duel.opponent) == bet
                &&& received(paid, ctx.treasury_key) == 0
            } else {
                &&& after.winner == duel.creator || after.winner == duel.opponent
                &&& received(paid, after.winner) == 2 * bet - fee
                &&& received(paid, ctx.treasury_key) == fee
                &&& after.winner == duel.creator ==> received(paid, duel.opponent) == 0
                &&& after.winner == duel.opponent ==> received(paid, duel.creator) == 0
            }
        }),
{
    law_settlement_shares(ctx, game_id, bump);
}

/// The same, transfer by transfer, and whoever the keys belong to: first the
/// recorded winner, then the treasury; or, when the dice add up to the same,
/// first the creator, then the opponent. An amount of zero makes no transfer.
/// Each comes out of the vault, signed with the seeds of its address.
pub proof fn law_settlement_transfers_in_order(ctx: SettleDuel, game_id: u64, bump: u8)
    requires
        settle_error(ctx, game_id) is None,
    ensures
        ({
            let duel = ctx.duel->0;
            let bytes = fulfilled(ctx.random_data@)->0;
            let after = decided(duel, bytes);
            let paid = settle_payouts(ctx, duel, game_id, bump, bytes);
            let bet = duel.bet_lamports as int;
            let fee = (2 * bet) / 100;
            &&& bet == 0 ==> paid.len() == 0
            &&& bet > 0 && rolled_even(after) ==> {
                &&& paid.len() == 2
                &&& paid[0].to == duel.creator && paid[0].lamports == bet
                &&& paid[1].to == duel.opponent && paid[1].lamports == bet
            }
            &&& bet > 0 && !rolled_even(after) ==> {
                &&& paid.len() == if fee > 0 {
                    2int
                } else {
                    1int
                }
                &&& paid[0].to == after.winner && paid[0].lamports == 2 * bet - fee
                &&& fee > 0 ==> paid[1].to == ctx.treasury_key && paid[1].lamports == fee
            }
            &&& forall|i: int| #![trigger paid[i]]
                0 <= i < paid.len() ==> paid[i].from == ctx.vault && paid[i].signer.game_id
                    == game_id && paid[i].signer.creator == duel.creator && paid[i].signer.bump
                    == bump
        }),
{
}

/// A pot of two bets is split into one percent, rounded down, and the rest;
/// that can be done as long as two hundred bets fit in 64 bits.
pub proof fn law_pot_is_split(bet: u64)
    ensures
        house_fee(bet) == (2 * bet as int) / 100,
        winnings(bet) == 2 * bet - (2 * bet as int) / 100,
        fee_fits(bet) <==> 200 * bet <= 0xffff_ffff_ffff_ffff,
{
}

/// The event of a settlement tells what the record says.
pub proof fn law_settlement_event_tells_the_record(duel: Duel, bytes: Seq<u8>)
    ensures
        ({
            let after = decided(duel, bytes);
            match announcement(duel, bytes) {
                Settlement::Dice(event) => {
                    &&& duel.game_kind == GameKind::Dice
                    &&& event.game_id == duel.game_id
                    &&& event.winner == after.winner
                    &&& event.is_tie == rolled_even(after)
                    &&& event.creator_dice == after.creator_dice
                    &&& event.opponent_dice == after.opponent_dice
                },
                Settlement::CoinFlip(event) => {
                    &&& duel.game_kind == GameKind::CoinFlip
                    &&& event.game_id == duel.game_id
                    &&& event.winner == after.winner
                    &&& event.creator_side == duel.creator_side
                    &&& event.coin_result == after.coin_result
                },
            }
        }),
{
}

/// Given what the randomness account was read as, a joined duel of which it is
/// the account is settled if and only if there are bytes, and the fee can be
/// computed where one is due.
pub proof fn law_settling_given_the_bytes(
    duel: Duel,
    random: Pubkey,
    randomness: Result<Seq<u8>, DuelError>,
)
    ensures
        ({
            let e = settle_rule(duel, random, randomness);
            let joined = duel.status == DuelStatus::Rolling;
            let own = random == duel.randomness;
            let payable = 200 * duel.bet_lamports <= u64::MAX || rolled_even(
                decided(duel, randomness->Ok_0),
            );
            &&& e is None <==> joined && own && randomness is Ok && payable
            &&& !joined ==> e == Some(DuelError::InvalidState)
            &&& joined && !own ==> e == Some(DuelError::RandomnessMismatch)
            &&& joined && own && randomness is Err ==> e == Some(randomness->Err_0)
            &&& joined && own && randomness is Ok && !payable ==> e == Some(DuelError::MathOverflow)
        }),
{
}

// Listing.

/// The record of a new duel keeps the terms offered: the game and its number,
/// the bet, the one invited, and of the dice rule and the coin side the one
/// that applies. It is open, has no opponent, no outcome and no randomness
/// yet, and its deadline is a day away.
pub proof fn law_record_keeps_the_terms(creator: Pubkey, bump: u8, now: i64, terms: Terms)
    requires
        now <= i64::MAX - 86_400,
    ensures
        ({
            let d = new_duel(creator, bump, now, terms);
            &&& d.creator == creator
            &&& d.bump == bump
            &&& d.game_id == terms.game_id
            &&& d.bet_lamports == terms.bet_lamports
            &&& d.required_opponent == terms.required_opponent
            &&& d.game_kind == terms.kind
            &&& terms.kind == GameKind::Dice ==> d.win_condition == terms.win_condition
                && d.creator_side == CoinSide::Heads
            &&& terms.kind == GameKind::CoinFlip ==> d.creator_side == terms.creator_side
                && d.win_condition == WinCondition::HigherWins
            &&& d.status == DuelStatus::Waiting
            &&& d.created_at == now
            &&& d.expiry - d.created_at == 24 * 60 * 60
            &&& d.opponent == nobody()
            &&& d.winner == nobody()
            &&& d.randomness == nobody()
            &&& !d.is_tie
            &&& d.coin_result == CoinSide::Heads
            &&& d.creator_dice[0] == 0 && d.creator_dice[1] == 0
            &&& d.opponent_dice[0] == 0 && d.opponent_dice[1] == 0
            &&& forall|i: int| 0 <= i < 32 ==> d.force[i] == 0
        }),
{
}

/// What the settings and the clock refuse, and why.
pub proof fn law_when_terms_are_accepted(treasury: Treasury, bet: u64, now: i64)
    ensures
        ({
            let e = terms_error(treasury, bet, now);
            let limited = treasury.max_bet_lamports != 0 && treasury.max_bet_lamports < bet;
            let late = now > i64::MAX - 24 * 60 * 60;
            &&& e is None <==> bet != 0 && !treasury.paused && !limited && !late
            &&& bet == 0 ==> e == Some(DuelError::InvalidBetAmount)
            &&& bet != 0 && treasury.paused ==> e == Some(DuelError::Paused)
            &&& bet != 0 && !treasury.paused && limited ==> e == Some(DuelError::BetTooLarge)
            &&& bet != 0 && !treasury.paused && !limited && late ==> e == Some(
                DuelError::MathOverflow,
            )
        }),
{
}

/// Listing takes the recorded bet from the creator into the vault, and the
/// event tells what the record says.
pub proof fn law_listing_takes_the_stake(ctx: CreateDuel, now: i64, terms: Terms, bump: u8)
    ensures
        ({
            let d = new_duel(ctx.creator, bump, now, terms);
            let done = create_outcome(ctx, terms);
            &&& done.stake.from == ctx.creator
            &&& done.stake.to == ctx.vault
            &&& done.stake.lamports == d.bet_lamports
            &&& done.event.game_id == d.game_id
            &&& done.event.creator == d.creator
            &&& done.event.bet_lamports == d.bet_lamports
            &&& done.event.required_opponent == d.required_opponent
            &&& done.event.game_kind == d.game_kind
            &&& done.event.creator_side == d.creator_side
        }),
{
}

// Joining.

/// A joined record names the joiner, their entropy and the randomness account,
/// and waits for the randomness. Nothing else in it changes.
pub proof fn law_join_is_recorded(duel: Duel, opponent: Pubkey, force: [u8; 32], random: Pubkey)
    ensures
        ({
            let d = joined(duel, opponent, force, random);
            &&& d.opponent == opponent
            &&& d.force == force
            &&& d.randomness == random
            &&& d.status == DuelStatus::Rolling
            &&& d.game_id == duel.game_id
            &&& d.creator == duel.creator
            &&& d.required_opponent == duel.required_opponent
            &&& d.bet_lamports == duel.bet_lamports
            &&& d.win_condition == duel.win_condition
            &&& d.game_kind == duel.game_kind
            &&& d.creator_side == duel.creator_side
            &&& d.creator_dice == duel.creator_dice
            &&& d.opponent_dice == duel.opponent_dice
            &&& d.coin_result == duel.coin_result
            &&& d.winner == duel.winner
            &&& d.is_tie == duel.is_tie
            &&& d.created_at == duel.created_at
            &&& d.expiry == duel.expiry
            &&& d.bump == duel.bump
        }),
{
}

/// The joiner stakes what the creator did, and asks for the randomness of the
/// account that the record then names, with the entropy that it then holds.
pub proof fn law_join_matches_the_stake(ctx: JoinDuel, force: [u8; 32])
    ensures
        ({
            let d = joined(ctx.duel->0, ctx.opponent, force, ctx.random);
            let done = join_outcome(ctx, force);
            &&& done.stake.from == d.opponent
            &&& done.stake.to == ctx.vault
            &&& done.stake.lamports == (ctx.duel->0).bet_lamports
            &&& done.request.payer == d.opponent
            &&& done.request.network_state == ctx.vrf_config
            &&& done.request.treasury == ctx.vrf_treasury
            &&& done.request.request == d.randomness
            &&& done.request.seed == d.force
            &&& done.event.game_id == d.game_id
            &&& done.event.opponent == d.opponent
            &&& done.event.randomness == d.randomness
        }),
{
}

/// Both players stake the same.
pub proof fn law_stakes_are_equal(
    create: CreateDuel,
    now: i64,
    terms: Terms,
    bump: u8,
    join: JoinDuel,
    force: [u8; 32],
)
    requires
        join.duel == Some(new_duel(create.creator, bump, now, terms)),
    ensures
        create_outcome(create, terms).stake.lamports == terms.bet_lamports,
        join_outcome(join, force).stake.lamports == terms.bet_lamports,
{
}

/// Who may enter: into an open duel, anyone but its creator, and only the one
/// invited where there is one, with entropy that is not all zeros.
pub proof fn law_when_entry_is_allowed(duel: Duel, opponent: Pubkey, force: [u8; 32])
    ensures
        ({
            let e = join_rule(duel, opponent, force);
            let open = duel.status == DuelStatus::Waiting;
            let own = opponent == duel.creator;
            let barred = duel.required_opponent matches Some(invited) && invited != opponent;
            let blank = forall|i: int| 0 <= i < 32 ==> force[i] == 0;
            &&& e is None <==> open && !own && !barred && !blank
            &&& !open ==> e == Some(DuelError::InvalidState)
            &&& open && own ==> e == Some(DuelError::CannotJoinOwnDuel)
            &&& open && !own && barred ==> e == Some(DuelError::NotInvitedOpponent)
            &&& open && !own && !barred && blank ==> e == Some(DuelError::BadForce)
        }),
{
    assert(forall|i: int| 0 <= i < 32 ==> zero_bytes()[i] == 0);
    if forall|i: int| 0 <= i < 32 ==> force[i] == 0 {
        assert(force =~= zero_bytes());
    }
}

/// A private duel is for the one whom its creator invited: whoever enters it
/// is that player, and that player can.
pub proof fn law_private_duel_is_for_the_invited(
    creator: Pubkey,
    bump: u8,
    now: i64,
    terms: Terms,
    invited: Pubkey,
    joiner: Pubkey,
    force: [u8; 32],
)
    requires
        terms.required_opponent == Some(invited),
        invited != creator,
        force[0] != 0,
    ensures
        join_rule(new_duel(creator, bump, now, terms), joiner, force) is None <==> joiner
            == invited,
        joiner != invited && joiner != creator ==> join_rule(
            new_duel(creator, bump, now, terms),
            joiner,
            force,
        ) == Some(DuelError::NotInvitedOpponent),
{
    law_when_entry_is_allowed(new_duel(creator, bump, now, terms), joiner, force);
}

/// A public duel is for everyone but its creator.
pub proof fn law_public_duel_is_for_everyone(
    creator: Pubkey,
    bump: u8,
    now: i64,
    terms: Terms,
    joiner: Pubkey,
    force: [u8; 32],
)
    requires
        terms.required_opponent is None,
        force[0] != 0,
    ensures
        join_rule(new_duel(creator, bump, now, terms), joiner, force) is None <==> joiner
            != creator,
{
    law_when_entry_is_allowed(new_duel(creator, bump, now, terms), joiner, force);
}

// Closing.

/// What a close leaves: no record, and the treasury with whatever a settled
/// record held above its rent. Nothing else changes, and no lamport is lost.
pub proof fn law_close_leaves_no_record(ctx: CloseDuel, now: i64, rent_min: u64, game_id: u64)
    requires
        close_error(ctx, now, rent_min, game_id) is None,
    ensures
        ({
            let after = closed(ctx, ctx.duel->0, rent_min);
            let settled = (ctx.duel->0).status == DuelStatus::Settled;
            &&& after.duel is None
            &&& after.treasury_lamports + after.duel_lamports == ctx.treasury_lamports
                + ctx.duel_lamports
            &&& settled && ctx.duel_lamports > rent_min ==> after.duel_lamports == rent_min
            &&& !(settled && ctx.duel_lamports > rent_min) ==> after.duel_lamports
                == ctx.duel_lamports
            &&& after.caller == ctx.caller
            &&& after.creator == ctx.creator
            &&& after.opponent == ctx.opponent
            &&& after.treasury_key == ctx.treasury_key
            &&& after.treasury == ctx.treasury
            &&& after.vault == ctx.vault
            &&& after.random == ctx.random
            &&& after.random_data == ctx.random_data
            &&& after.duel_key == ctx.duel_key
        }),
{
}

/// What follows from a close. The creator gets the rent. A cancelled listing
/// gives the creator the stake back. A joined duel that is refunded gives the
/// opponent theirs, then the creator theirs. A settled duel pays nothing more.
/// The event says a refund was made unless the duel was settled.
pub proof fn law_close_gives_back(
    outcome: CloseOutcome,
    ctx: CloseDuel,
    now: i64,
    rent_min: u64,
    game_id: u64,
    bump: u8,
)
    requires
        close_error(ctx, now, rent_min, game_id) is None,
        is_close_outcome(outcome, ctx, ctx.duel->0, rent_min, game_id, bump),
    ensures
        ({
            let duel = ctx.duel->0;
            let paid = outcome.payouts@;
            let bet = duel.bet_lamports;
            let after = closed(ctx, duel, rent_min);
            &&& outcome.rent_to == duel.creator
            &&& outcome.rent == after.duel_lamports
            &&& outcome.residual == after.treasury_lamports - ctx.treasury_lamports
            &&& outcome.residual + outcome.rent == ctx.duel_lamports
            &&& outcome.event.game_id == game_id
            &&& outcome.event.refunded <==> duel.status != DuelStatus::Settled
            &&& duel.status == DuelStatus::Settled || bet == 0 ==> paid.len() == 0
            &&& duel.status == DuelStatus::Waiting && bet > 0 ==> {
                &&& paid.len() == 1
                &&& paid[0].to == duel.creator && paid[0].lamports == bet
            }
            &&& duel.status == DuelStatus::Rolling && bet > 0 ==> {
                &&& paid.len() == 2
                &&& paid[0].to == duel.opponent && paid[0].lamports == bet
                &&& paid[1].to == duel.creator && paid[1].lamports == bet
            }
            &&& forall|i: int| #![trigger paid[i]]
                0 <= i < paid.len() ==> paid[i].from == ctx.vault && paid[i].signer.game_id
                    == game_id && paid[i].signer.creator == duel.creator && paid[i].signer.bump
                    == bump
        }),
{
}

/// A close has one outcome only.
pub proof fn law_close_outcome_is_determined(
    a: CloseOutcome,
    b: CloseOutcome,
    ctx: CloseDuel,
    duel: Duel,
    rent_min: u64,
    game_id: u64,
    bump: u8,
)
    requires
        is_close_outcome(a, ctx, duel, rent_min, game_id, bump),
        is_close_outcome(b, ctx, duel, rent_min, game_id, bump),
    ensures
        a.payouts@ == b.payouts@,
        a.residual == b.residual,
        a.rent == b.rent,
        a.rent_to == b.rent_to,
        a.event == b.event,
{
}

/// Given whether the randomness is there: a settled duel can be closed as long
/// as the treasury can take the residual, a listing by its creator, and a
/// joined duel once its deadline has passed without randomness.
pub proof fn law_closing_given_the_randomness(
    ctx: CloseDuel,
    duel: Duel,
    now: i64,
    rent_min: u64,
    is_fulfilled: bool,
)
    ensures
        ({
            let e = close_rule(ctx, duel, now, rent_min, is_fulfilled);
            let settled = duel.status == DuelStatus::Settled;
            let listed = duel.status == DuelStatus::Waiting;
            let joined = duel.status == DuelStatus::Rolling;
            let own = ctx.random == duel.randomness;
            let fits = ctx.duel_lamports <= rent_min || ctx.treasury_lamports + ctx.duel_lamports
                - rent_min <= u64::MAX;
            &&& settled ==> (e is None <==> fits) && (!fits ==> e == Some(DuelError::MathOverflow))
            &&& listed ==> (e is None <==> ctx.caller == duel.creator)
            &&& listed && ctx.caller != duel.creator ==> e == Some(DuelError::Unauthorized)
            &&& joined ==> (e is None <==> own && !is_fulfilled && now > duel.expiry && ctx.opponent
                == duel.opponent)
            &&& joined && !own ==> e == Some(DuelError::RandomnessMismatch)
            &&& joined && own && is_fulfilled ==> e == Some(DuelError::AlreadyFulfilled)
            &&& joined && own && !is_fulfilled && now <= duel.expiry ==> e == Some(
                DuelError::NotExpired,
            )
            &&& joined && own && !is_fulfilled && now > duel.expiry && ctx.opponent
                != duel.opponent ==> e == Some(DuelError::Unauthorized)
        }),
{
}

// Withdrawing.

/// A withdrawal takes its amount from the treasury to the destination, and
/// changes nothing else. Two one after the other do what one of their sum does.
pub proof fn law_withdrawals_add_up(ctx: WithdrawTreasury, rent_min: u64, first: u64, second: u64)
    requires
        first + second <= u64::MAX,
        withdraw_error(ctx, rent_min, (first + second) as u64) is None,
    ensures
        ({
            let after = withdrawn(ctx, first);
            &&& after.treasury_lamports == ctx.treasury_lamports - first
            &&& after.destination_lamports == ctx.destination_lamports + first
            &&& after.admin == ctx.admin
            &&& after.treasury_key == ctx.treasury_key
            &&& after.treasury == ctx.treasury
            &&& after.destination == ctx.destination
            &&& withdrawn(after, second) == withdrawn(ctx, (first + second) as u64)
        }),
{
}

// Seeds.

/// The number that bytes spell, the least significant first.
pub open spec fn spelled(bytes: Seq<u8>) -> nat
    decreases bytes.len(),
{
    if bytes.len() == 0 {
        0
    } else {
        bytes[0] as nat + 256 * spelled(bytes.skip(1))
    }
}

/// The bytes of a number spell it, as far as they reach.
proof fn lemma_spelled(x: nat, n: nat)
    requires
        x < vstd::arithmetic::power::pow(256, n),
    ensures
        le_bytes(x, n).len() == n,
        spelled(le_bytes(x, n)) == x,
    decreases n,
{
    reveal(vstd::arithmetic::power::pow);
    if n > 0 {
        let m = (n - 1) as nat;
        let p = vstd::arithmetic::power::pow(256, m);
        assert(vstd::arithmetic::power::pow(256, n) == 256 * p);
        assert(x / 256 < p) by (nonlinear_arith)
            requires
                x < 256 * p,
        ;
        lemma_spelled(x / 256, m);
        assert(le_bytes(x, n).skip(1) =~= le_bytes(x / 256, m));
    }
}

/// Whether bytes are the characters of a text.
pub open spec fn reads(bytes: Seq<u8>, text: Seq<char>) -> bool {
    &&& bytes.len() == text.len()
    &&& forall|i: int| #![trigger bytes[i]] 0 <= i < text.len() ==> bytes[i] as char == text[i]
}

/// The seeds are the names of what they lead to. Those of a duel's record and
/// vault go on with the number of the game in eight bytes and the creator's
/// key, those of a randomness request with the entropy.
pub proof fn law_seeds_name_their_account(game_id: u64, creator: Pubkey, force: [u8; 32])
    ensures
        treasury_seeds().len() == 1,
        reads(treasury_seeds()[0], "treasury"@),
        duel_seeds(game_id, creator).len() == 3,
        reads(duel_seeds(game_id, creator)[0], "duel"@),
        duel_seeds(game_id, creator)[1].len() == 8,
        spelled(duel_seeds(game_id, creator)[1]) == game_id,
        duel_seeds(game_id, creator)[2] == creator.bytes@,
        vault_seeds(game_id, creator).len() == 3,
        reads(vault_seeds(game_id, creator)[0], "vault"@),
        vault_seeds(game_id, creator)[1].len() == 8,
        spelled(vault_seeds(game_id, creator)[1]) == game_id,
        vault_seeds(game_id, creator)[2] == creator.bytes@,
        config_seeds().len() == 1,
        reads(config_seeds()[0], "orao-vrf-network-configuration"@),
        randomness_seeds(force).len() == 2,
        reads(randomness_seeds(force)[0], "orao-vrf-randomness-request"@),
        randomness_seeds(force)[1] == force@,
{
    reveal_strlit("treasury");
    reveal_strlit("duel");
    reveal_strlit("vault");
    reveal_strlit("orao-vrf-network-configuration");
    reveal_strlit("orao-vrf-randomness-request");
    assert(vstd::arithmetic::power::pow(256, 8) == 0x1_0000_0000_0000_0000) by {
        reveal_with_fuel(vstd::arithmetic::power::pow, 9);
    }
    lemma_spelled(game_id as nat, 8);
}

/// The vault signs with the seeds of its address and the bump.
pub proof fn law_vault_signs_with_its_seeds(signer: VaultSigner)
    ensures
        signer.seeds().len() == 4,
        signer.seeds().take(3) == vault_seeds(signer.game_id, signer.creator),
        signer.seeds()[3] == seq![signer.bump],
{
}

} // verus!
