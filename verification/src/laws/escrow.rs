//! Every lamport that goes into a vault comes out of it, to whom it is due.
use crate::accounts::vault_bump;
use crate::accounts::{CloseDuel, SettleDuel};
use crate::address::{derived_address, program_id_bytes};
use crate::close::{close_error, close_payouts, closed, residual};
use crate::lamports::{
    fee_fits, house_fee, payout, pot, received, total, winnings, VaultSigner, VaultTransfer,
};
use crate::laws::history::after_steps;
use crate::laws::history::{Book, Step};
use crate::pubkey::Pubkey;
use crate::settle::{creator_wins, settle_error, settle_payouts, ties};
use crate::state::{Duel, DuelStatus};
use crate::vrf::fulfilled;
use vstd::prelude::*;

verus! {

/// The house fee is one percent of the pot, rounded down to a whole lamport.
/// With the winner's share it makes up the pot, and it never costs the winner
/// more than they win.
pub proof fn law_fee_is_one_percent(bet: u64)
    ensures
        house_fee(bet) == pot(bet) / 100,
        0 <= house_fee(bet) * 100 <= pot(bet) < house_fee(bet) * 100 + 100,
        winnings(bet) + house_fee(bet) == pot(bet),
        bet > 0 ==> winnings(bet) > bet,
        fee_fits(bet) <==> 200 * bet <= u64::MAX,
{
}

/// The amounts of two runs of payouts add up.
proof fn lemma_total_of_two(a: Seq<VaultTransfer>, b: Seq<VaultTransfer>)
    ensures
        total(a + b) == total(a) + total(b),
    decreases b.len(),
{
    if b.len() == 0 {
        assert(a + b =~= a);
    } else {
        assert((a + b).drop_last() =~= a + b.drop_last());
        lemma_total_of_two(a, b.drop_last());
    }
}

/// What one account receives from two runs of payouts adds up.
proof fn lemma_received_from_two(a: Seq<VaultTransfer>, b: Seq<VaultTransfer>, who: Pubkey)
    ensures
        received(a + b, who) == received(a, who) + received(b, who),
    decreases b.len(),
{
    if b.len() == 0 {
        assert(a + b =~= a);
    } else {
        assert((a + b).drop_last() =~= a + b.drop_last());
        lemma_received_from_two(a, b.drop_last(), who);
    }
}

/// A payout moves its amount, to its recipient.
proof fn lemma_one_payout(
    vault: Pubkey,
    to: Pubkey,
    lamports: int,
    signer: VaultSigner,
    who: Pubkey,
)
    requires
        0 <= lamports <= u64::MAX,
    ensures
        total(payout(vault, to, lamports, signer)) == lamports,
        received(payout(vault, to, lamports, signer), who) == if who == to {
            lamports
        } else {
            0
        },
{
    let p = payout(vault, to, lamports, signer);
    if lamports != 0 {
        assert(p.drop_last() =~= Seq::<VaultTransfer>::empty());
        assert(total(p.drop_last()) == 0);
        assert(received(p.drop_last(), who) == 0);
    }
}

/// What a vault holds in stakes: one while the duel is listed, two once it is
/// joined, none once it is decided or gone.
pub open spec fn escrowed(duel: Option<Duel>) -> int {
    match duel {
        None => 0,
        Some(d) => match d.status {
            DuelStatus::Waiting => d.bet_lamports as int,
            DuelStatus::Rolling => pot(d.bet_lamports),
            DuelStatus::Settled => 0,
        },
    }
}

/// Settling pays out the whole pot: nothing is left in the vault, and nothing
/// is paid that is not in it.
pub proof fn law_settlement_empties_vault(ctx: SettleDuel, game_id: u64, bump: u8)
    requires
        settle_error(ctx, game_id) is None,
    ensures
        total(
            settle_payouts(
                ctx,
                ctx.duel->0,
                game_id,
                bump,
                fulfilled(ctx.random_data@)->0,
            ),
        ) == pot((ctx.duel->0).bet_lamports),
{
    let duel = ctx.duel->0;
    let bytes = fulfilled(ctx.random_data@)->0;
    let signer = VaultSigner { game_id, creator: duel.creator, bump };
    let bet = duel.bet_lamports;
    if ties(duel, bytes) {
        let a = payout(ctx.vault, ctx.creator, bet as int, signer);
        let b = payout(ctx.vault, ctx.opponent, bet as int, signer);
        lemma_one_payout(ctx.vault, ctx.creator, bet as int, signer, ctx.creator);
        lemma_one_payout(ctx.vault, ctx.opponent, bet as int, signer, ctx.creator);
        lemma_total_of_two(a, b);
    } else {
        let to = if creator_wins(duel, bytes) {
            ctx.creator
        } else {
            ctx.opponent
        };
        let a = payout(ctx.vault, to, winnings(bet), signer);
        let b = payout(ctx.vault, ctx.treasury_key, house_fee(bet), signer);
        lemma_one_payout(ctx.vault, to, winnings(bet), signer, to);
        lemma_one_payout(ctx.vault, ctx.treasury_key, house_fee(bet), signer, to);
        lemma_total_of_two(a, b);
    }
}

/// Closing pays out exactly the stakes that are still in the vault.
pub proof fn law_closing_empties_vault(ctx: CloseDuel, duel: Duel, game_id: u64, bump: u8)
    ensures
        total(close_payouts(ctx, duel, game_id, bump)) == escrowed(Some(duel)),
{
    let signer = VaultSigner { game_id, creator: duel.creator, bump };
    let bet = duel.bet_lamports as int;
    let a = payout(ctx.vault, ctx.opponent, bet, signer);
    let b = payout(ctx.vault, ctx.creator, bet, signer);
    lemma_one_payout(ctx.vault, ctx.opponent, bet, signer, ctx.creator);
    lemma_one_payout(ctx.vault, ctx.creator, bet, signer, ctx.creator);
    lemma_total_of_two(a, b);
}

/// The vault always holds exactly the stakes of the duel, whatever is called
/// in whatever order: none is lost, none is paid twice, and the vault is never
/// short of what it owes.
pub proof fn law_vault_holds_the_stakes(steps: Seq<Step>)
    ensures
        ({
            let book = after_steps(Book { duel: None, vault: 0 }, steps);
            book.vault == escrowed(book.duel)
        }),
    decreases steps.len(),
{
    if steps.len() > 0 {
        law_vault_holds_the_stakes(steps.drop_last());
        let before = after_steps(Book { duel: None, vault: 0 }, steps.drop_last());
        match steps.last() {
            Step::Create(ctx, now, terms) => {},
            Step::Join(ctx, game_id, force) => {},
            Step::Settle(ctx, game_id) => {
                if ctx.duel == before.duel && settle_error(ctx, game_id) is None {
                    law_settlement_empties_vault(
                        ctx,
                        game_id,
                        vault_bump(game_id, ctx.creator)->0,
                    );
                }
            },
            Step::Close(ctx, now, rent_min, game_id) => {
                if ctx.duel == before.duel && close_error(ctx, now, rent_min, game_id) is None {
                    law_closing_empties_vault(
                        ctx,
                        ctx.duel->0,
                        game_id,
                        vault_bump(game_id, ctx.creator)->0,
                    );
                }
            },
        }
    }
}

/// Who gets what from a settlement. On a tie each player has their stake back
/// and the house takes nothing. Otherwise the winner has the pot less the fee,
/// the treasury the fee, and the loser nothing.
pub proof fn law_settlement_shares(ctx: SettleDuel, game_id: u64, bump: u8)
    requires
        settle_error(ctx, game_id) is None,
        ctx.creator != ctx.opponent,
        ctx.creator != ctx.treasury_key,
        ctx.opponent != ctx.treasury_key,
    ensures
        ({
            let duel = ctx.duel->0;
            let bytes = fulfilled(ctx.random_data@)->0;
            let paid = settle_payouts(ctx, duel, game_id, bump, bytes);
            let bet = duel.bet_lamports;
            if ties(duel, bytes) {
                &&& received(paid, duel.creator) == bet
                &&& received(paid, duel.opponent) == bet
                &&& received(paid, ctx.treasury_key) == 0
            } else {
                let (up, down) = if creator_wins(duel, bytes) {
                    (duel.creator, duel.opponent)
                } else {
                    (duel.opponent, duel.creator)
                };
                &&& received(paid, up) == winnings(bet)
                &&& received(paid, down) == 0
                &&& received(paid, ctx.treasury_key) == house_fee(bet)
            }
        }),
{
    let duel = ctx.duel->0;
    let bytes = fulfilled(ctx.random_data@)->0;
    let signer = VaultSigner { game_id, creator: duel.creator, bump };
    let bet = duel.bet_lamports;
    let (first, one, second, two) = if ties(duel, bytes) {
        (ctx.creator, bet as int, ctx.opponent, bet as int)
    } else if creator_wins(duel, bytes) {
        (ctx.creator, winnings(bet), ctx.treasury_key, house_fee(bet))
    } else {
        (ctx.opponent, winnings(bet), ctx.treasury_key, house_fee(bet))
    };
    let a = payout(ctx.vault, first, one, signer);
    let b = payout(ctx.vault, second, two, signer);
    assert forall|who: Pubkey| #[trigger]
        received(a + b, who) == (if who == first {
            one
        } else {
            0
        }) + (if who == second {
            two
        } else {
            0
        }) by {
        lemma_one_payout(ctx.vault, first, one, signer, who);
        lemma_one_payout(ctx.vault, second, two, signer, who);
        lemma_received_from_two(a, b, who);
    }
    assert(settle_payouts(ctx, duel, game_id, bump, bytes) == a + b);
}

/// A refund makes the players whole: the creator of a cancelled listing, and
/// both players of a joined duel whose randomness never came.
pub proof fn law_refund_makes_whole(
    ctx: CloseDuel,
    now: i64,
    rent_min: u64,
    game_id: u64,
    bump: u8,
)
    requires
        close_error(ctx, now, rent_min, game_id) is None,
    ensures
        ({
            let duel = ctx.duel->0;
            let paid = close_payouts(ctx, duel, game_id, bump);
            &&& duel.status == DuelStatus::Waiting ==> received(paid, duel.creator)
                == duel.bet_lamports
            &&& duel.status == DuelStatus::Rolling && duel.creator != duel.opponent ==> {
                &&& received(paid, duel.creator) == duel.bet_lamports
                &&& received(paid, duel.opponent) == duel.bet_lamports
            }
            &&& duel.status == DuelStatus::Settled ==> paid.len() == 0
        }),
{
    let duel = ctx.duel->0;
    let signer = VaultSigner { game_id, creator: duel.creator, bump };
    let bet = duel.bet_lamports as int;
    let a = payout(ctx.vault, ctx.opponent, bet, signer);
    let b = payout(ctx.vault, ctx.creator, bet, signer);
    lemma_one_payout(ctx.vault, ctx.opponent, bet, signer, ctx.opponent);
    lemma_one_payout(ctx.vault, ctx.opponent, bet, signer, ctx.creator);
    lemma_one_payout(ctx.vault, ctx.creator, bet, signer, ctx.opponent);
    lemma_one_payout(ctx.vault, ctx.creator, bet, signer, ctx.creator);
    lemma_received_from_two(a, b, ctx.opponent);
    lemma_received_from_two(a, b, ctx.creator);
}

/// A settlement pays out of the duel's own vault, to the two players of the
/// record and the treasury and nobody else, and the vault can sign for it: the
/// seeds of each transfer give the vault's address.
pub proof fn law_settlement_transfers(ctx: SettleDuel, game_id: u64, i: int)
    requires
        settle_error(ctx, game_id) is None,
        0 <= i < settle_payouts(
            ctx,
            ctx.duel->0,
            game_id,
            vault_bump(game_id, ctx.creator)->0,
            fulfilled(ctx.random_data@)->0,
        ).len(),
    ensures
        ({
            let duel = ctx.duel->0;
            let t = settle_payouts(
                ctx,
                duel,
                game_id,
                vault_bump(game_id, ctx.creator)->0,
                fulfilled(ctx.random_data@)->0,
            )[i];
            &&& t.lamports > 0
            &&& t.from == ctx.vault
            &&& t.to == duel.creator || t.to == duel.opponent || t.to == ctx.treasury_key
            &&& derived_address(t.signer.seeds(), program_id_bytes()@) == Some(ctx.vault@)
        }),
{
}

/// A close pays out of the duel's own vault, to the two players of the record
/// and nobody else, and the vault can sign for it.
pub proof fn law_closing_transfers(
    ctx: CloseDuel,
    now: i64,
    rent_min: u64,
    game_id: u64,
    i: int,
)
    requires
        close_error(ctx, now, rent_min, game_id) is None,
        0 <= i < close_payouts(
            ctx,
            ctx.duel->0,
            game_id,
            vault_bump(game_id, ctx.creator)->0,
        ).len(),
    ensures
        ({
            let duel = ctx.duel->0;
            let t = close_payouts(ctx, duel, game_id, vault_bump(game_id, ctx.creator)->0)[i];
            &&& t.lamports > 0
            &&& t.from == ctx.vault
            &&& t.to == duel.creator || t.to == duel.opponent
            &&& derived_address(t.signer.seeds(), program_id_bytes()@) == Some(ctx.vault@)
        }),
{
}

/// Closing a duel splits the balance of its record without loss: what is swept
/// to the treasury and what is left to return make up the balance.
pub proof fn law_record_balance_is_split(
    ctx: CloseDuel,
    now: i64,
    rent_min: u64,
    game_id: u64,
)
    requires
        close_error(ctx, now, rent_min, game_id) is None,
    ensures
        ({
            let after = closed(ctx, ctx.duel->0, rent_min);
            let swept = residual(ctx.duel->0, ctx.duel_lamports, rent_min);
            &&& swept + after.duel_lamports == ctx.duel_lamports
            &&& after.treasury_lamports == ctx.treasury_lamports + swept
        }),
{
}

/// Of a settled duel's record the creator gets back the rent and no more: any
/// residual is the treasury's. Of a cancelled or refunded duel's record the
/// creator gets back all.
pub proof fn law_residual_is_the_treasurys(
    ctx: CloseDuel,
    now: i64,
    rent_min: u64,
    game_id: u64,
)
    requires
        close_error(ctx, now, rent_min, game_id) is None,
    ensures
        ({
            let after = closed(ctx, ctx.duel->0, rent_min);
            if (ctx.duel->0).status == DuelStatus::Settled {
                &&& after.duel_lamports <= rent_min
                &&& ctx.duel_lamports >= rent_min ==> {
                    &&& after.duel_lamports == rent_min
                    &&& after.treasury_lamports - ctx.treasury_lamports == ctx.duel_lamports
                        - rent_min
                }
            } else {
                &&& after.duel_lamports == ctx.duel_lamports
                &&& after.treasury_lamports == ctx.treasury_lamports
            }
        }),
{
}

} // verus!
