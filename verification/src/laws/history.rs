//! A duel's life: one instruction after the other.
use crate::accounts::vault_bump;
use crate::accounts::{CloseDuel, CreateDuel, JoinDuel, SettleDuel};
use crate::close::{close_error, close_payouts};
use crate::create::Terms;
use crate::create::{create_error, create_outcome, new_duel};
use crate::join::{join_error, join_outcome, joined};
use crate::lamports::total;
use crate::settle::{decided, settle_error, settle_payouts};
use crate::state::Duel;
use crate::vrf::fulfilled;
use vstd::prelude::*;

verus! {

/// An instruction on one duel, with its accounts and arguments.
pub enum Step<'a> {
    Create(CreateDuel, i64, Terms),
    Join(JoinDuel, u64, [u8; 32]),
    Settle(SettleDuel<'a>, u64),
    Close(CloseDuel<'a>, i64, u64, u64),
}

/// A duel's record, and what went into its vault less what came out.
pub struct Book {
    pub duel: Option<Duel>,
    pub vault: int,
}

/// What an instruction does to the book. One that is handed another record,
/// or is refused, does nothing.
pub open spec fn after_step(book: Book, step: Step) -> Book {
    match step {
        Step::Create(ctx, now, terms) => if ctx.duel == book.duel && create_error(
            ctx,
            now,
            terms,
        ) is None {
            Book {
                duel: Some(
                    new_duel(ctx.creator, ctx.duel_bump(terms.game_id)->0, now, terms),
                ),
                vault: book.vault + create_outcome(ctx, terms).stake.lamports,
            }
        } else {
            book
        },
        Step::Join(ctx, game_id, force) => if ctx.duel == book.duel && join_error(
            ctx,
            game_id,
            force,
        ) is None {
            Book {
                duel: Some(joined(ctx.duel->0, ctx.opponent, force, ctx.random)),
                vault: book.vault + join_outcome(ctx, force).stake.lamports,
            }
        } else {
            book
        },
        Step::Settle(ctx, game_id) => if ctx.duel == book.duel && settle_error(
            ctx,
            game_id,
        ) is None {
            let duel = ctx.duel->0;
            let bytes = fulfilled(ctx.random_data@)->0;
            Book {
                duel: Some(decided(duel, bytes)),
                vault: book.vault - total(
                    settle_payouts(
                        ctx,
                        duel,
                        game_id,
                        vault_bump(game_id, ctx.creator)->0,
                        bytes,
                    ),
                ),
            }
        } else {
            book
        },
        Step::Close(ctx, now, rent_min, game_id) => if ctx.duel == book.duel && close_error(
            ctx,
            now,
            rent_min,
            game_id,
        ) is None {
            Book {
                duel: None,
                vault: book.vault - total(
                    close_payouts(
                        ctx,
                        ctx.duel->0,
                        game_id,
                        vault_bump(game_id, ctx.creator)->0,
                    ),
                ),
            }
        } else {
            book
        },
    }
}

/// What a run of instructions does to the book.
pub open spec fn after_steps(book: Book, steps: Seq<Step>) -> Book
    decreases steps.len(),
{
    if steps.len() == 0 {
        book
    } else {
        after_step(after_steps(book, steps.drop_last()), steps.last())
    }
}

} // verus!
