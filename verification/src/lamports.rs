//! Balances, stakes and payouts.
use crate::errors::DuelError;
use crate::pubkey::Pubkey;
use crate::{BPS_DENOMINATOR, HOUSE_FEE_BPS};
use vstd::prelude::*;

verus! {

/// A transfer into a duel's vault, signed by the one who pays.
#[derive(Clone, Copy, Debug)]
pub struct Deposit {
    pub from: Pubkey,
    pub to: Pubkey,
    pub lamports: u64,
}

/// What a duel's vault signs with: the seeds of its address.
#[derive(Clone, Copy, Debug)]
pub struct VaultSigner {
    pub game_id: u64,
    pub creator: Pubkey,
    pub bump: u8,
}

/// A transfer out of a duel's vault, signed by the vault.
#[derive(Clone, Copy, Debug)]
pub struct VaultTransfer {
    pub from: Pubkey,
    pub to: Pubkey,
    pub lamports: u64,
    pub signer: VaultSigner,
}

/// Both stakes together.
pub open spec fn pot(bet: u64) -> int {
    2 * bet
}

/// The house fee on a pot, rounded down.
pub open spec fn house_fee(bet: u64) -> int {
    pot(bet) * HOUSE_FEE_BPS / (BPS_DENOMINATOR as int)
}

/// What the winner gets: the pot less the fee.
pub open spec fn winnings(bet: u64) -> int {
    pot(bet) - house_fee(bet)
}

/// Whether the fee of a bet can be computed in 64 bits. The product with the
/// fee's basis points has to fit.
pub open spec fn fee_fits(bet: u64) -> bool {
    pot(bet) * HOUSE_FEE_BPS <= u64::MAX
}

/// The payout of an amount: one transfer, or none for an amount of zero.
pub open spec fn payout(
    vault: Pubkey,
    to: Pubkey,
    lamports: int,
    signer: VaultSigner,
) -> Seq<VaultTransfer> {
    if lamports == 0 {
        Seq::empty()
    } else {
        seq![VaultTransfer { from: vault, to, lamports: lamports as u64, signer }]
    }
}

/// What a run of payouts takes out of the vault.
pub open spec fn total(payouts: Seq<VaultTransfer>) -> int
    decreases payouts.len(),
{
    if payouts.len() == 0 {
        0
    } else {
        total(payouts.drop_last()) + payouts.last().lamports
    }
}

/// What a run of payouts gives to one account.
pub open spec fn received(payouts: Seq<VaultTransfer>, who: Pubkey) -> int
    decreases payouts.len(),
{
    if payouts.len() == 0 {
        0
    } else {
        received(payouts.drop_last(), who) + if payouts.last().to == who {
            payouts.last().lamports as int
        } else {
            0
        }
    }
}

/// Splits the pot of a bet into what the winner gets and the house fee.
pub fn split_pot(bet: u64) -> (r: Result<(u64, u64), DuelError>)
    ensures
        fee_fits(bet) ==> r == Ok::<(u64, u64), DuelError>((winnings(bet) as u64, house_fee(bet) as u64)),
        !fee_fits(bet) ==> r == Err::<(u64, u64), DuelError>(DuelError::MathOverflow),
{
    let pot: u64 = match bet.checked_mul(2) {
        Some(p) => p,
        None => return Err(DuelError::MathOverflow),
    };
    let scaled: u64 = match pot.checked_mul(HOUSE_FEE_BPS) {
        Some(s) => s,
        None => return Err(DuelError::MathOverflow),
    };
    let fee: u64 = scaled / BPS_DENOMINATOR;
    match pot.checked_sub(fee) {
        Some(win) => Ok((win, fee)),
        None => Err(DuelError::MathOverflow),
    }
}

/// Pays an amount out of a duel's vault: the transfer to make, or none for an
/// amount of zero.
pub fn vault_payout(
    vault: Pubkey,
    to: Pubkey,
    amount: u64,
    game_id: u64,
    creator: Pubkey,
    vault_bump: u8,
) -> (r: Option<VaultTransfer>)
    ensures
        amount == 0 ==> r is None,
        amount != 0 ==> r == Some(
            VaultTransfer {
                from: vault,
                to,
                lamports: amount,
                signer: VaultSigner { game_id, creator, bump: vault_bump },
            },
        ),
{
    if amount == 0 {
        return None;
    }
    Some(
        VaultTransfer {
            from: vault,
            to,
            lamports: amount,
            signer: VaultSigner { game_id, creator, bump: vault_bump },
        },
    )
}

/// Appends a payout to a list of transfers, unless its amount is zero.
pub fn push_payout(payouts: &mut Vec<VaultTransfer>, transfer: Option<VaultTransfer>)
    ensures
        transfer is None ==> final(payouts)@ == old(payouts)@,
        transfer matches Some(t) ==> final(payouts)@ == old(payouts)@.push(t),
{
    if let Some(t) = transfer {
        payouts.push(t);
    }
}

/// Moves an amount between two balances. The source is debited first: when
/// the destination cannot take the amount, the debit stands.
pub fn move_lamports(from: &mut u64, to: &mut u64, amount: u64) -> (r: Result<(), DuelError>)
    ensures
        r is Ok <==> amount == 0 || (amount <= *old(from) && *old(to) + amount <= u64::MAX),
        r is Ok ==> *final(from) == *old(from) - amount && *final(to) == *old(to) + amount,
        r == Err::<(), DuelError>(DuelError::InsufficientFunds) <==> amount > *old(from),
        r == Err::<(), DuelError>(DuelError::InsufficientFunds) ==> *final(from) == *old(from)
            && *final(to) == *old(to),
        r == Err::<(), DuelError>(DuelError::MathOverflow) <==> 0 < amount <= *old(from)
            && *old(to) + amount > u64::MAX,
        r == Err::<(), DuelError>(DuelError::MathOverflow) ==> *final(from) == *old(from) - amount
            && *final(to) == *old(to),
{
    if amount == 0 {
        return Ok(());
    }
    *from = match from.checked_sub(amount) {
        Some(v) => v,
        None => return Err(DuelError::InsufficientFunds),
    };
    *to = match to.checked_add(amount) {
        Some(v) => v,
        None => return Err(DuelError::MathOverflow),
    };
    Ok(())
}

} // verus!
