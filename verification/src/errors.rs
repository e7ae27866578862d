//! What can go wrong: the game's own errors, and the refusals that come from
//! checking the accounts of an instruction.
use vstd::prelude::*;

verus! {

/// The errors of the game's own rules.
#[derive(Clone, Copy, PartialEq, Eq, Structural, Debug)]
pub enum DuelError {
    /// The caller may not do this.
    Unauthorized,
    /// New duels are paused.
    Paused,
    /// A bet of zero lamports.
    InvalidBetAmount,
    /// The bet is over the configured maximum.
    BetTooLarge,
    /// The duel is not in the state that the instruction needs.
    InvalidState,
    /// The creator tried to join their own duel.
    CannotJoinOwnDuel,
    /// The duel is private and reserved for someone else.
    NotInvitedOpponent,
    /// The joiner's entropy is all zeros.
    BadForce,
    /// The randomness account is not the one of this duel.
    RandomnessMismatch,
    /// The randomness is not fulfilled yet.
    RandomnessNotReady,
    /// The randomness is fulfilled: the duel has to be settled, not refunded.
    AlreadyFulfilled,
    /// The refund deadline has not passed.
    NotExpired,
    /// The withdrawal would take the treasury below its rent reserve.
    TreasuryRentViolation,
    /// The source account does not hold the amount.
    InsufficientFunds,
    /// A sum or product does not fit.
    MathOverflow,
}

/// Why an instruction is refused.
#[derive(Clone, Copy, PartialEq, Eq, Structural, Debug)]
pub enum InstructionError {
    /// A rule of the game.
    Duel(DuelError),
    /// An account that must exist does not, or was closed.
    AccountNotInitialized,
    /// An account that is to be created exists already.
    AccountAlreadyInUse,
    /// An account's address is not the one that its seeds derive.
    ConstraintSeeds,
    /// A stored key differs from the account passed for it.
    ConstraintHasOne,
    /// An account is not at the required address.
    ConstraintAddress,
    /// An account to close is its own beneficiary.
    ConstraintClose,
    /// No bump seed gives an address off the curve.
    NoViableBump,
    /// The balance of one account was to be changed from two sides at once.
    AccountBorrowFailed,
}

} // verus!
