//! The rules of a two-player wagering game with escrowed stakes: dice or a
//! coin flip, decided by a verifiable random function.
//!
//! A creator lists a duel and stakes a bet. An opponent joins with an equal
//! stake and requests randomness. Once the randomness is there anyone can
//! settle the duel, and the vault pays the winner and the house. A listing can
//! be cancelled, and a duel whose randomness never came can be refunded. In the
//! end a duel's record is closed: its rent goes back to the creator, and what a
//! settled record holds above that to the treasury.
//!
//! An instruction takes its accounts as plain values and changes them; the
//! transfers, the request for randomness and the event that follow from it are
//! returned for the caller to carry out. An instruction that is refused
//! changes nothing.
use vstd::prelude::*;

pub mod accounts;
pub mod address;
pub mod close;
pub mod create;
pub mod dice;
pub mod errors;
pub mod events;
pub mod join;
pub mod lamports;
pub mod laws;
pub mod loader;
pub mod pubkey;
pub mod settle;
pub mod state;
pub mod treasury;
pub mod vrf;

verus! {

/// The house fee in hundredths of a percent: 1.00%.
pub const HOUSE_FEE_BPS: u64 = 100;

/// How many basis points make the whole.
pub const BPS_DENOMINATOR: u64 = 10_000;

/// How long after its listing a joined duel whose randomness never came can be
/// refunded.
pub const DUEL_EXPIRY_SECONDS: i64 = 86_400;

} // verus!
