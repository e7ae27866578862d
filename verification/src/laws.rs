//! What holds of the game as a whole.
pub mod access;
pub mod admission;
pub mod calls;
pub mod escrow;
pub mod fairness;
pub mod history;
pub mod outcome;
pub mod record;
