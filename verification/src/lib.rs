//! A recurring on-chain raffle: participants buy tickets into a shared pot,
//! a commit/reveal randomness protocol picks a winner once the round is over,
//! and settlement splits the pot between a platform fee and the winner before
//! rolling the round forward.
//!
//! The crate verifies the round state machine itself: opening a draw, consuming
//! an externally supplied random value exactly once, computing the winner and
//! the fee/prize split, and resetting the round. The chain runtime around it
//! (account plumbing, fund transfers, the clock and the oracle) hands these
//! functions plain values and performs the transfers they return.

pub mod errors;
pub mod state;
pub mod lottery;
pub mod laws;
