//! The one error taxonomy every protocol operation reports failures with.
//! Each operation either completes with no partial effect, or returns one of
//! these kinds and leaves every piece of state exactly as it was.

use vstd::prelude::*;

verus! {

/// Symbolic failure kinds of the raffle protocol.
#[derive(Clone, Copy, Debug, PartialEq, Eq, Structural)]
pub enum HashtrologyErrors {
    /// A checked add, sub or mul on a balance, counter or timestamp would wrap.
    Overflow,
    /// The platform fee must be 10,000 basis points (100%) or less.
    InvalidPlatformFee,
    /// The ticket price cannot be zero.
    InvalidTicketPrice,
    /// The lottery is currently drawing a winner; purchases are frozen.
    LotteryIsDrawing,
    /// The lottery is not over yet; a draw cannot be requested.
    LotteryNotOver,
    /// The presented randomness account is not the one bound to this round.
    InvalidRandomnessAccount,
    /// The oracle's recorded commit slot does not match the round's.
    InvalidRandomnessSlot,
    /// A draw has already been requested for this lottery.
    DrawAlreadyRequested,
    /// The signer is not the authorized keeper.
    UnauthorizedAuthority,
    /// The winning ticket reference or winner identity is invalid.
    InvalidWinner,
    /// The provided VRF account does not match the one in state.
    InvalidVrfAccount,
    /// The provided Switchboard program ID is incorrect.
    InvalidSwitchboardProgram,
    /// The randomness bound to this round was already revealed and consumed.
    RandomnessAlreadyRevealed,
    /// No draw has been requested for this lottery.
    DrawNotRequested,
    /// The randomness request has expired; the draw must be re-opened.
    RandomnessExpired,
    /// The randomness result has not been revealed yet.
    RandomnessNotResolved,
    /// The oracle's random number result is not ready yet.
    VrfResultNotReady,
    /// Cannot roll over a lottery that has participants.
    CannotRolloverWithPlayers,
    /// Only the authority can perform this action.
    Unauthorized,
    /// The new lottery end time must be in the future.
    InvalidEndtime,
}

} // verus!
