//! The error taxonomy of the game.
//!
//! Every error is terminal and fully aborting: an operation that returns
//! one of these has recorded no partial state.

use vstd::prelude::*;

verus! {

/// Why an operation was rejected.
#[derive(Clone, Copy, Debug, PartialEq, Eq, Structural)]
pub enum PixelError {
    /// Caller is not the configured admin authority.
    Unauthorized,
    /// No round is currently active.
    NoActiveRound,
    /// A round is already active.
    RoundAlreadyActive,
    /// Pixel coordinates lie outside the canvas raster.
    OutOfBounds,
    /// The caller's placement cooldown has not yet elapsed.
    CooldownNotElapsed,
    /// The round has already ended.
    RoundEnded,
    /// A counter increment would overflow its fixed-width representation.
    ArithmeticOverflow,
    /// The team id is outside the allowed range.
    InvalidTeamId,
    /// The participant is already registered for this round.
    AgentAlreadyRegistered,
}

} // verus!
