//! Error taxonomy: decoder errors and engine errors.

use vstd::prelude::*;

verus! {

/// Errors the command decoder may return.
#[derive(Clone, Copy, Debug, PartialEq, Eq, Structural)]
pub enum SixtyFourGameError {
    /// Invalid instruction number passed in.
    InvalidInstruction,
    /// The referenced account does not hold the token mint it should.
    ExpectedMint,
}

/// Errors of the fixed-width record codec.
#[derive(Clone, Copy, Debug, PartialEq, Eq, Structural)]
pub enum DecodeError {
    /// The buffer is shorter than the record's declared width.
    TooShort,
    /// A field holds a byte outside its value range (a boolean not 0 or 1).
    InvalidValue,
}

/// Errors of the game engine. Every failed operation leaves the state as it
/// was: validation completes before any write begins.
#[derive(Clone, Copy, Debug, PartialEq, Eq, Structural)]
pub enum GameError {
    /// The command buffer is malformed.
    InvalidCommand,
    /// A state precondition does not hold: the auction is inactive or
    /// expired, capacity is reached, the caller is not the record's owner,
    /// the target square is out of range or not adjacent, or the squares are
    /// on the same team.
    PreconditionFailed,
    /// The caller did not sign the invocation.
    Unauthorized,
    /// The caller asked to mint without holding the winning bid.
    NotHighestBidder,
}

} // verus!
