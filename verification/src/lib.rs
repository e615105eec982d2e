//! A persistent territory-conquest game.
//!
//! Initial ownership of a 64-square board is allocated through a time-boxed
//! sealed auction; ongoing state evolves through adjacency-constrained combat
//! whose outcome derives from an externally supplied entropy digest.
//!
//! The library is the game's core: fixed-width record codecs, the command
//! decoder, the auction ledger, the board and occupancy registry, and the
//! combat resolver. The host around it supplies caller identity, the current
//! tick, value custody, token custody and entropy, and persists the records.

use vstd::prelude::*;

pub mod combat;
pub mod engine;
pub mod error;
pub mod instruction;
pub mod state;

verus! {

/// Number of squares on the board.
pub const BOARD_SIZE: u64 = 64;

/// Greatest number of bids the auction accepts.
pub const MAX_BIDS: u64 = 1000;

/// Health a square starts with at mint time, and is reset to when captured.
pub const MAX_HEALTH: u64 = 100000000;

/// Scales the attacker's positional advantage inside the roll threshold.
pub const ADVANTAGE_PERCENT: u64 = 4;

/// Number of teams; squares are dealt to teams round-robin at mint time.
pub const TEAM_COUNT: u64 = 4;

/// An opaque 32-byte party identifier (a caller, an owner, a token handle),
/// held as four 64-bit words; the record codec lays the words out
/// little-endian, lowest word first, so the type is byte-compatible with a
/// raw 32-byte identifier.
#[derive(Clone, Copy, Debug, Hash, PartialEq, Eq, Structural)]
pub struct PartyId {
    pub w0: u64,
    pub w1: u64,
    pub w2: u64,
    pub w3: u64,
}

impl PartyId {
    /// The all-zero identifier: the store's blank value, never a real party.
    pub open spec fn spec_zero() -> PartyId {
        PartyId { w0: 0, w1: 0, w2: 0, w3: 0 }
    }

    /// Returns the all-zero identifier.
    pub fn zero() -> (r: PartyId)
        ensures
            r == PartyId::spec_zero(),
    {
        PartyId { w0: 0, w1: 0, w2: 0, w3: 0 }
    }
}

/// A 32-byte entropy digest, held as four 64-bit words; the first word is
/// the digest's first eight bytes read little-endian.
#[derive(Clone, Copy, Debug, PartialEq, Eq, Structural)]
pub struct Digest32 {
    pub w0: u64,
    pub w1: u64,
    pub w2: u64,
    pub w3: u64,
}

} // verus!
