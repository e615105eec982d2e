//! The command decoder: one opcode byte, then fixed-width little-endian
//! `u64` fields at fixed offsets.

use vstd::prelude::*;
use vstd::bytes::{
    spec_u32_from_le_bytes, spec_u64_from_le_bytes, u32_from_le_bytes, u64_from_le_bytes,
};
use vstd::slice::slice_subrange;
use crate::error::SixtyFourGameError;

verus! {

/// One decoded command.
#[derive(Clone, Copy, Debug, PartialEq, Eq, Structural)]
pub enum SixtyFourGameInstruction {
    /// Starts the auction and sets the slot at which it ends.
    InititateAuction { auction_end_slot: u64 },
    /// Offers `amount` for a square.
    Bid { amount: u64 },
    /// Reserved; accepted and currently without effect.
    CancelBid,
    /// Claims one square's token after the auction, or a refund once the
    /// board is full.
    MintNFT,
    /// Deposits a square's token, activating the square for combat.
    InitiatePlay { square: u64 },
    /// Withdraws a square's token, deactivating the square.
    EndPlay { square: u64 },
    /// Attacks a neighboring square with `amount` at stake.
    Attack { amount: u64, from_square: u64, to_square: u64 },
}

/// The command held in `input`: the first byte is the opcode tag, the fields
/// follow little-endian at fixed offsets. `None` when the tag is unknown or
/// a field is truncated.
pub open spec fn spec_unpack(input: Seq<u8>) -> Option<SixtyFourGameInstruction> {
    if input.len() < 1 {
        None
    } else {
        let tag = input[0];
        let rest = input.skip(1);
        if tag == 0 {
            if rest.len() >= 8 {
                Some(
                    SixtyFourGameInstruction::InititateAuction {
                        auction_end_slot: spec_u64_from_le_bytes(rest.subrange(0, 8)),
                    },
                )
            } else {
                None
            }
        } else if tag == 1 {
            if rest.len() >= 8 {
                Some(
                    SixtyFourGameInstruction::Bid {
                        amount: spec_u64_from_le_bytes(rest.subrange(0, 8)),
                    },
                )
            } else {
                None
            }
        } else if tag == 2 {
            Some(SixtyFourGameInstruction::CancelBid)
        } else if tag == 3 {
            Some(SixtyFourGameInstruction::MintNFT)
        } else if tag == 4 {
            if rest.len() >= 8 {
                Some(
                    SixtyFourGameInstruction::InitiatePlay {
                        square: spec_u64_from_le_bytes(rest.subrange(0, 8)),
                    },
                )
            } else {
                None
            }
        } else if tag == 5 {
            if rest.len() >= 8 {
                Some(
                    SixtyFourGameInstruction::EndPlay {
                        square: spec_u64_from_le_bytes(rest.subrange(0, 8)),
                    },
                )
            } else {
                None
            }
        } else if tag == 6 {
            if rest.len() >= 24 {
                Some(
                    SixtyFourGameInstruction::Attack {
                        amount: spec_u64_from_le_bytes(rest.subrange(0, 8)),
                        from_square: spec_u64_from_le_bytes(rest.subrange(8, 16)),
                        to_square: spec_u64_from_le_bytes(rest.subrange(16, 24)),
                    },
                )
            } else {
                None
            }
        } else {
            None
        }
    }
}

impl SixtyFourGameInstruction {
    /// Unpacks a byte buffer into a `SixtyFourGameInstruction`.
    pub fn unpack(input: &[u8]) -> (r: Result<SixtyFourGameInstruction, SixtyFourGameError>)
        ensures
            match spec_unpack(input@) {
                Some(instruction) => r == Ok::<SixtyFourGameInstruction, SixtyFourGameError>(
                    instruction,
                ),
                None => r == Err::<SixtyFourGameInstruction, SixtyFourGameError>(
                    SixtyFourGameError::InvalidInstruction,
                ),
            },
    {
        let n = input.len();
        if n < 1 {
            return Err(SixtyFourGameError::InvalidInstruction);
        }
        let tag: u8 = input[0];
        let rest = slice_subrange(input, 1, n);
        proof {
            assert(rest@ =~= input@.skip(1));
        }
        match tag {
            0 => {
                let auction_end_slot = Self::unpack_amount(rest, 0)?;
                Ok(SixtyFourGameInstruction::InititateAuction { auction_end_slot })
            },
            1 => {
                let amount = Self::unpack_amount(rest, 0)?;
                Ok(SixtyFourGameInstruction::Bid { amount })
            },
            2 => Ok(SixtyFourGameInstruction::CancelBid),
            3 => Ok(SixtyFourGameInstruction::MintNFT),
            4 => {
                let square = Self::unpack_amount(rest, 0)?;
                Ok(SixtyFourGameInstruction::InitiatePlay { square })
            },
            5 => {
                let square = Self::unpack_amount(rest, 0)?;
                Ok(SixtyFourGameInstruction::EndPlay { square })
            },
            6 => {
                let amount = Self::unpack_amount(rest, 0)?;
                let from_square = Self::unpack_amount(rest, 8)?;
                let to_square = Self::unpack_amount(rest, 16)?;
                Ok(SixtyFourGameInstruction::Attack { amount, from_square, to_square })
            },
            _ => Err(SixtyFourGameError::InvalidInstruction),
        }
    }

    /// Reads the little-endian `u64` field at `offset`; a missing or
    /// truncated field is an invalid instruction.
    pub fn unpack_amount(input: &[u8], offset: usize) -> (r: Result<u64, SixtyFourGameError>)
        ensures
            offset + 8 <= input@.len() ==> r == Ok::<u64, SixtyFourGameError>(
                spec_u64_from_le_bytes(input@.subrange(offset as int, offset as int + 8)),
            ),
            offset + 8 > input@.len() ==> r == Err::<u64, SixtyFourGameError>(
                SixtyFourGameError::InvalidInstruction,
            ),
    {
        let n = input.len();
        if n < 8 || offset > n - 8 {
            return Err(SixtyFourGameError::InvalidInstruction);
        }
        Ok(u64_from_le_bytes(slice_subrange(input, offset, offset + 8)))
    }

    /// Reads the little-endian `u32` field at the buffer's start; a missing
    /// or truncated field is an invalid instruction.
    pub fn unpack_amount_32(input: &[u8]) -> (r: Result<u32, SixtyFourGameError>)
        ensures
            input@.len() >= 4 ==> r == Ok::<u32, SixtyFourGameError>(
                spec_u32_from_le_bytes(input@.subrange(0, 4)),
            ),
            input@.len() < 4 ==> r == Err::<u32, SixtyFourGameError>(
                SixtyFourGameError::InvalidInstruction,
            ),
    {
        let n = input.len();
        if n < 4 {
            return Err(SixtyFourGameError::InvalidInstruction);
        }
        Ok(u32_from_le_bytes(slice_subrange(input, 0, 4)))
    }
}

} // verus!
