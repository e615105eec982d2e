//! The persisted records and their fixed-width little-endian codec.
//!
//! Each entity has one declared width, independent of content: integers are
//! eight little-endian bytes, booleans one byte (0 or 1), identifiers 32
//! bytes. `decode(encode(x)) == x` for every in-range value, and decoding
//! rejects any buffer shorter than the declared width.

use vstd::prelude::*;
use vstd::bytes::{
    lemma_auto_spec_u64_to_from_le_bytes, spec_u64_from_le_bytes, spec_u64_to_le_bytes,
    u64_from_le_bytes, u64_to_le_bytes,
};
use vstd::slice::slice_subrange;
use crate::PartyId;
use crate::error::DecodeError;

verus! {

/// Declared width of an encoded `AuctionInfo` record.
pub const AUCTION_INFO_LEN: usize = 25;

/// Declared width of an encoded `BidEntry` record.
pub const BID_ENTRY_LEN: usize = 48;

/// Declared width of an encoded `GameSquare` record.
pub const GAME_SQUARE_LEN: usize = 56;

/// Declared width of an encoded `ActivePlayer` record.
pub const ACTIVE_PLAYER_LEN: usize = 72;

/// One accepted bid: its slot number, the value offered, and the bidder.
/// `amount_lamports == 0` marks a settled slot (refunded or minted).
#[derive(Clone, Copy, Debug, PartialEq, Eq, Structural)]
pub struct BidEntry {
    pub bid_number: u64,
    pub amount_lamports: u64,
    pub bidder_pubkey: PartyId,
}

/// The auction's one global record.
#[derive(Clone, Copy, Debug, PartialEq, Eq, Structural)]
pub struct AuctionInfo {
    pub bid_count: u64,
    pub squares_minted: u64,
    pub auction_end_slot: u64,
    pub auction_enabled: bool,
}

/// One board square: its number, team, health, and the mint of its
/// ownership token.
#[derive(Clone, Copy, Debug, PartialEq, Eq, Structural)]
pub struct GameSquare {
    pub game_square_number: u64,
    pub team_number: u64,
    pub health_number: u64,
    pub mint_pubkey: PartyId,
}

/// One square's occupancy record: the square, the party that deposited the
/// square's token, and the custody token account. A square may fight only
/// while `game_square_number` matches the record's own slot.
#[derive(Clone, Copy, Debug, PartialEq, Eq, Structural)]
pub struct ActivePlayer {
    pub game_square_number: u64,
    pub owner_pubkey: PartyId,
    pub program_token_account_pubkey: PartyId,
}

/// The 32 bytes of a party identifier: its four words, little-endian,
/// lowest word first.
pub open spec fn spec_encode_party(p: PartyId) -> Seq<u8> {
    spec_u64_to_le_bytes(p.w0) + spec_u64_to_le_bytes(p.w1) + spec_u64_to_le_bytes(p.w2)
        + spec_u64_to_le_bytes(p.w3)
}

/// The party identifier held in the first 32 bytes of `s`.
pub open spec fn spec_decode_party(s: Seq<u8>) -> PartyId
    recommends
        s.len() >= 32,
{
    PartyId {
        w0: spec_u64_from_le_bytes(s.subrange(0, 8)),
        w1: spec_u64_from_le_bytes(s.subrange(8, 16)),
        w2: spec_u64_from_le_bytes(s.subrange(16, 24)),
        w3: spec_u64_from_le_bytes(s.subrange(24, 32)),
    }
}

/// A party identifier's 32 bytes decode back to it.
pub proof fn lemma_party_round_trip(p: PartyId)
    ensures
        spec_encode_party(p).len() == 32,
        spec_decode_party(spec_encode_party(p)) == p,
{
    lemma_auto_spec_u64_to_from_le_bytes();
    let e = spec_encode_party(p);
    assert(e.subrange(0, 8) =~= spec_u64_to_le_bytes(p.w0));
    assert(e.subrange(8, 16) =~= spec_u64_to_le_bytes(p.w1));
    assert(e.subrange(16, 24) =~= spec_u64_to_le_bytes(p.w2));
    assert(e.subrange(24, 32) =~= spec_u64_to_le_bytes(p.w3));
}

/// Appends a party identifier's 32 bytes to `v`.
fn push_party(v: &mut Vec<u8>, p: &PartyId)
    ensures
        final(v)@ == old(v)@ + spec_encode_party(*p),
{
    let mut b0 = u64_to_le_bytes(p.w0);
    let mut b1 = u64_to_le_bytes(p.w1);
    let mut b2 = u64_to_le_bytes(p.w2);
    let mut b3 = u64_to_le_bytes(p.w3);
    v.append(&mut b0);
    v.append(&mut b1);
    v.append(&mut b2);
    v.append(&mut b3);
    proof {
        assert(v@ =~= old(v)@ + spec_encode_party(*p));
    }
}

/// Reads the party identifier held at `offset`.
fn read_party(src: &[u8], offset: usize) -> (r: PartyId)
    requires
        offset + 32 <= src@.len(),
    ensures
        r == spec_decode_party(src@.subrange(offset as int, offset as int + 32)),
{
    let n = src.len();
    proof {
        assert(offset + 32 <= n);
    }
    let w0 = u64_from_le_bytes(slice_subrange(src, offset, offset + 8));
    let w1 = u64_from_le_bytes(slice_subrange(src, offset + 8, offset + 16));
    let w2 = u64_from_le_bytes(slice_subrange(src, offset + 16, offset + 24));
    let w3 = u64_from_le_bytes(slice_subrange(src, offset + 24, offset + 32));
    proof {
        let s = src@.subrange(offset as int, offset as int + 32);
        assert(s.subrange(0, 8) =~= src@.subrange(offset as int, offset as int + 8));
        assert(s.subrange(8, 16) =~= src@.subrange(offset as int + 8, offset as int + 16));
        assert(s.subrange(16, 24) =~= src@.subrange(offset as int + 16, offset as int + 24));
        assert(s.subrange(24, 32) =~= src@.subrange(offset as int + 24, offset as int + 32));
    }
    PartyId { w0, w1, w2, w3 }
}

/// Overwrites the start of `dst` with `bytes`, leaving the tail as it was.
fn write_prefix(dst: &mut Vec<u8>, bytes: &Vec<u8>)
    requires
        bytes@.len() <= old(dst)@.len(),
    ensures
        final(dst)@ == bytes@ + old(dst)@.skip(bytes@.len() as int),
{
    let ghost pre = dst@;
    let n = bytes.len();
    let mut i: usize = 0;
    while i < n
        invariant
            i <= n,
            n == bytes@.len(),
            n <= pre.len(),
            dst@.len() == pre.len(),
            forall|j: int| 0 <= j < i ==> dst@[j] == bytes@[j],
            forall|j: int| i <= j < pre.len() ==> dst@[j] == pre[j],
        decreases n - i,
    {
        dst[i] = bytes[i];
        i = i + 1;
    }
    proof {
        assert(dst@ =~= bytes@ + pre.skip(n as int));
    }
}

/// The 25 bytes of an `AuctionInfo` record.
pub open spec fn spec_encode_auction_info(a: AuctionInfo) -> Seq<u8> {
    spec_u64_to_le_bytes(a.bid_count) + spec_u64_to_le_bytes(a.squares_minted)
        + spec_u64_to_le_bytes(a.auction_end_slot) + seq![
        if a.auction_enabled {
            1u8
        } else {
            0u8
        },
    ]
}

/// The record held in the first 25 bytes of `s`, or `None` when the
/// enabled byte is neither 0 nor 1.
pub open spec fn spec_decode_auction_info(s: Seq<u8>) -> Option<AuctionInfo>
    recommends
        s.len() >= AUCTION_INFO_LEN,
{
    if s[24] == 0 || s[24] == 1 {
        Some(
            AuctionInfo {
                bid_count: spec_u64_from_le_bytes(s.subrange(0, 8)),
                squares_minted: spec_u64_from_le_bytes(s.subrange(8, 16)),
                auction_end_slot: spec_u64_from_le_bytes(s.subrange(16, 24)),
                auction_enabled: s[24] == 1,
            },
        )
    } else {
        None
    }
}

/// The 48 bytes of a `BidEntry` record.
pub open spec fn spec_encode_bid_entry(b: BidEntry) -> Seq<u8> {
    spec_u64_to_le_bytes(b.bid_number) + spec_u64_to_le_bytes(b.amount_lamports)
        + spec_encode_party(b.bidder_pubkey)
}

/// The record held in the first 48 bytes of `s`.
pub open spec fn spec_decode_bid_entry(s: Seq<u8>) -> BidEntry
    recommends
        s.len() >= BID_ENTRY_LEN,
{
    BidEntry {
        bid_number: spec_u64_from_le_bytes(s.subrange(0, 8)),
        amount_lamports: spec_u64_from_le_bytes(s.subrange(8, 16)),
        bidder_pubkey: spec_decode_party(s.subrange(16, 48)),
    }
}

/// The 56 bytes of a `GameSquare` record.
pub open spec fn spec_encode_game_square(g: GameSquare) -> Seq<u8> {
    spec_u64_to_le_bytes(g.game_square_number) + spec_u64_to_le_bytes(g.team_number)
        + spec_u64_to_le_bytes(g.health_number) + spec_encode_party(g.mint_pubkey)
}

/// The record held in the first 56 bytes of `s`.
pub open spec fn spec_decode_game_square(s: Seq<u8>) -> GameSquare
    recommends
        s.len() >= GAME_SQUARE_LEN,
{
    GameSquare {
        game_square_number: spec_u64_from_le_bytes(s.subrange(0, 8)),
        team_number: spec_u64_from_le_bytes(s.subrange(8, 16)),
        health_number: spec_u64_from_le_bytes(s.subrange(16, 24)),
        mint_pubkey: spec_decode_party(s.subrange(24, 56)),
    }
}

/// The 72 bytes of an `ActivePlayer` record.
pub open spec fn spec_encode_active_player(p: ActivePlayer) -> Seq<u8> {
    spec_u64_to_le_bytes(p.game_square_number) + spec_encode_party(p.owner_pubkey)
        + spec_encode_party(p.program_token_account_pubkey)
}

/// The record held in the first 72 bytes of `s`.
pub open spec fn spec_decode_active_player(s: Seq<u8>) -> ActivePlayer
    recommends
        s.len() >= ACTIVE_PLAYER_LEN,
{
    ActivePlayer {
        game_square_number: spec_u64_from_le_bytes(s.subrange(0, 8)),
        owner_pubkey: spec_decode_party(s.subrange(8, 40)),
        program_token_account_pubkey: spec_decode_party(s.subrange(40, 72)),
    }
}

impl AuctionInfo {
    /// Encodes the record at its declared width.
    pub fn encode(&self) -> (r: Vec<u8>)
        ensures
            r@ == spec_encode_auction_info(*self),
            r@.len() == AUCTION_INFO_LEN,
    {
        proof {
            lemma_auto_spec_u64_to_from_le_bytes();
        }
        let mut v = u64_to_le_bytes(self.bid_count);
        let mut b1 = u64_to_le_bytes(self.squares_minted);
        let mut b2 = u64_to_le_bytes(self.auction_end_slot);
        v.append(&mut b1);
        v.append(&mut b2);
        v.push(if self.auction_enabled { 1 } else { 0 });
        proof {
            assert(v@ =~= spec_encode_auction_info(*self));
        }
        v
    }

    /// Writes the record over the start of a buffer at least its declared
    /// width, leaving the buffer's tail as it was.
    pub fn pack_into_slice(&self, dst: &mut Vec<u8>)
        requires
            old(dst)@.len() >= AUCTION_INFO_LEN,
        ensures
            final(dst)@ == spec_encode_auction_info(*self) + old(dst)@.skip(AUCTION_INFO_LEN as int),
    {
        let e = self.encode();
        write_prefix(dst, &e);
    }

    /// Decodes a record from the buffer's first 25 bytes; rejects a shorter
    /// buffer, and an enabled byte that is neither 0 nor 1.
    pub fn unpack_from_slice(src: &[u8]) -> (r: Result<AuctionInfo, DecodeError>)
        ensures
            src@.len() < AUCTION_INFO_LEN ==> r == Err::<AuctionInfo, DecodeError>(
                DecodeError::TooShort,
            ),
            src@.len() >= AUCTION_INFO_LEN ==> match spec_decode_auction_info(src@) {
                Some(a) => r == Ok::<AuctionInfo, DecodeError>(a),
                None => r == Err::<AuctionInfo, DecodeError>(DecodeError::InvalidValue),
            },
    {
        let n = src.len();
        if n < AUCTION_INFO_LEN {
            return Err(DecodeError::TooShort);
        }
        let bid_count = u64_from_le_bytes(slice_subrange(src, 0, 8));
        let squares_minted = u64_from_le_bytes(slice_subrange(src, 8, 16));
        let auction_end_slot = u64_from_le_bytes(slice_subrange(src, 16, 24));
        let enabled_byte: u8 = src[24];
        let auction_enabled = if enabled_byte == 0 {
            false
        } else if enabled_byte == 1 {
            true
        } else {
            return Err(DecodeError::InvalidValue);
        };
        Ok(AuctionInfo { bid_count, squares_minted, auction_end_slot, auction_enabled })
    }
}

impl BidEntry {
    /// Encodes the record at its declared width.
    pub fn encode(&self) -> (r: Vec<u8>)
        ensures
            r@ == spec_encode_bid_entry(*self),
            r@.len() == BID_ENTRY_LEN,
    {
        proof {
            lemma_auto_spec_u64_to_from_le_bytes();
            lemma_party_round_trip(self.bidder_pubkey);
        }
        let mut v = u64_to_le_bytes(self.bid_number);
        let mut b1 = u64_to_le_bytes(self.amount_lamports);
        v.append(&mut b1);
        push_party(&mut v, &self.bidder_pubkey);
        proof {
            assert(v@ =~= spec_encode_bid_entry(*self));
        }
        v
    }

    /// Writes the record over the start of a buffer at least its declared
    /// width, leaving the buffer's tail as it was.
    pub fn pack_into_slice(&self, dst: &mut Vec<u8>)
        requires
            old(dst)@.len() >= BID_ENTRY_LEN,
        ensures
            final(dst)@ == spec_encode_bid_entry(*self) + old(dst)@.skip(BID_ENTRY_LEN as int),
    {
        let e = self.encode();
        write_prefix(dst, &e);
    }

    /// Decodes a record from the buffer's first 48 bytes; rejects a shorter
    /// buffer.
    pub fn unpack_from_slice(src: &[u8]) -> (r: Result<BidEntry, DecodeError>)
        ensures
            src@.len() < BID_ENTRY_LEN ==> r == Err::<BidEntry, DecodeError>(DecodeError::TooShort),
            src@.len() >= BID_ENTRY_LEN ==> r == Ok::<BidEntry, DecodeError>(
                spec_decode_bid_entry(src@),
            ),
    {
        let n = src.len();
        if n < BID_ENTRY_LEN {
            return Err(DecodeError::TooShort);
        }
        let bid_number = u64_from_le_bytes(slice_subrange(src, 0, 8));
        let amount_lamports = u64_from_le_bytes(slice_subrange(src, 8, 16));
        let bidder_pubkey = read_party(src, 16);
        Ok(BidEntry { bid_number, amount_lamports, bidder_pubkey })
    }
}

impl GameSquare {
    /// Encodes the record at its declared width.
    pub fn encode(&self) -> (r: Vec<u8>)
        ensures
            r@ == spec_encode_game_square(*self),
            r@.len() == GAME_SQUARE_LEN,
    {
        proof {
            lemma_auto_spec_u64_to_from_le_bytes();
            lemma_party_round_trip(self.mint_pubkey);
        }
        let mut v = u64_to_le_bytes(self.game_square_number);
        let mut b1 = u64_to_le_bytes(self.team_number);
        let mut b2 = u64_to_le_bytes(self.health_number);
        v.append(&mut b1);
        v.append(&mut b2);
        push_party(&mut v, &self.mint_pubkey);
        proof {
            assert(v@ =~= spec_encode_game_square(*self));
        }
        v
    }

    /// Writes the record over the start of a buffer at least its declared
    /// width, leaving the buffer's tail as it was.
    pub fn pack_into_slice(&self, dst: &mut Vec<u8>)
        requires
            old(dst)@.len() >= GAME_SQUARE_LEN,
        ensures
            final(dst)@ == spec_encode_game_square(*self) + old(dst)@.skip(GAME_SQUARE_LEN as int),
    {
        let e = self.encode();
        write_prefix(dst, &e);
    }

    /// Decodes a record from the buffer's first 56 bytes; rejects a shorter
    /// buffer.
    pub fn unpack_from_slice(src: &[u8]) -> (r: Result<GameSquare, DecodeError>)
        ensures
            src@.len() < GAME_SQUARE_LEN ==> r == Err::<GameSquare, DecodeError>(
                DecodeError::TooShort,
            ),
            src@.len() >= GAME_SQUARE_LEN ==> r == Ok::<GameSquare, DecodeError>(
                spec_decode_game_square(src@),
            ),
    {
        let n = src.len();
        if n < GAME_SQUARE_LEN {
            return Err(DecodeError::TooShort);
        }
        let game_square_number = u64_from_le_bytes(slice_subrange(src, 0, 8));
        let team_number = u64_from_le_bytes(slice_subrange(src, 8, 16));
        let health_number = u64_from_le_bytes(slice_subrange(src, 16, 24));
        let mint_pubkey = read_party(src, 24);
        Ok(GameSquare { game_square_number, team_number, health_number, mint_pubkey })
    }
}

impl ActivePlayer {
    /// Encodes the record at its declared width.
    pub fn encode(&self) -> (r: Vec<u8>)
        ensures
            r@ == spec_encode_active_player(*self),
            r@.len() == ACTIVE_PLAYER_LEN,
    {
        proof {
            lemma_auto_spec_u64_to_from_le_bytes();
            lemma_party_round_trip(self.owner_pubkey);
            lemma_party_round_trip(self.program_token_account_pubkey);
        }
        let mut v = u64_to_le_bytes(self.game_square_number);
        push_party(&mut v, &self.owner_pubkey);
        push_party(&mut v, &self.program_token_account_pubkey);
        proof {
            assert(v@ =~= spec_encode_active_player(*self));
        }
        v
    }

    /// Writes the record over the start of a buffer at least its declared
    /// width, leaving the buffer's tail as it was.
    pub fn pack_into_slice(&self, dst: &mut Vec<u8>)
        requires
            old(dst)@.len() >= ACTIVE_PLAYER_LEN,
        ensures
            final(dst)@ == spec_encode_active_player(*self) + old(dst)@.skip(ACTIVE_PLAYER_LEN as int),
    {
        let e = self.encode();
        write_prefix(dst, &e);
    }

    /// Decodes a record from the buffer's first 72 bytes; rejects a shorter
    /// buffer.
    pub fn unpack_from_slice(src: &[u8]) -> (r: Result<ActivePlayer, DecodeError>)
        ensures
            src@.len() < ACTIVE_PLAYER_LEN ==> r == Err::<ActivePlayer, DecodeError>(
                DecodeError::TooShort,
            ),
            src@.len() >= ACTIVE_PLAYER_LEN ==> r == Ok::<ActivePlayer, DecodeError>(
                spec_decode_active_player(src@),
            ),
    {
        let n = src.len();
        if n < ACTIVE_PLAYER_LEN {
            return Err(DecodeError::TooShort);
        }
        let game_square_number = u64_from_le_bytes(slice_subrange(src, 0, 8));
        let owner_pubkey = read_party(src, 8);
        let program_token_account_pubkey = read_party(src, 40);
        proof {
        }
        Ok(ActivePlayer { game_square_number, owner_pubkey, program_token_account_pubkey })
    }
}

/// Round trip: an `AuctionInfo` record's bytes decode back to it.
pub proof fn lemma_auction_info_round_trip(a: AuctionInfo)
    ensures
        spec_encode_auction_info(a).len() == AUCTION_INFO_LEN,
        spec_decode_auction_info(spec_encode_auction_info(a)) == Some(a),
{
    lemma_auto_spec_u64_to_from_le_bytes();
    let e = spec_encode_auction_info(a);
    assert(e.subrange(0, 8) =~= spec_u64_to_le_bytes(a.bid_count));
    assert(e.subrange(8, 16) =~= spec_u64_to_le_bytes(a.squares_minted));
    assert(e.subrange(16, 24) =~= spec_u64_to_le_bytes(a.auction_end_slot));
    assert(e[24] == if a.auction_enabled { 1u8 } else { 0u8 });
}

/// Round trip: a `BidEntry` record's bytes decode back to it.
pub proof fn lemma_bid_entry_round_trip(b: BidEntry)
    ensures
        spec_encode_bid_entry(b).len() == BID_ENTRY_LEN,
        spec_decode_bid_entry(spec_encode_bid_entry(b)) == b,
{
    lemma_auto_spec_u64_to_from_le_bytes();
    lemma_party_round_trip(b.bidder_pubkey);
    let e = spec_encode_bid_entry(b);
    assert(e.subrange(0, 8) =~= spec_u64_to_le_bytes(b.bid_number));
    assert(e.subrange(8, 16) =~= spec_u64_to_le_bytes(b.amount_lamports));
    assert(e.subrange(16, 48) =~= spec_encode_party(b.bidder_pubkey));
}

/// Round trip: a `GameSquare` record's bytes decode back to it.
pub proof fn lemma_game_square_round_trip(g: GameSquare)
    ensures
        spec_encode_game_square(g).len() == GAME_SQUARE_LEN,
        spec_decode_game_square(spec_encode_game_square(g)) == g,
{
    lemma_auto_spec_u64_to_from_le_bytes();
    lemma_party_round_trip(g.mint_pubkey);
    let e = spec_encode_game_square(g);
    assert(e.subrange(0, 8) =~= spec_u64_to_le_bytes(g.game_square_number));
    assert(e.subrange(8, 16) =~= spec_u64_to_le_bytes(g.team_number));
    assert(e.subrange(16, 24) =~= spec_u64_to_le_bytes(g.health_number));
    assert(e.subrange(24, 56) =~= spec_encode_party(g.mint_pubkey));
}

/// Round trip: an `ActivePlayer` record's bytes decode back to it.
pub proof fn lemma_active_player_round_trip(p: ActivePlayer)
    ensures
        spec_encode_active_player(p).len() == ACTIVE_PLAYER_LEN,
        spec_decode_active_player(spec_encode_active_player(p)) == p,
{
    lemma_auto_spec_u64_to_from_le_bytes();
    lemma_party_round_trip(p.owner_pubkey);
    lemma_party_round_trip(p.program_token_account_pubkey);
    let e = spec_encode_active_player(p);
    assert(e.subrange(0, 8) =~= spec_u64_to_le_bytes(p.game_square_number));
    assert(e.subrange(8, 40) =~= spec_encode_party(p.owner_pubkey));
    assert(e.subrange(40, 72) =~= spec_encode_party(p.program_token_account_pubkey));
}

} // verus!
