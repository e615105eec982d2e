use sixty_four_game::error::DecodeError;
use sixty_four_game::state::{
    ActivePlayer, AuctionInfo, BidEntry, GameSquare, ACTIVE_PLAYER_LEN, AUCTION_INFO_LEN,
    BID_ENTRY_LEN, GAME_SQUARE_LEN,
};
use sixty_four_game::PartyId;

fn party(n: u64) -> PartyId {
    PartyId { w0: n, w1: n + 1, w2: n + 2, w3: n + 3 }
}

#[test]
fn auction_info_round_trip() {
    let a = AuctionInfo {
        bid_count: 7,
        squares_minted: 3,
        auction_end_slot: 123456789,
        auction_enabled: true,
    };
    let bytes = a.encode();
    assert_eq!(bytes.len(), AUCTION_INFO_LEN);
    assert_eq!(AuctionInfo::unpack_from_slice(&bytes), Ok(a));

    let d = AuctionInfo {
        bid_count: 0,
        squares_minted: 0,
        auction_end_slot: 0,
        auction_enabled: false,
    };
    let bytes = d.encode();
    assert_eq!(bytes, vec![0u8; 25]);
    assert_eq!(AuctionInfo::unpack_from_slice(&bytes), Ok(d));
}

#[test]
fn auction_info_layout_is_little_endian() {
    let a = AuctionInfo {
        bid_count: 1,
        squares_minted: 0x0102,
        auction_end_slot: u64::MAX,
        auction_enabled: true,
    };
    let bytes = a.encode();
    assert_eq!(&bytes[0..8], &[1, 0, 0, 0, 0, 0, 0, 0]);
    assert_eq!(&bytes[8..16], &[2, 1, 0, 0, 0, 0, 0, 0]);
    assert_eq!(&bytes[16..24], &[255u8; 8]);
    assert_eq!(bytes[24], 1);
}

#[test]
fn bid_entry_round_trip() {
    let b = BidEntry { bid_number: 41, amount_lamports: u64::MAX, bidder_pubkey: party(9) };
    let bytes = b.encode();
    assert_eq!(bytes.len(), BID_ENTRY_LEN);
    assert_eq!(BidEntry::unpack_from_slice(&bytes), Ok(b));
}

#[test]
fn game_square_round_trip() {
    let g = GameSquare {
        game_square_number: 63,
        team_number: 3,
        health_number: 100000000,
        mint_pubkey: party(77),
    };
    let bytes = g.encode();
    assert_eq!(bytes.len(), GAME_SQUARE_LEN);
    assert_eq!(GameSquare::unpack_from_slice(&bytes), Ok(g));
}

#[test]
fn active_player_round_trip() {
    let p = ActivePlayer {
        game_square_number: 12,
        owner_pubkey: party(5),
        program_token_account_pubkey: party(500),
    };
    let bytes = p.encode();
    assert_eq!(bytes.len(), ACTIVE_PLAYER_LEN);
    assert_eq!(ActivePlayer::unpack_from_slice(&bytes), Ok(p));
}

#[test]
fn pack_into_slice_overwrites_buffer() {
    let b = BidEntry { bid_number: 1, amount_lamports: 2, bidder_pubkey: party(3) };
    let mut buf = vec![0xAAu8; BID_ENTRY_LEN];
    b.pack_into_slice(&mut buf);
    assert_eq!(buf, b.encode());
}

#[test]
fn pack_into_slice_keeps_the_buffer_tail() {
    let a = AuctionInfo {
        bid_count: 1,
        squares_minted: 2,
        auction_end_slot: 3,
        auction_enabled: true,
    };
    let mut buf = vec![0xAAu8; AUCTION_INFO_LEN + 4];
    a.pack_into_slice(&mut buf);
    assert_eq!(&buf[..AUCTION_INFO_LEN], &a.encode()[..]);
    assert_eq!(&buf[AUCTION_INFO_LEN..], &[0xAAu8; 4]);
}

#[test]
fn decode_rejects_short_buffers() {
    assert_eq!(AuctionInfo::unpack_from_slice(&[0u8; 24]), Err(DecodeError::TooShort));
    assert_eq!(BidEntry::unpack_from_slice(&[0u8; 47]), Err(DecodeError::TooShort));
    assert_eq!(GameSquare::unpack_from_slice(&[0u8; 55]), Err(DecodeError::TooShort));
    assert_eq!(ActivePlayer::unpack_from_slice(&[0u8; 71]), Err(DecodeError::TooShort));
    assert_eq!(AuctionInfo::unpack_from_slice(&[]), Err(DecodeError::TooShort));
}

#[test]
fn decode_rejects_bad_enabled_byte() {
    let mut bytes = vec![0u8; AUCTION_INFO_LEN];
    bytes[24] = 2;
    assert_eq!(AuctionInfo::unpack_from_slice(&bytes), Err(DecodeError::InvalidValue));
    bytes[24] = 255;
    assert_eq!(AuctionInfo::unpack_from_slice(&bytes), Err(DecodeError::InvalidValue));
}

#[test]
fn decode_ignores_trailing_bytes() {
    let a = AuctionInfo {
        bid_count: 2,
        squares_minted: 1,
        auction_end_slot: 9,
        auction_enabled: false,
    };
    let mut bytes = a.encode();
    bytes.push(0xFF);
    bytes.push(0xFF);
    assert_eq!(AuctionInfo::unpack_from_slice(&bytes), Ok(a));
}
