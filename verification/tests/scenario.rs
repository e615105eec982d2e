use sixty_four_game::engine::{
    CallContext, GameState, MintOutcome, ProcessOutcome, Processor,
};
use sixty_four_game::error::GameError;
use sixty_four_game::{Digest32, PartyId, MAX_HEALTH};

fn party(n: u64) -> PartyId {
    PartyId { w0: n, w1: 0, w2: 0, w3: 0 }
}

fn ctx(caller: u64, slot: u64, new_mint: u64, custody: u64, roll_word: u64) -> CallContext {
    CallContext {
        caller: party(caller),
        caller_is_signer: true,
        current_slot: slot,
        new_mint: party(new_mint),
        program_token_account: party(custody),
        entropy_digest: Digest32 { w0: roll_word, w1: 0, w2: 0, w3: 0 },
        enforce_token_match: true,
    }
}

fn command(tag: u8, fields: &[u64]) -> Vec<u8> {
    let mut v = vec![tag];
    for f in fields {
        v.extend_from_slice(&f.to_le_bytes());
    }
    v
}

#[test]
fn process_rejects_a_malformed_command() {
    let mut state = GameState::new();
    assert_eq!(
        Processor::process(&mut state, &ctx(1, 10, 0, 0, 0), &[]),
        Err(GameError::InvalidCommand)
    );
    assert_eq!(
        Processor::process(&mut state, &ctx(1, 10, 0, 0, 0), &command(9, &[])),
        Err(GameError::InvalidCommand)
    );
    assert_eq!(state.auction.bid_count, 0);
}

#[test]
fn end_to_end_auction_then_conquest() {
    let mut state = GameState::new();

    // InitiateAuction(end_tick = 100)
    assert_eq!(
        Processor::process(&mut state, &ctx(1, 0, 0, 0, 0), &command(0, &[100])),
        Ok(ProcessOutcome::AuctionInitiated)
    );

    // Bid(amount = 5) at tick 10, then a second bidder for the second square
    assert_eq!(
        Processor::process(&mut state, &ctx(1, 10, 0, 0, 0), &command(1, &[5])),
        Ok(ProcessOutcome::BidPlaced { bid_number: 0 })
    );
    assert_eq!(
        Processor::process(&mut state, &ctx(2, 11, 0, 0, 0), &command(1, &[4])),
        Ok(ProcessOutcome::BidPlaced { bid_number: 1 })
    );

    // MintNFT at tick 50 fails: the auction is still active
    assert_eq!(
        Processor::process(&mut state, &ctx(1, 50, 100, 0, 0), &command(3, &[])),
        Err(GameError::PreconditionFailed)
    );

    // MintNFT at tick 150 succeeds for the highest bidder, then the next
    assert_eq!(
        Processor::process(&mut state, &ctx(1, 150, 100, 0, 0), &command(3, &[])),
        Ok(ProcessOutcome::Mint { outcome: MintOutcome::Minted { square: 0 } })
    );
    assert_eq!(
        Processor::process(&mut state, &ctx(2, 150, 101, 0, 0), &command(3, &[])),
        Ok(ProcessOutcome::Mint { outcome: MintOutcome::Minted { square: 1 } })
    );

    // both owners deposit their tokens
    assert_eq!(
        Processor::process(&mut state, &ctx(1, 150, 100, 300, 0), &command(4, &[0])),
        Ok(ProcessOutcome::PlayInitiated)
    );
    assert_eq!(
        Processor::process(&mut state, &ctx(2, 150, 101, 301, 0), &command(4, &[1])),
        Ok(ProcessOutcome::PlayInitiated)
    );

    // an attack from an adjacent, different-team, active square succeeds and
    // mutates exactly one of the two square records
    let before0 = state.squares[0];
    let before1 = state.squares[1];
    let r = Processor::process(&mut state, &ctx(1, 150, 0, 0, 0), &command(6, &[7, 0, 1]));
    match r {
        Ok(ProcessOutcome::Attacked { outcome }) => {
            assert_eq!(outcome.threshold, 55);
            assert_eq!(outcome.roll, 1);
            assert!(!outcome.attacker_lost);
            assert!(!outcome.captured);
        },
        other => panic!("unexpected result: {:?}", other),
    }
    assert_eq!(state.squares[0], before0);
    assert_eq!(state.squares[1].health_number, before1.health_number - 7);
    assert_eq!(state.squares[1].team_number, before1.team_number);
    assert_eq!(state.squares[0].health_number, MAX_HEALTH);

    // the losing owner withdraws the battered square's token
    assert_eq!(
        Processor::process(&mut state, &ctx(2, 151, 0, 0, 0), &command(5, &[1])),
        Ok(ProcessOutcome::PlayEnded { custody_token_account: party(301) })
    );

    // CancelBid stays a harmless no-op all along
    assert_eq!(
        Processor::process(&mut state, &ctx(1, 152, 0, 0, 0), &command(2, &[])),
        Ok(ProcessOutcome::BidCancelled)
    );
}
