use sixty_four_game::combat::{is_adjacent, roll_threshold};
use sixty_four_game::engine::{AttackOutcome, GameState, Processor};
use sixty_four_game::error::GameError;
use sixty_four_game::{Digest32, PartyId, MAX_HEALTH};

fn party(n: u64) -> PartyId {
    PartyId { w0: n, w1: 0, w2: 0, w3: 0 }
}

fn digest(w0: u64) -> Digest32 {
    Digest32 { w0, w1: 0, w2: 0, w3: 0 }
}

const ALICE: u64 = 1;
const BOB: u64 = 2;
const MINT0: u64 = 100;
const MINT1: u64 = 101;
const CUSTODY0: u64 = 300;
const CUSTODY1: u64 = 301;
const NOW: u64 = 150;

/// Auction over at 100; alice owns active square 0 (team 0), bob owns
/// active square 1 (team 1).
fn two_active_squares() -> GameState {
    let mut state = GameState::new();
    Processor::process_initiate_auction(&mut state, 100).unwrap();
    Processor::process_bid(&mut state, party(ALICE), 10, 5).unwrap();
    Processor::process_bid(&mut state, party(BOB), 9, 6).unwrap();
    Processor::process_mint_nft(&mut state, party(ALICE), NOW, party(MINT0)).unwrap();
    Processor::process_mint_nft(&mut state, party(BOB), NOW, party(MINT1)).unwrap();
    Processor::process_initiate_play(
        &mut state,
        party(ALICE),
        true,
        0,
        party(MINT0),
        party(CUSTODY0),
        NOW,
        true,
    )
    .unwrap();
    Processor::process_initiate_play(
        &mut state,
        party(BOB),
        true,
        1,
        party(MINT1),
        party(CUSTODY1),
        NOW,
        true,
    )
    .unwrap();
    state
}

#[test]
fn adjacency_follows_the_literal_table() {
    // row 0 of the table is [2,4,6,8]: squares 1, 3, 5 and 7, zero-indexed
    assert!(is_adjacent(0, 1));
    assert!(is_adjacent(0, 3));
    assert!(is_adjacent(0, 5));
    assert!(is_adjacent(0, 7));
    assert!(!is_adjacent(0, 2));
    assert!(!is_adjacent(0, 0));
    // row 36 holds the entry 64, naming square 63
    assert!(is_adjacent(36, 63));
    // row 42 is [42,44,0,0]: the zero entries name nothing
    assert!(is_adjacent(42, 41));
    assert!(is_adjacent(42, 43));
    assert!(!is_adjacent(42, u64::MAX));
    // off the board nothing is adjacent
    assert!(!is_adjacent(64, 0));
}

#[test]
fn attack_rejects_non_adjacent_squares() {
    let mut state = two_active_squares();
    // square 2 is not in row 0 of the table
    assert_eq!(
        Processor::process_attack(&mut state, party(ALICE), true, 5, 0, 2, NOW, &digest(0)),
        Err(GameError::PreconditionFailed)
    );
}

#[test]
fn combat_thresholds_match_the_formula() {
    assert_eq!(roll_threshold(0), 55);
    assert_eq!(roll_threshold(63), 51);
    assert_eq!(roll_threshold(32), 53);
}

#[test]
fn a_roll_at_the_threshold_counts_against_the_attacker() {
    let mut state = two_active_squares();
    // w0 = 54 rolls 55, exactly the threshold for an attack from square 0
    let r = Processor::process_attack(
        &mut state,
        party(ALICE),
        true,
        10,
        0,
        1,
        NOW,
        &digest(54),
    );
    assert_eq!(
        r,
        Ok(AttackOutcome { roll: 55, threshold: 55, attacker_lost: true, captured: false })
    );
    assert_eq!(state.squares[0].health_number, MAX_HEALTH - 10);
    assert_eq!(state.squares[1].health_number, MAX_HEALTH);
}

#[test]
fn a_roll_below_the_threshold_damages_the_defender() {
    let mut state = two_active_squares();
    // w0 = 0 rolls 1, well under 55
    let r = Processor::process_attack(
        &mut state,
        party(ALICE),
        true,
        250,
        0,
        1,
        NOW,
        &digest(0),
    );
    assert_eq!(
        r,
        Ok(AttackOutcome { roll: 1, threshold: 55, attacker_lost: false, captured: false })
    );
    assert_eq!(state.squares[0].health_number, MAX_HEALTH);
    assert_eq!(state.squares[1].health_number, MAX_HEALTH - 250);
}

#[test]
fn health_floor_capture_instead_of_underflow() {
    let mut state = two_active_squares();
    // the stake covers the defender's whole health: capture, no underflow
    let r = Processor::process_attack(
        &mut state,
        party(ALICE),
        true,
        MAX_HEALTH,
        0,
        1,
        NOW,
        &digest(0),
    );
    assert_eq!(
        r,
        Ok(AttackOutcome { roll: 1, threshold: 55, attacker_lost: false, captured: true })
    );
    // the fallen square resets to full health and joins the winner
    assert_eq!(state.squares[1].health_number, MAX_HEALTH);
    assert_eq!(state.squares[1].team_number, state.squares[0].team_number);
    assert_eq!(state.occupancy[1].owner_pubkey, party(ALICE));
    assert_eq!(state.occupancy[1].program_token_account_pubkey, party(CUSTODY0));
    // a follow-up attack between them is now a same-team attack
    assert_eq!(
        Processor::process_attack(&mut state, party(ALICE), true, 5, 0, 1, NOW, &digest(0)),
        Err(GameError::PreconditionFailed)
    );
}

#[test]
fn a_losing_attacker_can_be_captured_by_the_defender() {
    let mut state = two_active_squares();
    // w0 = 54 rolls 55, at the threshold: the attacker loses the exchange,
    // and the stake covers its own health, so its square falls
    let r = Processor::process_attack(
        &mut state,
        party(ALICE),
        true,
        MAX_HEALTH,
        0,
        1,
        NOW,
        &digest(54),
    );
    assert_eq!(
        r,
        Ok(AttackOutcome { roll: 55, threshold: 55, attacker_lost: true, captured: true })
    );
    assert_eq!(state.squares[0].health_number, MAX_HEALTH);
    assert_eq!(state.squares[0].team_number, state.squares[1].team_number);
    assert_eq!(state.occupancy[0].owner_pubkey, party(BOB));
    assert_eq!(state.occupancy[0].program_token_account_pubkey, party(CUSTODY1));
    // the defender's own records are untouched
    assert_eq!(state.squares[1].health_number, MAX_HEALTH);
    assert_eq!(state.occupancy[1].owner_pubkey, party(BOB));
}

#[test]
fn attack_validates_signer_owner_and_occupancy() {
    let mut state = two_active_squares();
    assert_eq!(
        Processor::process_attack(&mut state, party(ALICE), false, 5, 0, 1, NOW, &digest(0)),
        Err(GameError::Unauthorized)
    );
    // bob does not own square 0
    assert_eq!(
        Processor::process_attack(&mut state, party(BOB), true, 5, 0, 1, NOW, &digest(0)),
        Err(GameError::PreconditionFailed)
    );
    // the auction must be over
    assert_eq!(
        Processor::process_attack(&mut state, party(ALICE), true, 5, 0, 1, 100, &digest(0)),
        Err(GameError::PreconditionFailed)
    );
    // an inactive defender cannot be attacked: bob withdraws square 1
    Processor::process_end_play(&mut state, party(BOB), true, 1).unwrap();
    assert_eq!(
        Processor::process_attack(&mut state, party(ALICE), true, 5, 0, 1, NOW, &digest(0)),
        Err(GameError::PreconditionFailed)
    );
}

#[test]
fn initiate_play_checks_signer_deadline_and_token() {
    let mut state = two_active_squares();
    assert_eq!(
        Processor::process_initiate_play(
            &mut state,
            party(ALICE),
            false,
            0,
            party(MINT0),
            party(CUSTODY0),
            NOW,
            true,
        ),
        Err(GameError::Unauthorized)
    );
    assert_eq!(
        Processor::process_initiate_play(
            &mut state,
            party(ALICE),
            true,
            0,
            party(MINT0),
            party(CUSTODY0),
            100,
            true,
        ),
        Err(GameError::PreconditionFailed)
    );
    assert_eq!(
        Processor::process_initiate_play(
            &mut state,
            party(ALICE),
            true,
            64,
            party(MINT0),
            party(CUSTODY0),
            NOW,
            true,
        ),
        Err(GameError::PreconditionFailed)
    );
    // a mismatched mint is rejected while the check is enforced
    assert_eq!(
        Processor::process_initiate_play(
            &mut state,
            party(ALICE),
            true,
            0,
            party(MINT1),
            party(CUSTODY0),
            NOW,
            true,
        ),
        Err(GameError::PreconditionFailed)
    );
    // and tolerated with the compatibility toggle off
    assert_eq!(
        Processor::process_initiate_play(
            &mut state,
            party(ALICE),
            true,
            0,
            party(MINT1),
            party(CUSTODY0),
            NOW,
            false,
        ),
        Ok(())
    );
}

#[test]
fn end_play_returns_the_custody_token_and_blanks_the_record() {
    let mut state = two_active_squares();
    assert_eq!(
        Processor::process_end_play(&mut state, party(BOB), true, 0),
        Err(GameError::PreconditionFailed)
    );
    assert_eq!(
        Processor::process_end_play(&mut state, party(ALICE), false, 0),
        Err(GameError::Unauthorized)
    );
    assert_eq!(
        Processor::process_end_play(&mut state, party(ALICE), true, 0),
        Ok(party(CUSTODY0))
    );
    assert_eq!(state.occupancy[0].owner_pubkey, PartyId { w0: 0, w1: 0, w2: 0, w3: 0 });
    // square 0 blanked: its record still self-matches slot 0, but its owner
    // is gone, so nobody can attack from it
    assert_eq!(
        Processor::process_attack(&mut state, party(ALICE), true, 5, 0, 1, NOW, &digest(0)),
        Err(GameError::PreconditionFailed)
    );
}
