//! The game engine: the auction ledger, the board, the occupancy registry
//! and the combat resolver, over an explicit key-indexed store.
//!
//! Every operation validates fully before it writes: a failed operation
//! returns a typed error and leaves the state exactly as it was. Value and
//! token custody live with the host; an operation's result tells the host
//! which transfers it now owes.

use vstd::prelude::*;
use crate::{Digest32, PartyId, BOARD_SIZE, MAX_BIDS, MAX_HEALTH, TEAM_COUNT};
use crate::error::GameError;
use crate::state::{ActivePlayer, AuctionInfo, BidEntry, GameSquare};
use crate::combat::{
    is_adjacent, lemma_adjacent_in_range, roll_from_digest, roll_threshold, spec_adjacent,
    spec_roll, spec_roll_threshold,
};
use crate::instruction::{spec_unpack, SixtyFourGameInstruction};

verus! {

/// The blank square record, the store's initial value for every slot.
pub open spec fn spec_zero_square() -> GameSquare {
    GameSquare {
        game_square_number: 0,
        team_number: 0,
        health_number: 0,
        mint_pubkey: PartyId::spec_zero(),
    }
}

/// The blank occupancy record, the store's initial value for every slot,
/// and what `EndPlay` writes back.
pub open spec fn spec_zero_active_player() -> ActivePlayer {
    ActivePlayer {
        game_square_number: 0,
        owner_pubkey: PartyId::spec_zero(),
        program_token_account_pubkey: PartyId::spec_zero(),
    }
}

/// The whole game state, as the contracts see it.
#[verifier::ext_equal]
pub struct GameStateV {
    pub auction: AuctionInfo,
    pub bids: Seq<BidEntry>,
    pub squares: Seq<GameSquare>,
    pub occupancy: Seq<ActivePlayer>,
}

impl GameStateV {
    /// Well-formedness: the bid list is dense and within capacity, the board
    /// has one square record and one occupancy record per square, and every
    /// square's team and health are in range.
    pub open spec fn wf(self) -> bool {
        &&& self.bids.len() == self.auction.bid_count as int
        &&& self.auction.bid_count <= MAX_BIDS
        &&& self.auction.squares_minted <= BOARD_SIZE
        &&& self.squares.len() == BOARD_SIZE as int
        &&& self.occupancy.len() == BOARD_SIZE as int
        &&& forall|i: int|
            0 <= i < self.bids.len() ==> (#[trigger] self.bids[i]).bid_number == i
        &&& forall|i: int|
            0 <= i < self.squares.len() ==> (#[trigger] self.squares[i]).team_number < TEAM_COUNT
        &&& forall|i: int|
            0 <= i < self.squares.len() ==> (#[trigger] self.squares[i]).health_number
                <= MAX_HEALTH
    }
}

/// The whole game state: the auction record, the dense bid list, and one
/// square and occupancy record per board square.
pub struct GameState {
    pub auction: AuctionInfo,
    pub bids: Vec<BidEntry>,
    pub squares: Vec<GameSquare>,
    pub occupancy: Vec<ActivePlayer>,
}

impl View for GameState {
    type V = GameStateV;

    open spec fn view(&self) -> GameStateV {
        GameStateV {
            auction: self.auction,
            bids: self.bids@,
            squares: self.squares@,
            occupancy: self.occupancy@,
        }
    }
}

impl GameState {
    /// A fresh store: the auction disabled, no bids, every square and
    /// occupancy record blank.
    pub fn new() -> (s: GameState)
        ensures
            s@.wf(),
            s@.auction == (AuctionInfo {
                bid_count: 0,
                squares_minted: 0,
                auction_end_slot: 0,
                auction_enabled: false,
            }),
            s@.bids == Seq::<BidEntry>::empty(),
            forall|i: int| 0 <= i < BOARD_SIZE ==> s@.squares[i] == spec_zero_square(),
            forall|i: int| 0 <= i < BOARD_SIZE ==> s@.occupancy[i] == spec_zero_active_player(),
    {
        let mut squares: Vec<GameSquare> = Vec::new();
        let mut occupancy: Vec<ActivePlayer> = Vec::new();
        let mut i: u64 = 0;
        while i < BOARD_SIZE
            invariant
                i <= BOARD_SIZE,
                squares@.len() == i as int,
                occupancy@.len() == i as int,
                forall|j: int| 0 <= j < i ==> squares@[j] == spec_zero_square(),
                forall|j: int| 0 <= j < i ==> occupancy@[j] == spec_zero_active_player(),
            decreases BOARD_SIZE - i,
        {
            squares.push(
                GameSquare {
                    game_square_number: 0,
                    team_number: 0,
                    health_number: 0,
                    mint_pubkey: PartyId::zero(),
                },
            );
            occupancy.push(
                ActivePlayer {
                    game_square_number: 0,
                    owner_pubkey: PartyId::zero(),
                    program_token_account_pubkey: PartyId::zero(),
                },
            );
            i = i + 1;
        }
        GameState {
            auction: AuctionInfo {
                bid_count: 0,
                squares_minted: 0,
                auction_end_slot: 0,
                auction_enabled: false,
            },
            bids: Vec::new(),
            squares,
            occupancy,
        }
    }
}

/// Whether a bid is turned away: the auction is not enabled, the deadline
/// has passed, the bid list is full, or minting has begun.
pub open spec fn spec_bid_rejected(a: AuctionInfo, now: u64) -> bool {
    ||| !a.auction_enabled
    ||| a.auction_end_slot < now
    ||| a.bid_count >= MAX_BIDS
    ||| a.squares_minted > 0
}

/// Whether the after-auction operations (mint, play, attack) are gated off:
/// the auction is not enabled or has not ended yet.
pub open spec fn spec_auction_open_gate(a: AuctionInfo, now: u64) -> bool {
    ||| !a.auction_enabled
    ||| a.auction_end_slot >= now
}

/// `InitiateAuction`: fails while an auction is already enabled; otherwise
/// resets the counters, empties the bid list, and arms the deadline.
pub open spec fn spec_initiate_auction(pre: GameStateV, auction_end_slot: u64) -> (GameStateV,
    Result<(), GameError>) {
    if pre.auction.auction_enabled {
        (pre, Err(GameError::PreconditionFailed))
    } else {
        (
            GameStateV {
                auction: AuctionInfo {
                    bid_count: 0,
                    squares_minted: 0,
                    auction_end_slot,
                    auction_enabled: true,
                },
                bids: Seq::<BidEntry>::empty(),
                ..pre
            },
            Ok(()),
        )
    }
}

/// `Bid`: fails while bidding is closed; otherwise appends the bid at the
/// next slot and returns that slot number. The host owes the treasury the
/// bid's value before it persists the records.
pub open spec fn spec_bid(pre: GameStateV, bidder: PartyId, amount: u64, now: u64) -> (GameStateV,
    Result<u64, GameError>) {
    if spec_bid_rejected(pre.auction, now) {
        (pre, Err(GameError::PreconditionFailed))
    } else {
        let n = pre.auction.bid_count;
        (
            GameStateV {
                auction: AuctionInfo { bid_count: (n + 1) as u64, ..pre.auction },
                bids: pre.bids.push(
                    BidEntry { bid_number: n, amount_lamports: amount, bidder_pubkey: bidder },
                ),
                ..pre
            },
            Ok(n),
        )
    }
}

/// One refund the host owes a claimant: the settled bid slot and the value
/// to return.
#[derive(Clone, Copy, Debug, PartialEq, Eq, Structural)]
pub struct RefundItem {
    pub bid_number: u64,
    pub amount_lamports: u64,
}

/// What a successful `MintNFT` asks of the host.
#[derive(Clone, Debug, PartialEq, Eq)]
pub enum MintOutcome {
    /// The board is full: the host owes the claimant each listed refund.
    Refunded { refunds: Vec<RefundItem> },
    /// The claimant won: the host mints one token for the claimant under the
    /// mint it supplied, for the returned square.
    Minted { square: u64 },
}

/// `MintOutcome`, as the contracts see it.
pub enum MintOutcomeV {
    Refunded { refunds: Seq<RefundItem> },
    Minted { square: u64 },
}

impl View for MintOutcome {
    type V = MintOutcomeV;

    open spec fn view(&self) -> MintOutcomeV {
        match self {
            MintOutcome::Refunded { refunds } => MintOutcomeV::Refunded { refunds: refunds@ },
            MintOutcome::Minted { square } => MintOutcomeV::Minted { square: *square },
        }
    }
}

/// The best bid of the list: the greatest `amount_lamports`, and the index
/// of the earliest bid holding it (-1 when the list is empty or all settled).
/// A later equal bid never displaces an earlier one.
pub open spec fn spec_best_bid(bids: Seq<BidEntry>) -> (u64, int)
    decreases bids.len(),
{
    if bids.len() == 0 {
        (0u64, -1)
    } else {
        let prev = spec_best_bid(bids.drop_last());
        let last = bids.last();
        if last.amount_lamports > prev.0 {
            (last.amount_lamports, bids.len() - 1)
        } else {
            prev
        }
    }
}

/// The winner the scan selects is the first bid holding the greatest
/// amount: no bid exceeds it, every earlier bid is strictly below it, and a
/// zero best means every bid is settled or the list is empty.
pub proof fn lemma_best_bid_first_max(bids: Seq<BidEntry>)
    ensures
        ({
            let (amt, idx) = spec_best_bid(bids);
            &&& forall|j: int|
                0 <= j < bids.len() ==> (#[trigger] bids[j]).amount_lamports <= amt
            &&& amt > 0 ==> {
                &&& 0 <= idx < bids.len()
                &&& bids[idx].amount_lamports == amt
                &&& forall|j: int| 0 <= j < idx ==> (#[trigger] bids[j]).amount_lamports < amt
            }
            &&& amt == 0 ==> idx == -1
        }),
    decreases bids.len(),
{
    if bids.len() > 0 {
        let dl = bids.drop_last();
        lemma_best_bid_first_max(dl);
        assert forall|j: int| 0 <= j < bids.len() - 1 implies (#[trigger] bids[j]) == dl[j] by {
            assert(dl[j] == bids[j]);
        }
    }
}

/// A settled copy of a bid: the amount zeroed, the rest kept.
pub open spec fn spec_settle_bid(b: BidEntry) -> BidEntry {
    BidEntry { amount_lamports: 0, ..b }
}

/// The bid list with the claimant's first `n` slots settled.
pub open spec fn spec_zero_claimant_upto(bids: Seq<BidEntry>, claimant: PartyId, n: int) -> Seq<
    BidEntry,
>
    recommends
        0 <= n <= bids.len(),
{
    Seq::new(
        bids.len(),
        |j: int|
            if j < n && bids[j].bidder_pubkey == claimant {
                spec_settle_bid(bids[j])
            } else {
                bids[j]
            },
    )
}

/// The bid list with every slot of the claimant settled.
pub open spec fn spec_refund_bids(bids: Seq<BidEntry>, claimant: PartyId) -> Seq<BidEntry> {
    spec_zero_claimant_upto(bids, claimant, bids.len() as int)
}

/// The refunds owed to a claimant: one per unsettled bid of theirs, in slot
/// order. Settled slots (amount zero) owe nothing, which makes a repeated
/// refund a no-op.
pub open spec fn spec_refund_list(bids: Seq<BidEntry>, claimant: PartyId) -> Seq<RefundItem>
    decreases bids.len(),
{
    if bids.len() == 0 {
        Seq::<RefundItem>::empty()
    } else {
        let init = spec_refund_list(bids.drop_last(), claimant);
        let b = bids.last();
        if b.bidder_pubkey == claimant && b.amount_lamports > 0 {
            init.push(RefundItem { bid_number: b.bid_number, amount_lamports: b.amount_lamports })
        } else {
            init
        }
    }
}

/// `MintNFT`: fails `PreconditionFailed` until the auction has ended. With
/// the board full, settles the claimant's bids and lists the refunds owed.
/// Otherwise the first-max winner -- and only the winner -- mints the next
/// square: team dealt round-robin, health full, token under the host's mint;
/// the winning bid is settled so it cannot mint twice.
pub open spec fn spec_mint_nft(pre: GameStateV, claimant: PartyId, now: u64, new_mint: PartyId) -> (
    GameStateV,
    Result<MintOutcomeV, GameError>,
) {
    if spec_auction_open_gate(pre.auction, now) {
        (pre, Err(GameError::PreconditionFailed))
    } else if pre.auction.squares_minted >= BOARD_SIZE {
        (
            GameStateV { bids: spec_refund_bids(pre.bids, claimant), ..pre },
            Ok(MintOutcomeV::Refunded { refunds: spec_refund_list(pre.bids, claimant) }),
        )
    } else {
        let (amt, idx) = spec_best_bid(pre.bids);
        if amt == 0 || pre.bids[idx].bidder_pubkey != claimant {
            (pre, Err(GameError::NotHighestBidder))
        } else {
            let m = pre.auction.squares_minted;
            (
                GameStateV {
                    auction: AuctionInfo { squares_minted: (m + 1) as u64, ..pre.auction },
                    bids: pre.bids.update(idx, spec_settle_bid(pre.bids[idx])),
                    squares: pre.squares.update(
                        m as int,
                        GameSquare {
                            game_square_number: m,
                            team_number: (m % TEAM_COUNT) as u64,
                            health_number: MAX_HEALTH,
                            mint_pubkey: new_mint,
                        },
                    ),
                    ..pre
                },
                Ok(MintOutcomeV::Minted { square: m }),
            )
        }
    }
}

/// `InitiatePlay`: the signing player deposits a square's ownership token
/// into program custody and becomes the square's active owner. With
/// `enforce_token_match` set, the deposited mint must be the one the square
/// was minted under.
pub open spec fn spec_initiate_play(
    pre: GameStateV,
    player: PartyId,
    player_is_signer: bool,
    square: u64,
    mint_account: PartyId,
    program_token_account: PartyId,
    now: u64,
    enforce_token_match: bool,
) -> (GameStateV, Result<(), GameError>) {
    if !player_is_signer {
        (pre, Err(GameError::Unauthorized))
    } else if spec_auction_open_gate(pre.auction, now) {
        (pre, Err(GameError::PreconditionFailed))
    } else if square >= BOARD_SIZE {
        (pre, Err(GameError::PreconditionFailed))
    } else if enforce_token_match && mint_account != pre.squares[square as int].mint_pubkey {
        (pre, Err(GameError::PreconditionFailed))
    } else {
        (
            GameStateV {
                occupancy: pre.occupancy.update(
                    square as int,
                    ActivePlayer {
                        game_square_number: square,
                        owner_pubkey: player,
                        program_token_account_pubkey: program_token_account,
                    },
                ),
                ..pre
            },
            Ok(()),
        )
    }
}

/// `EndPlay`: the signing owner takes the square's token back out of
/// custody; the occupancy record is blanked, deactivating the square. The
/// result names the custody token account the host must pay the token back
/// from.
pub open spec fn spec_end_play(
    pre: GameStateV,
    player: PartyId,
    player_is_signer: bool,
    square: u64,
) -> (GameStateV, Result<PartyId, GameError>) {
    if !player_is_signer {
        (pre, Err(GameError::Unauthorized))
    } else if square >= BOARD_SIZE {
        (pre, Err(GameError::PreconditionFailed))
    } else if pre.occupancy[square as int].owner_pubkey != player {
        (pre, Err(GameError::PreconditionFailed))
    } else {
        (
            GameStateV {
                occupancy: pre.occupancy.update(square as int, spec_zero_active_player()),
                ..pre
            },
            Ok(pre.occupancy[square as int].program_token_account_pubkey),
        )
    }
}

/// What an accepted `Attack` decided.
#[derive(Clone, Copy, Debug, PartialEq, Eq, Structural)]
pub struct AttackOutcome {
    /// The roll the entropy digest yielded, in 1..=100.
    pub roll: u64,
    /// The threshold the roll was held against.
    pub threshold: u64,
    /// Whether the exchange went against the attacker (`roll >= threshold`).
    pub attacker_lost: bool,
    /// Whether the losing square fell: its health was within the staked
    /// amount, so it was captured rather than damaged.
    pub captured: bool,
}

/// One combat exchange applied to the losing square. When the stake covers
/// its health the square is captured: health resets to `MAX_HEALTH`, the
/// team and the occupancy's owner and custody token become the winner's.
/// Otherwise it just loses `amount` health.
pub open spec fn spec_apply_combat(pre: GameStateV, loser: int, winner: int, amount: u64) -> GameStateV
    recommends
        0 <= loser < pre.squares.len(),
        0 <= winner < pre.squares.len(),
        pre.squares.len() == pre.occupancy.len(),
{
    let ls = pre.squares[loser];
    if ls.health_number <= amount {
        GameStateV {
            squares: pre.squares.update(
                loser,
                GameSquare {
                    team_number: pre.squares[winner].team_number,
                    health_number: MAX_HEALTH,
                    ..ls
                },
            ),
            occupancy: pre.occupancy.update(
                loser,
                ActivePlayer {
                    owner_pubkey: pre.occupancy[winner].owner_pubkey,
                    program_token_account_pubkey: pre.occupancy[
                        winner
                    ].program_token_account_pubkey,
                    ..pre.occupancy[loser]
                },
            ),
            ..pre
        }
    } else {
        GameStateV {
            squares: pre.squares.update(
                loser,
                GameSquare { health_number: (ls.health_number - amount) as u64, ..ls },
            ),
            ..pre
        }
    }
}

/// `Attack`: after the signer, deadline, adjacency, team, owner and
/// occupancy checks, the digest's roll against the threshold picks the
/// losing side, and the exchange is applied to it.
pub open spec fn spec_attack(
    pre: GameStateV,
    attacker: PartyId,
    attacker_is_signer: bool,
    amount: u64,
    from_square: u64,
    to_square: u64,
    now: u64,
    digest: Digest32,
) -> (GameStateV, Result<AttackOutcome, GameError>) {
    if !attacker_is_signer {
        (pre, Err(GameError::Unauthorized))
    } else if spec_auction_open_gate(pre.auction, now) {
        (pre, Err(GameError::PreconditionFailed))
    } else if !spec_adjacent(from_square, to_square) {
        (pre, Err(GameError::PreconditionFailed))
    } else if pre.squares[from_square as int].team_number == pre.squares[
        to_square as int
    ].team_number {
        (pre, Err(GameError::PreconditionFailed))
    } else if pre.occupancy[from_square as int].owner_pubkey != attacker {
        (pre, Err(GameError::PreconditionFailed))
    } else if pre.occupancy[from_square as int].game_square_number != from_square {
        (pre, Err(GameError::PreconditionFailed))
    } else if pre.occupancy[to_square as int].game_square_number != to_square {
        (pre, Err(GameError::PreconditionFailed))
    } else {
        let threshold = spec_roll_threshold(from_square);
        let roll = spec_roll(digest);
        let attacker_lost = roll >= threshold;
        let loser = if attacker_lost {
            from_square as int
        } else {
            to_square as int
        };
        let winner = if attacker_lost {
            to_square as int
        } else {
            from_square as int
        };
        let captured = pre.squares[loser].health_number <= amount;
        (
            spec_apply_combat(pre, loser, winner, amount),
            Ok(AttackOutcome { roll, threshold, attacker_lost, captured }),
        )
    }
}

/// Failure atomicity: a command that is refused -- malformed, unauthorized,
/// a failed precondition, or a losing mint claim -- changes nothing at all.
/// Validation completes before any write begins.
pub proof fn lemma_failure_atomicity(pre: GameStateV, ctx: CallContext, data: Seq<u8>)
    ensures
        spec_process(pre, ctx, data).1 is Err ==> spec_process(pre, ctx, data).0 == pre,
{
}

/// Auction capacity: once the bid list holds `MAX_BIDS` bids, every further
/// bid fails `PreconditionFailed` and changes nothing, whatever its amount
/// and whatever the tick.
pub proof fn lemma_bid_capacity(pre: GameStateV, bidder: PartyId, amount: u64, now: u64)
    requires
        pre.auction.bid_count >= MAX_BIDS,
    ensures
        spec_bid(pre, bidder, amount, now) == (
            pre,
            Err::<u64, GameError>(GameError::PreconditionFailed),
        ),
{
}

/// Board capacity: with every square minted and the auction over, settling
/// never mints again: for any claimant it settles the claimant's bids and
/// owes back exactly their unsettled amounts, touching nothing else.
pub proof fn lemma_board_capacity(pre: GameStateV, claimant: PartyId, now: u64, new_mint: PartyId)
    requires
        pre.auction.squares_minted >= BOARD_SIZE,
        !spec_auction_open_gate(pre.auction, now),
    ensures
        ({
            let (post, res) = spec_mint_nft(pre, claimant, now, new_mint);
            &&& post.bids == spec_refund_bids(pre.bids, claimant)
            &&& post.auction == pre.auction
            &&& post.squares == pre.squares
            &&& post.occupancy == pre.occupancy
            &&& res == Ok::<MintOutcomeV, GameError>(
                MintOutcomeV::Refunded { refunds: spec_refund_list(pre.bids, claimant) },
            )
        }),
{
}

/// A bid list in which every bid of `claimant` is settled owes no refund.
pub proof fn lemma_refund_list_empty(bids: Seq<BidEntry>, claimant: PartyId)
    requires
        forall|i: int|
            0 <= i < bids.len() && (#[trigger] bids[i]).bidder_pubkey == claimant ==> bids[
                i
            ].amount_lamports == 0,
    ensures
        spec_refund_list(bids, claimant) == Seq::<RefundItem>::empty(),
    decreases bids.len(),
{
    if bids.len() > 0 {
        let dl = bids.drop_last();
        assert forall|j: int| 0 <= j < dl.len() implies (#[trigger] dl[j]) == bids[j] by {
            assert(dl[j] == bids[j]);
        }
        lemma_refund_list_empty(dl, claimant);
    }
}

/// The refund scan is idempotent: settling a claimant's bids twice settles
/// them once, and the second scan owes nothing.
pub proof fn lemma_refund_idempotent(bids: Seq<BidEntry>, claimant: PartyId)
    ensures
        spec_refund_bids(spec_refund_bids(bids, claimant), claimant) == spec_refund_bids(
            bids,
            claimant,
        ),
        spec_refund_list(spec_refund_bids(bids, claimant), claimant) == Seq::<RefundItem>::empty(),
{
    let once = spec_refund_bids(bids, claimant);
    assert(spec_refund_bids(once, claimant) =~= once);
    lemma_refund_list_empty(once, claimant);
}

/// The roll rule: an accepted attack's threshold comes from the attacking
/// square alone, its roll from the digest alone, and the attacker loses
/// exactly when the roll is at or above the threshold.
pub proof fn lemma_attack_roll_rule(
    pre: GameStateV,
    attacker: PartyId,
    attacker_is_signer: bool,
    amount: u64,
    from_square: u64,
    to_square: u64,
    now: u64,
    digest: Digest32,
)
    ensures
        ({
            let res = spec_attack(
                pre,
                attacker,
                attacker_is_signer,
                amount,
                from_square,
                to_square,
                now,
                digest,
            ).1;
            match res {
                Ok(o) => {
                    &&& o.threshold == spec_roll_threshold(from_square)
                    &&& o.roll == spec_roll(digest)
                    &&& o.attacker_lost == (o.roll >= o.threshold)
                },
                Err(_) => true,
            }
        }),
{
}

/// The health floor: combat never drives a square's health below zero. When
/// the stake covers the losing square's health, the square is captured --
/// health resets to `MAX_HEALTH`, its team and its occupancy's owner and
/// custody token become the winner's -- and otherwise it just loses the
/// stake, staying above zero; every other record is untouched, and every
/// square's health stays within `MAX_HEALTH`.
pub proof fn lemma_health_floor(
    pre: GameStateV,
    attacker: PartyId,
    attacker_is_signer: bool,
    amount: u64,
    from_square: u64,
    to_square: u64,
    now: u64,
    digest: Digest32,
)
    requires
        pre.wf(),
    ensures
        ({
            let (post, res) = spec_attack(
                pre,
                attacker,
                attacker_is_signer,
                amount,
                from_square,
                to_square,
                now,
                digest,
            );
            &&& forall|i: int|
                0 <= i < post.squares.len() ==> (#[trigger] post.squares[i]).health_number
                    <= MAX_HEALTH
            &&& match res {
                Ok(o) => {
                    let loser = if o.attacker_lost {
                        from_square as int
                    } else {
                        to_square as int
                    };
                    let winner = if o.attacker_lost {
                        to_square as int
                    } else {
                        from_square as int
                    };
                    &&& o.captured == (pre.squares[loser].health_number <= amount)
                    &&& o.captured ==> {
                        &&& post.squares[loser].health_number == MAX_HEALTH
                        &&& post.squares[loser].team_number == pre.squares[winner].team_number
                        &&& post.occupancy[loser].owner_pubkey == pre.occupancy[
                            winner
                        ].owner_pubkey
                        &&& post.occupancy[loser].program_token_account_pubkey == pre.occupancy[
                            winner
                        ].program_token_account_pubkey
                    }
                    &&& !o.captured ==> {
                        &&& post.squares[loser].health_number == pre.squares[
                            loser
                        ].health_number - amount
                        &&& post.squares[loser].health_number > 0
                        &&& post.occupancy == pre.occupancy
                    }
                    &&& forall|i: int|
                        0 <= i < post.squares.len() && i != loser ==> (#[trigger] post.squares[
                            i
                        ]) == pre.squares[i]
                },
                Err(_) => post == pre,
            }
        }),
{
    let (post, res) = spec_attack(
        pre,
        attacker,
        attacker_is_signer,
        amount,
        from_square,
        to_square,
        now,
        digest,
    );
    if res is Ok {
        lemma_adjacent_in_range(from_square, to_square);
    }
}

/// Everything the host supplies for one invocation: the signing caller, the
/// clock, the accounts it prepared, the entropy digest, and whether the
/// deposited mint must match the square's record.
#[derive(Clone, Copy, Debug, PartialEq, Eq, Structural)]
pub struct CallContext {
    /// The invoking party.
    pub caller: PartyId,
    /// Whether the host verified the caller's signature.
    pub caller_is_signer: bool,
    /// The host clock's current tick.
    pub current_slot: u64,
    /// For `MintNFT`: the mint the host created for the new token.
    pub new_mint: PartyId,
    /// For `InitiatePlay`: the program-held custody token account.
    pub program_token_account: PartyId,
    /// For `Attack`: the digest the entropy oracle gave for three ticks ago.
    pub entropy_digest: Digest32,
    /// For `InitiatePlay`: whether the deposited mint must be the square's.
    pub enforce_token_match: bool,
}

/// What one processed command asks of the host or reports back.
#[derive(Clone, Debug, PartialEq, Eq)]
pub enum ProcessOutcome {
    AuctionInitiated,
    BidPlaced { bid_number: u64 },
    BidCancelled,
    Mint { outcome: MintOutcome },
    PlayInitiated,
    PlayEnded { custody_token_account: PartyId },
    Attacked { outcome: AttackOutcome },
}

/// `ProcessOutcome`, as the contracts see it.
pub enum ProcessOutcomeV {
    AuctionInitiated,
    BidPlaced { bid_number: u64 },
    BidCancelled,
    Mint { outcome: MintOutcomeV },
    PlayInitiated,
    PlayEnded { custody_token_account: PartyId },
    Attacked { outcome: AttackOutcome },
}

impl View for ProcessOutcome {
    type V = ProcessOutcomeV;

    open spec fn view(&self) -> ProcessOutcomeV {
        match self {
            ProcessOutcome::AuctionInitiated => ProcessOutcomeV::AuctionInitiated,
            ProcessOutcome::BidPlaced { bid_number } => ProcessOutcomeV::BidPlaced {
                bid_number: *bid_number,
            },
            ProcessOutcome::BidCancelled => ProcessOutcomeV::BidCancelled,
            ProcessOutcome::Mint { outcome } => ProcessOutcomeV::Mint { outcome: outcome@ },
            ProcessOutcome::PlayInitiated => ProcessOutcomeV::PlayInitiated,
            ProcessOutcome::PlayEnded { custody_token_account } => ProcessOutcomeV::PlayEnded {
                custody_token_account: *custody_token_account,
            },
            ProcessOutcome::Attacked { outcome } => ProcessOutcomeV::Attacked {
                outcome: *outcome,
            },
        }
    }
}

/// `process`: decodes the command buffer and routes it. A command that does
/// not decode is `InvalidCommand` and changes nothing; a decoded command
/// behaves exactly as its operation's own transition.
pub open spec fn spec_process(pre: GameStateV, ctx: CallContext, data: Seq<u8>) -> (GameStateV,
    Result<ProcessOutcomeV, GameError>) {
    match spec_unpack(data) {
        None => (pre, Err(GameError::InvalidCommand)),
        Some(instruction) => match instruction {
            SixtyFourGameInstruction::InititateAuction { auction_end_slot } => {
                let (post, res) = spec_initiate_auction(pre, auction_end_slot);
                (
                    post,
                    match res {
                        Ok(_) => Ok(ProcessOutcomeV::AuctionInitiated),
                        Err(e) => Err(e),
                    },
                )
            },
            SixtyFourGameInstruction::Bid { amount } => {
                let (post, res) = spec_bid(pre, ctx.caller, amount, ctx.current_slot);
                (
                    post,
                    match res {
                        Ok(n) => Ok(ProcessOutcomeV::BidPlaced { bid_number: n }),
                        Err(e) => Err(e),
                    },
                )
            },
            SixtyFourGameInstruction::CancelBid => (pre, Ok(ProcessOutcomeV::BidCancelled)),
            SixtyFourGameInstruction::MintNFT => {
                let (post, res) = spec_mint_nft(pre, ctx.caller, ctx.current_slot, ctx.new_mint);
                (
                    post,
                    match res {
                        Ok(o) => Ok(ProcessOutcomeV::Mint { outcome: o }),
                        Err(e) => Err(e),
                    },
                )
            },
            SixtyFourGameInstruction::InitiatePlay { square } => {
                let (post, res) = spec_initiate_play(
                    pre,
                    ctx.caller,
                    ctx.caller_is_signer,
                    square,
                    ctx.new_mint,
                    ctx.program_token_account,
                    ctx.current_slot,
                    ctx.enforce_token_match,
                );
                (
                    post,
                    match res {
                        Ok(_) => Ok(ProcessOutcomeV::PlayInitiated),
                        Err(e) => Err(e),
                    },
                )
            },
            SixtyFourGameInstruction::EndPlay { square } => {
                let (post, res) = spec_end_play(pre, ctx.caller, ctx.caller_is_signer, square);
                (
                    post,
                    match res {
                        Ok(t) => Ok(ProcessOutcomeV::PlayEnded { custody_token_account: t }),
                        Err(e) => Err(e),
                    },
                )
            },
            SixtyFourGameInstruction::Attack { amount, from_square, to_square } => {
                let (post, res) = spec_attack(
                    pre,
                    ctx.caller,
                    ctx.caller_is_signer,
                    amount,
                    from_square,
                    to_square,
                    ctx.current_slot,
                    ctx.entropy_digest,
                );
                (
                    post,
                    match res {
                        Ok(o) => Ok(ProcessOutcomeV::Attacked { outcome: o }),
                        Err(e) => Err(e),
                    },
                )
            },
        },
    }
}

/// Whether an executed result reports exactly what the transition's result
/// says.
pub open spec fn spec_outcome_matches(
    r: Result<ProcessOutcome, GameError>,
    res: Result<ProcessOutcomeV, GameError>,
) -> bool {
    match (r, res) {
        (Ok(o), Ok(v)) => o@ == v,
        (Err(e), Err(f)) => e == f,
        _ => false,
    }
}

/// The engine's entry points, one per command.
pub struct Processor;

impl Processor {
    /// Decodes one command buffer and routes it to its operation, under the
    /// context the host captured for this invocation.
    pub fn process(state: &mut GameState, ctx: &CallContext, instruction_data: &[u8]) -> (r: Result<
        ProcessOutcome,
        GameError,
    >)
        requires
            old(state)@.wf(),
        ensures
            final(state)@.wf(),
            final(state)@ == spec_process(old(state)@, *ctx, instruction_data@).0,
            spec_outcome_matches(r, spec_process(old(state)@, *ctx, instruction_data@).1),
    {
        let instruction = match SixtyFourGameInstruction::unpack(instruction_data) {
            Ok(instruction) => instruction,
            Err(_) => {
                return Err(GameError::InvalidCommand);
            },
        };
        match instruction {
            SixtyFourGameInstruction::InititateAuction { auction_end_slot } => {
                match Self::process_initiate_auction(state, auction_end_slot) {
                    Ok(_) => Ok(ProcessOutcome::AuctionInitiated),
                    Err(e) => Err(e),
                }
            },
            SixtyFourGameInstruction::Bid { amount } => {
                match Self::process_bid(state, ctx.caller, amount, ctx.current_slot) {
                    Ok(n) => Ok(ProcessOutcome::BidPlaced { bid_number: n }),
                    Err(e) => Err(e),
                }
            },
            SixtyFourGameInstruction::CancelBid => {
                match Self::process_cancel_bid(state) {
                    Ok(_) => Ok(ProcessOutcome::BidCancelled),
                    Err(e) => Err(e),
                }
            },
            SixtyFourGameInstruction::MintNFT => {
                match Self::process_mint_nft(state, ctx.caller, ctx.current_slot, ctx.new_mint) {
                    Ok(outcome) => Ok(ProcessOutcome::Mint { outcome }),
                    Err(e) => Err(e),
                }
            },
            SixtyFourGameInstruction::InitiatePlay { square } => {
                match Self::process_initiate_play(
                    state,
                    ctx.caller,
                    ctx.caller_is_signer,
                    square,
                    ctx.new_mint,
                    ctx.program_token_account,
                    ctx.current_slot,
                    ctx.enforce_token_match,
                ) {
                    Ok(_) => Ok(ProcessOutcome::PlayInitiated),
                    Err(e) => Err(e),
                }
            },
            SixtyFourGameInstruction::EndPlay { square } => {
                match Self::process_end_play(state, ctx.caller, ctx.caller_is_signer, square) {
                    Ok(custody_token_account) => Ok(
                        ProcessOutcome::PlayEnded { custody_token_account },
                    ),
                    Err(e) => Err(e),
                }
            },
            SixtyFourGameInstruction::Attack { amount, from_square, to_square } => {
                match Self::process_attack(
                    state,
                    ctx.caller,
                    ctx.caller_is_signer,
                    amount,
                    from_square,
                    to_square,
                    ctx.current_slot,
                    &ctx.entropy_digest,
                ) {
                    Ok(outcome) => Ok(ProcessOutcome::Attacked { outcome }),
                    Err(e) => Err(e),
                }
            },
        }
    }

    /// Starts the auction: resets both counters, sets the end slot, enables
    /// bidding. Fails `PreconditionFailed` if an auction is already enabled.
    pub fn process_initiate_auction(state: &mut GameState, auction_end_slot: u64) -> (r: Result<
        (),
        GameError,
    >)
        requires
            old(state)@.wf(),
        ensures
            final(state)@.wf(),
            final(state)@ == spec_initiate_auction(old(state)@, auction_end_slot).0,
            r == spec_initiate_auction(old(state)@, auction_end_slot).1,
    {
        if state.auction.auction_enabled {
            return Err(GameError::PreconditionFailed);
        }
        state.auction.bid_count = 0;
        state.auction.squares_minted = 0;
        state.auction.auction_end_slot = auction_end_slot;
        state.auction.auction_enabled = true;
        state.bids.clear();
        proof {
            assert(state@ =~= spec_initiate_auction(old(state)@, auction_end_slot).0);
        }
        Ok(())
    }

    /// Places a bid for `bidder`. On success the host owes a transfer of
    /// `amount` from the bidder to the treasury, made before the records are
    /// persisted. Fails `PreconditionFailed` while bidding is closed.
    pub fn process_bid(state: &mut GameState, bidder: PartyId, amount: u64, current_slot: u64) -> (r:
        Result<u64, GameError>)
        requires
            old(state)@.wf(),
        ensures
            final(state)@.wf(),
            final(state)@ == spec_bid(old(state)@, bidder, amount, current_slot).0,
            r == spec_bid(old(state)@, bidder, amount, current_slot).1,
    {
        if !state.auction.auction_enabled || state.auction.auction_end_slot < current_slot
            || state.auction.bid_count >= MAX_BIDS || state.auction.squares_minted > 0 {
            return Err(GameError::PreconditionFailed);
        }
        let n = state.auction.bid_count;
        state.bids.push(BidEntry { bid_number: n, amount_lamports: amount, bidder_pubkey: bidder });
        state.auction.bid_count = n + 1;
        proof {
            assert(state@ =~= spec_bid(old(state)@, bidder, amount, current_slot).0);
        }
        Ok(n)
    }

    /// Settles the auction for `claimant`: a refund scan once the board is
    /// full, else a mint of the next square if -- and only if -- `claimant`
    /// holds the first-placed highest unsettled bid. `new_mint` is the mint
    /// the host created for the token; on `Minted` the host owes the token,
    /// on `Refunded` it owes each listed transfer.
    pub fn process_mint_nft(
        state: &mut GameState,
        claimant: PartyId,
        current_slot: u64,
        new_mint: PartyId,
    ) -> (r: Result<MintOutcome, GameError>)
        requires
            old(state)@.wf(),
        ensures
            final(state)@.wf(),
            final(state)@ == spec_mint_nft(old(state)@, claimant, current_slot, new_mint).0,
            ({
                let res = spec_mint_nft(old(state)@, claimant, current_slot, new_mint).1;
                match (r, res) {
                    (Ok(o), Ok(ov)) => o@ == ov,
                    (Err(e), Err(f)) => e == f,
                    _ => false,
                }
            }),
    {
        if !state.auction.auction_enabled || state.auction.auction_end_slot >= current_slot {
            return Err(GameError::PreconditionFailed);
        }
        let ghost pre = state@;
        let count = state.auction.bid_count;
        if state.auction.squares_minted >= BOARD_SIZE {
            let mut refunds: Vec<RefundItem> = Vec::new();
            let mut i: u64 = 0;
            while i < count
                invariant
                    i <= count,
                    count <= MAX_BIDS,
                    count as int == pre.bids.len(),
                    state@.auction == pre.auction,
                    state@.squares == pre.squares,
                    state@.occupancy == pre.occupancy,
                    state@.bids == spec_zero_claimant_upto(pre.bids, claimant, i as int),
                    refunds@ == spec_refund_list(pre.bids.take(i as int), claimant),
                decreases count - i,
            {
                let b = state.bids[i as usize];
                proof {
                    assert(b == pre.bids[i as int]);
                }
                if b.bidder_pubkey == claimant {
                    if b.amount_lamports > 0 {
                        refunds.push(
                            RefundItem {
                                bid_number: b.bid_number,
                                amount_lamports: b.amount_lamports,
                            },
                        );
                    }
                    let settled = BidEntry {
                        bid_number: b.bid_number,
                        amount_lamports: 0,
                        bidder_pubkey: b.bidder_pubkey,
                    };
                    state.bids[i as usize] = settled;
                }
                proof {
                    assert(state@.bids =~= spec_zero_claimant_upto(
                        pre.bids,
                        claimant,
                        i as int + 1,
                    ));
                    assert(pre.bids.take(i as int + 1).drop_last() =~= pre.bids.take(i as int));
                    assert(pre.bids.take(i as int + 1).last() == pre.bids[i as int]);
                    assert(refunds@ =~= spec_refund_list(pre.bids.take(i as int + 1), claimant));
                }
                i = i + 1;
            }
            proof {
                assert(pre.bids.take(count as int) =~= pre.bids);
                assert(state@ =~= spec_mint_nft(old(state)@, claimant, current_slot, new_mint).0);
            }
            Ok(MintOutcome::Refunded { refunds })
        } else {
            let mut highest_amount: u64 = 0;
            let mut highest_idx: u64 = 0;
            let mut i: u64 = 0;
            while i < count
                invariant
                    i <= count,
                    count <= MAX_BIDS,
                    count as int == pre.bids.len(),
                    state@ == pre,
                    highest_amount == spec_best_bid(pre.bids.take(i as int)).0,
                    highest_amount > 0 ==> highest_idx as int == spec_best_bid(
                        pre.bids.take(i as int),
                    ).1,
                decreases count - i,
            {
                let b = state.bids[i as usize];
                proof {
                    assert(pre.bids.take(i as int + 1).drop_last() =~= pre.bids.take(i as int));
                    assert(pre.bids.take(i as int + 1).last() == pre.bids[i as int]);
                }
                if highest_amount < b.amount_lamports {
                    highest_amount = b.amount_lamports;
                    highest_idx = i;
                }
                i = i + 1;
            }
            proof {
                assert(pre.bids.take(count as int) =~= pre.bids);
                lemma_best_bid_first_max(pre.bids);
            }
            if highest_amount == 0 {
                return Err(GameError::NotHighestBidder);
            }
            let wb = state.bids[highest_idx as usize];
            if !(wb.bidder_pubkey == claimant) {
                return Err(GameError::NotHighestBidder);
            }
            let m = state.auction.squares_minted;
            let settled = BidEntry {
                bid_number: wb.bid_number,
                amount_lamports: 0,
                bidder_pubkey: wb.bidder_pubkey,
            };
            state.bids[highest_idx as usize] = settled;
            state.squares[m as usize] = GameSquare {
                game_square_number: m,
                team_number: m % TEAM_COUNT,
                health_number: MAX_HEALTH,
                mint_pubkey: new_mint,
            };
            state.auction.squares_minted = m + 1;
            proof {
                assert(state@ =~= spec_mint_nft(old(state)@, claimant, current_slot, new_mint).0);
            }
            Ok(MintOutcome::Minted { square: m })
        }
    }

    /// `CancelBid` is reserved: it validates nothing, changes nothing, and
    /// reports success.
    pub fn process_cancel_bid(state: &mut GameState) -> (r: Result<(), GameError>)
        requires
            old(state)@.wf(),
        ensures
            final(state)@.wf(),
            final(state)@ == old(state)@,
            r == Ok::<(), GameError>(()),
    {
        Ok(())
    }

    /// Deposits a square's token for the signing player, activating the
    /// square. On success the host owes the custody transfer of the token
    /// into `program_token_account`.
    pub fn process_initiate_play(
        state: &mut GameState,
        player: PartyId,
        player_is_signer: bool,
        square: u64,
        mint_account: PartyId,
        program_token_account: PartyId,
        current_slot: u64,
        enforce_token_match: bool,
    ) -> (r: Result<(), GameError>)
        requires
            old(state)@.wf(),
        ensures
            final(state)@.wf(),
            final(state)@ == spec_initiate_play(
                old(state)@,
                player,
                player_is_signer,
                square,
                mint_account,
                program_token_account,
                current_slot,
                enforce_token_match,
            ).0,
            r == spec_initiate_play(
                old(state)@,
                player,
                player_is_signer,
                square,
                mint_account,
                program_token_account,
                current_slot,
                enforce_token_match,
            ).1,
    {
        if !player_is_signer {
            return Err(GameError::Unauthorized);
        }
        if !state.auction.auction_enabled || state.auction.auction_end_slot >= current_slot {
            return Err(GameError::PreconditionFailed);
        }
        if square >= BOARD_SIZE {
            return Err(GameError::PreconditionFailed);
        }
        if enforce_token_match && !(mint_account == state.squares[square as usize].mint_pubkey) {
            return Err(GameError::PreconditionFailed);
        }
        state.occupancy[square as usize] = ActivePlayer {
            game_square_number: square,
            owner_pubkey: player,
            program_token_account_pubkey: program_token_account,
        };
        proof {
            assert(state@ =~= spec_initiate_play(
                old(state)@,
                player,
                player_is_signer,
                square,
                mint_account,
                program_token_account,
                current_slot,
                enforce_token_match,
            ).0);
        }
        Ok(())
    }

    /// Withdraws a square's token for its signing owner, blanking the
    /// occupancy record. The result names the custody token account the host
    /// must return the token from.
    pub fn process_end_play(
        state: &mut GameState,
        player: PartyId,
        player_is_signer: bool,
        square: u64,
    ) -> (r: Result<PartyId, GameError>)
        requires
            old(state)@.wf(),
        ensures
            final(state)@.wf(),
            final(state)@ == spec_end_play(old(state)@, player, player_is_signer, square).0,
            r == spec_end_play(old(state)@, player, player_is_signer, square).1,
    {
        if !player_is_signer {
            return Err(GameError::Unauthorized);
        }
        if square >= BOARD_SIZE {
            return Err(GameError::PreconditionFailed);
        }
        let record = state.occupancy[square as usize];
        if !(record.owner_pubkey == player) {
            return Err(GameError::PreconditionFailed);
        }
        state.occupancy[square as usize] = ActivePlayer {
            game_square_number: 0,
            owner_pubkey: PartyId::zero(),
            program_token_account_pubkey: PartyId::zero(),
        };
        proof {
            assert(state@ =~= spec_end_play(old(state)@, player, player_is_signer, square).0);
        }
        Ok(record.program_token_account_pubkey)
    }

    /// Resolves an attack between two adjacent, active, opposing squares:
    /// the digest's roll against the attacker's threshold picks the losing
    /// side, which is damaged by the stake or captured.
    pub fn process_attack(
        state: &mut GameState,
        attacker: PartyId,
        attacker_is_signer: bool,
        amount: u64,
        from_square: u64,
        to_square: u64,
        current_slot: u64,
        digest: &Digest32,
    ) -> (r: Result<AttackOutcome, GameError>)
        requires
            old(state)@.wf(),
        ensures
            final(state)@.wf(),
            final(state)@ == spec_attack(
                old(state)@,
                attacker,
                attacker_is_signer,
                amount,
                from_square,
                to_square,
                current_slot,
                *digest,
            ).0,
            r == spec_attack(
                old(state)@,
                attacker,
                attacker_is_signer,
                amount,
                from_square,
                to_square,
                current_slot,
                *digest,
            ).1,
    {
        if !attacker_is_signer {
            return Err(GameError::Unauthorized);
        }
        if !state.auction.auction_enabled || state.auction.auction_end_slot >= current_slot {
            return Err(GameError::PreconditionFailed);
        }
        if !is_adjacent(from_square, to_square) {
            return Err(GameError::PreconditionFailed);
        }
        proof {
            lemma_adjacent_in_range(from_square, to_square);
        }
        let attacker_square = state.squares[from_square as usize];
        let defender_square = state.squares[to_square as usize];
        if attacker_square.team_number == defender_square.team_number {
            return Err(GameError::PreconditionFailed);
        }
        let attacker_record = state.occupancy[from_square as usize];
        let defender_record = state.occupancy[to_square as usize];
        if !(attacker_record.owner_pubkey == attacker) {
            return Err(GameError::PreconditionFailed);
        }
        if attacker_record.game_square_number != from_square {
            return Err(GameError::PreconditionFailed);
        }
        if defender_record.game_square_number != to_square {
            return Err(GameError::PreconditionFailed);
        }
        let threshold = roll_threshold(from_square);
        let roll = roll_from_digest(digest);
        let attacker_lost = roll >= threshold;
        let (loser, winner) = if attacker_lost {
            (from_square, to_square)
        } else {
            (to_square, from_square)
        };
        let loser_square = state.squares[loser as usize];
        let winner_square = state.squares[winner as usize];
        let captured = loser_square.health_number <= amount;
        if captured {
            state.squares[loser as usize] = GameSquare {
                team_number: winner_square.team_number,
                health_number: MAX_HEALTH,
                ..loser_square
            };
            let loser_record = state.occupancy[loser as usize];
            let winner_record = state.occupancy[winner as usize];
            state.occupancy[loser as usize] = ActivePlayer {
                owner_pubkey: winner_record.owner_pubkey,
                program_token_account_pubkey: winner_record.program_token_account_pubkey,
                ..loser_record
            };
        } else {
            state.squares[loser as usize] = GameSquare {
                health_number: loser_square.health_number - amount,
                ..loser_square
            };
        }
        proof {
            assert(state@ =~= spec_attack(
                old(state)@,
                attacker,
                attacker_is_signer,
                amount,
                from_square,
                to_square,
                current_slot,
                *digest,
            ).0);
        }
        Ok(AttackOutcome { roll, threshold, attacker_lost, captured })
    }
}

} // verus!
