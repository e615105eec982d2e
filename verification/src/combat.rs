//! The combat resolver's fixed parts: the 64-row adjacency table, the roll
//! threshold, and the roll derived from an entropy digest.

use vstd::prelude::*;
use crate::{Digest32, ADVANTAGE_PERCENT, BOARD_SIZE};

verus! {

/// Row `from` of the literal adjacency table: up to four neighbors, written
/// 1-based; a 0 entry means "no neighbor" and never names a square. The
/// table is the game's balance and is not symmetric.
pub open spec fn spec_attack_row(from: int) -> (u64, u64, u64, u64) {
    if from == 0 {
        (2u64, 4u64, 6u64, 8u64)
    } else if from == 1 {
        (1u64, 3u64, 9u64, 11u64)
    } else if from == 2 {
        (2u64, 4u64, 12u64, 14u64)
    } else if from == 3 {
        (1u64, 3u64, 5u64, 15u64)
    } else if from == 4 {
        (4u64, 6u64, 16u64, 18u64)
    } else if from == 5 {
        (1u64, 5u64, 7u64, 19u64)
    } else if from == 6 {
        (6u64, 8u64, 20u64, 22u64)
    } else if from == 7 {
        (1u64, 7u64, 9u64, 23u64)
    } else if from == 8 {
        (2u64, 8u64, 10u64, 24u64)
    } else if from == 9 {
        (9u64, 11u64, 25u64, 27u64)
    } else if from == 10 {
        (2u64, 10u64, 12u64, 28u64)
    } else if from == 11 {
        (3u64, 11u64, 13u64, 29u64)
    } else if from == 12 {
        (12u64, 14u64, 30u64, 32u64)
    } else if from == 13 {
        (3u64, 13u64, 15u64, 33u64)
    } else if from == 14 {
        (4u64, 14u64, 16u64, 34u64)
    } else if from == 15 {
        (5u64, 15u64, 17u64, 35u64)
    } else if from == 16 {
        (16u64, 18u64, 36u64, 38u64)
    } else if from == 17 {
        (5u64, 17u64, 19u64, 39u64)
    } else if from == 18 {
        (6u64, 18u64, 20u64, 40u64)
    } else if from == 19 {
        (7u64, 19u64, 21u64, 41u64)
    } else if from == 20 {
        (20u64, 22u64, 42u64, 44u64)
    } else if from == 21 {
        (7u64, 21u64, 23u64, 45u64)
    } else if from == 22 {
        (8u64, 22u64, 24u64, 46u64)
    } else if from == 23 {
        (9u64, 23u64, 25u64, 47u64)
    } else if from == 24 {
        (10u64, 24u64, 26u64, 48u64)
    } else if from == 25 {
        (25u64, 27u64, 49u64, 51u64)
    } else if from == 26 {
        (10u64, 26u64, 28u64, 52u64)
    } else if from == 27 {
        (11u64, 27u64, 29u64, 53u64)
    } else if from == 28 {
        (12u64, 28u64, 30u64, 54u64)
    } else if from == 29 {
        (13u64, 29u64, 31u64, 55u64)
    } else if from == 30 {
        (32u64, 30u64, 56u64, 58u64)
    } else if from == 31 {
        (13u64, 31u64, 33u64, 59u64)
    } else if from == 32 {
        (14u64, 32u64, 34u64, 60u64)
    } else if from == 33 {
        (15u64, 33u64, 35u64, 61u64)
    } else if from == 34 {
        (16u64, 34u64, 36u64, 62u64)
    } else if from == 35 {
        (17u64, 35u64, 37u64, 63u64)
    } else if from == 36 {
        (36u64, 38u64, 64u64, 0u64)
    } else if from == 37 {
        (17u64, 37u64, 39u64, 0u64)
    } else if from == 38 {
        (18u64, 38u64, 40u64, 0u64)
    } else if from == 39 {
        (19u64, 39u64, 41u64, 0u64)
    } else if from == 40 {
        (20u64, 40u64, 42u64, 0u64)
    } else if from == 41 {
        (21u64, 41u64, 43u64, 0u64)
    } else if from == 42 {
        (42u64, 44u64, 0u64, 0u64)
    } else if from == 43 {
        (21u64, 43u64, 45u64, 0u64)
    } else if from == 44 {
        (22u64, 44u64, 46u64, 0u64)
    } else if from == 45 {
        (23u64, 45u64, 47u64, 0u64)
    } else if from == 46 {
        (24u64, 46u64, 48u64, 0u64)
    } else if from == 47 {
        (25u64, 47u64, 49u64, 0u64)
    } else if from == 48 {
        (26u64, 48u64, 50u64, 0u64)
    } else if from == 49 {
        (49u64, 51u64, 0u64, 0u64)
    } else if from == 50 {
        (26u64, 50u64, 52u64, 0u64)
    } else if from == 51 {
        (27u64, 51u64, 53u64, 0u64)
    } else if from == 52 {
        (28u64, 52u64, 54u64, 0u64)
    } else if from == 53 {
        (29u64, 53u64, 55u64, 0u64)
    } else if from == 54 {
        (30u64, 54u64, 56u64, 0u64)
    } else if from == 55 {
        (31u64, 55u64, 57u64, 0u64)
    } else if from == 56 {
        (56u64, 58u64, 0u64, 0u64)
    } else if from == 57 {
        (31u64, 57u64, 59u64, 0u64)
    } else if from == 58 {
        (32u64, 58u64, 60u64, 0u64)
    } else if from == 59 {
        (33u64, 59u64, 61u64, 0u64)
    } else if from == 60 {
        (34u64, 60u64, 62u64, 0u64)
    } else if from == 61 {
        (35u64, 61u64, 63u64, 0u64)
    } else if from == 62 {
        (36u64, 62u64, 64u64, 0u64)
    } else if from == 63 {
        (37u64, 63u64, 0u64, 0u64)
    } else {
        (0u64, 0u64, 0u64, 0u64)
    }
}

/// Returns row `from` of the adjacency table.
pub fn attack_table_row(from: u64) -> (r: (u64, u64, u64, u64))
    requires
        from < BOARD_SIZE,
    ensures
        r == spec_attack_row(from as int),
{
    match from {
        0 => (2u64, 4u64, 6u64, 8u64),
        1 => (1u64, 3u64, 9u64, 11u64),
        2 => (2u64, 4u64, 12u64, 14u64),
        3 => (1u64, 3u64, 5u64, 15u64),
        4 => (4u64, 6u64, 16u64, 18u64),
        5 => (1u64, 5u64, 7u64, 19u64),
        6 => (6u64, 8u64, 20u64, 22u64),
        7 => (1u64, 7u64, 9u64, 23u64),
        8 => (2u64, 8u64, 10u64, 24u64),
        9 => (9u64, 11u64, 25u64, 27u64),
        10 => (2u64, 10u64, 12u64, 28u64),
        11 => (3u64, 11u64, 13u64, 29u64),
        12 => (12u64, 14u64, 30u64, 32u64),
        13 => (3u64, 13u64, 15u64, 33u64),
        14 => (4u64, 14u64, 16u64, 34u64),
        15 => (5u64, 15u64, 17u64, 35u64),
        16 => (16u64, 18u64, 36u64, 38u64),
        17 => (5u64, 17u64, 19u64, 39u64),
        18 => (6u64, 18u64, 20u64, 40u64),
        19 => (7u64, 19u64, 21u64, 41u64),
        20 => (20u64, 22u64, 42u64, 44u64),
        21 => (7u64, 21u64, 23u64, 45u64),
        22 => (8u64, 22u64, 24u64, 46u64),
        23 => (9u64, 23u64, 25u64, 47u64),
        24 => (10u64, 24u64, 26u64, 48u64),
        25 => (25u64, 27u64, 49u64, 51u64),
        26 => (10u64, 26u64, 28u64, 52u64),
        27 => (11u64, 27u64, 29u64, 53u64),
        28 => (12u64, 28u64, 30u64, 54u64),
        29 => (13u64, 29u64, 31u64, 55u64),
        30 => (32u64, 30u64, 56u64, 58u64),
        31 => (13u64, 31u64, 33u64, 59u64),
        32 => (14u64, 32u64, 34u64, 60u64),
        33 => (15u64, 33u64, 35u64, 61u64),
        34 => (16u64, 34u64, 36u64, 62u64),
        35 => (17u64, 35u64, 37u64, 63u64),
        36 => (36u64, 38u64, 64u64, 0u64),
        37 => (17u64, 37u64, 39u64, 0u64),
        38 => (18u64, 38u64, 40u64, 0u64),
        39 => (19u64, 39u64, 41u64, 0u64),
        40 => (20u64, 40u64, 42u64, 0u64),
        41 => (21u64, 41u64, 43u64, 0u64),
        42 => (42u64, 44u64, 0u64, 0u64),
        43 => (21u64, 43u64, 45u64, 0u64),
        44 => (22u64, 44u64, 46u64, 0u64),
        45 => (23u64, 45u64, 47u64, 0u64),
        46 => (24u64, 46u64, 48u64, 0u64),
        47 => (25u64, 47u64, 49u64, 0u64),
        48 => (26u64, 48u64, 50u64, 0u64),
        49 => (49u64, 51u64, 0u64, 0u64),
        50 => (26u64, 50u64, 52u64, 0u64),
        51 => (27u64, 51u64, 53u64, 0u64),
        52 => (28u64, 52u64, 54u64, 0u64),
        53 => (29u64, 53u64, 55u64, 0u64),
        54 => (30u64, 54u64, 56u64, 0u64),
        55 => (31u64, 55u64, 57u64, 0u64),
        56 => (56u64, 58u64, 0u64, 0u64),
        57 => (31u64, 57u64, 59u64, 0u64),
        58 => (32u64, 58u64, 60u64, 0u64),
        59 => (33u64, 59u64, 61u64, 0u64),
        60 => (34u64, 60u64, 62u64, 0u64),
        61 => (35u64, 61u64, 63u64, 0u64),
        62 => (36u64, 62u64, 64u64, 0u64),
        63 => (37u64, 63u64, 0u64, 0u64),
        _ => (0u64, 0u64, 0u64, 0u64),
    }
}

/// Whether `from` may attack `to`: some nonzero entry of row `from`, minus
/// one for zero-indexing, names `to`.
pub open spec fn spec_adjacent(from: u64, to: u64) -> bool {
    from < BOARD_SIZE && {
        let row = spec_attack_row(from as int);
        ||| (row.0 != 0 && row.0 - 1 == to)
        ||| (row.1 != 0 && row.1 - 1 == to)
        ||| (row.2 != 0 && row.2 - 1 == to)
        ||| (row.3 != 0 && row.3 - 1 == to)
    }
}

/// Decides adjacency against the literal table.
pub fn is_adjacent(from: u64, to: u64) -> (r: bool)
    ensures
        r == spec_adjacent(from, to),
{
    if from >= BOARD_SIZE {
        return false;
    }
    let row = attack_table_row(from);
    (row.0 != 0 && row.0 - 1 == to) || (row.1 != 0 && row.1 - 1 == to) || (row.2 != 0 && row.2 - 1
        == to) || (row.3 != 0 && row.3 - 1 == to)
}

/// Every neighbor the table names is a board square.
pub proof fn lemma_adjacent_in_range(from: u64, to: u64)
    requires
        spec_adjacent(from, to),
    ensures
        from < BOARD_SIZE,
        to < BOARD_SIZE,
{
}

/// The roll an attack from `from` must stay under to win: the attacker's
/// advantage falls as the square number rises.
pub open spec fn spec_roll_threshold(from: u64) -> u64
    recommends
        from < BOARD_SIZE,
{
    (51 + (BOARD_SIZE - from) * ADVANTAGE_PERCENT / 64) as u64
}

/// Computes the roll threshold for an attack from `from`.
pub fn roll_threshold(from: u64) -> (r: u64)
    requires
        from < BOARD_SIZE,
    ensures
        r == spec_roll_threshold(from),
        51 <= r <= 55,
{
    51 + (BOARD_SIZE - from) * ADVANTAGE_PERCENT / 64
}

/// The roll in 1..=100 a digest yields: its first eight bytes, read as a
/// little-endian word, reduced mod 100, plus one.
pub open spec fn spec_roll(digest: Digest32) -> u64 {
    (digest.w0 % 100 + 1) as u64
}

/// Computes the roll a digest yields.
pub fn roll_from_digest(digest: &Digest32) -> (r: u64)
    ensures
        r == spec_roll(*digest),
        1 <= r <= 100,
{
    digest.w0 % 100 + 1
}

} // verus!
