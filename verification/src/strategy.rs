//! How the automated opponent chooses the number of pebbles it removes.
//!
//! A move is legal when it removes at least one pebble, no more than one turn
//! may remove and no more than are left. On the easy level the opponent takes
//! any legal move; on the hard level it plays the subtraction game optimally:
//! whenever it can, it leaves a pile that is a multiple of one more than the
//! most a turn may remove, from which no legal move reaches such a pile again.

use crate::types::DifficultyLevel;
use vstd::arithmetic::div_mod::{
    lemma_fundamental_div_mod, lemma_fundamental_div_mod_converse_mod, lemma_mod_pos_bound,
    lemma_mod_subtraction, lemma_small_mod,
};
use vstd::prelude::*;

verus! {

/// The most pebbles that a turn can remove from a pile of `remaining`.
pub open spec fn move_cap(remaining: nat, max_per_turn: nat) -> nat {
    if max_per_turn <= remaining {
        max_per_turn
    } else {
        remaining
    }
}

/// Whether removing `pebbles` from a pile of `remaining` is within the rules.
pub open spec fn is_legal_move(remaining: nat, max_per_turn: nat, pebbles: nat) -> bool {
    1 <= pebbles <= move_cap(remaining, max_per_turn)
}

/// Whether the player to move from a pile of `remaining` loses against
/// optimal play: the pile is a multiple of `max_per_turn + 1`.
pub open spec fn is_losing_position(remaining: nat, max_per_turn: nat) -> bool {
    (remaining as int) % (max_per_turn as int + 1) == 0
}

/// The move of optimal play: the number of pebbles that brings the pile down
/// to a multiple of `max_per_turn + 1`, or a single pebble where the pile
/// already is such a multiple and no move can do so.
pub open spec fn winning_move(remaining: nat, max_per_turn: nat) -> nat {
    let remainder = (remaining as int) % (max_per_turn as int + 1);
    if remainder == 0 {
        1
    } else {
        remainder as nat
    }
}

/// The move of the easy level: the reading `entropy` of the entropy source,
/// reduced to the legal moves.
pub open spec fn random_move(remaining: nat, max_per_turn: nat, entropy: nat) -> nat {
    if max_per_turn <= remaining {
        ((entropy as int) % (max_per_turn as int) + 1) as nat
    } else {
        ((entropy as int) % (remaining as int) + 1) as nat
    }
}

/// The move of the automated opponent on the given level. The hard level does
/// not look at `entropy`.
pub open spec fn chosen_move(
    remaining: nat,
    max_per_turn: nat,
    difficulty: DifficultyLevel,
    entropy: nat,
) -> nat {
    match difficulty {
        DifficultyLevel::Easy => random_move(remaining, max_per_turn, entropy),
        DifficultyLevel::Hard => winning_move(remaining, max_per_turn),
    }
}

/// The move of optimal play is legal, and from every pile that is not a
/// losing position it leaves one.
pub proof fn lemma_winning_move(remaining: nat, max_per_turn: nat)
    requires
        remaining > 0,
        max_per_turn > 0,
    ensures
        is_legal_move(remaining, max_per_turn, winning_move(remaining, max_per_turn)),
        !is_losing_position(remaining, max_per_turn) ==> is_losing_position(
            (remaining - winning_move(remaining, max_per_turn)) as nat,
            max_per_turn,
        ),
{
    let modulus = max_per_turn as int + 1;
    let remainder = remaining as int % modulus;
    lemma_mod_pos_bound(remaining as int, modulus);
    lemma_fundamental_div_mod(remaining as int, modulus);
    assert(remainder <= remaining) by (nonlinear_arith)
        requires
            remaining == modulus * (remaining as int / modulus) + remainder,
            modulus > 0,
            remaining as int / modulus >= 0,
    ;
    if remainder != 0 {
        lemma_small_mod(remainder as nat, modulus as nat);
        lemma_mod_subtraction(remaining, remainder as nat, modulus as nat);
    }
}

/// The move of the easy level is legal, whatever the entropy source gave.
pub proof fn lemma_random_move(remaining: nat, max_per_turn: nat, entropy: nat)
    requires
        remaining > 0,
        max_per_turn > 0,
    ensures
        is_legal_move(remaining, max_per_turn, random_move(remaining, max_per_turn, entropy)),
{
    lemma_mod_pos_bound(entropy as int, move_cap(remaining, max_per_turn) as int);
}

/// From a losing position every legal move leaves a pile that is not one:
/// the opponent of optimal play can never get the multiple back.
pub proof fn lemma_losing_position_is_left(remaining: nat, max_per_turn: nat, pebbles: nat)
    requires
        is_losing_position(remaining, max_per_turn),
        is_legal_move(remaining, max_per_turn, pebbles),
    ensures
        !is_losing_position((remaining - pebbles) as nat, max_per_turn),
{
    let modulus = (max_per_turn + 1) as int;
    let quotient = remaining as int / modulus;
    lemma_fundamental_div_mod(remaining as int, modulus);
    assert(remaining - pebbles == (quotient - 1) * modulus + (modulus - pebbles))
        by (nonlinear_arith)
        requires
            remaining == modulus * quotient,
    ;
    lemma_fundamental_div_mod_converse_mod(
        remaining - pebbles,
        modulus,
        quotient - 1,
        modulus - pebbles,
    );
}

/// Computes the move of optimal play for a pile of `remaining` pebbles.
pub fn calculate_winning_move(remaining: u32, max_per_turn: u32) -> (pebbles: u32)
    ensures
        pebbles == winning_move(remaining as nat, max_per_turn as nat),
        remaining > 0 && max_per_turn > 0 ==> is_legal_move(
            remaining as nat,
            max_per_turn as nat,
            pebbles as nat,
        ),
        remaining > 0 && max_per_turn > 0 && !is_losing_position(
            remaining as nat,
            max_per_turn as nat,
        ) ==> is_losing_position((remaining - pebbles) as nat, max_per_turn as nat),
{
    proof {
        lemma_mod_pos_bound(remaining as int, max_per_turn + 1);
        if remaining > 0 && max_per_turn > 0 {
            lemma_winning_move(remaining as nat, max_per_turn as nat);
        }
    }
    let modulus: u64 = max_per_turn as u64 + 1;
    let remainder: u64 = remaining as u64 % modulus;
    if remainder == 0 {
        1
    } else {
        remainder as u32
    }
}

/// Chooses the automated opponent's move from a pile of `remaining` pebbles.
/// `entropy` is one reading of the entropy source; only the easy level uses it.
/// The pile holds a pebble and a turn may remove one, so that there is a legal
/// move to choose.
pub fn select(remaining: u32, max_per_turn: u32, difficulty: DifficultyLevel, entropy: u32) -> (pebbles: u32)
    requires
        remaining > 0,
        max_per_turn > 0,
    ensures
        pebbles == chosen_move(
            remaining as nat,
            max_per_turn as nat,
            difficulty,
            entropy as nat,
        ),
        is_legal_move(remaining as nat, max_per_turn as nat, pebbles as nat),
        difficulty is Hard && !is_losing_position(remaining as nat, max_per_turn as nat)
            ==> is_losing_position((remaining - pebbles) as nat, max_per_turn as nat),
{
    match difficulty {
        DifficultyLevel::Easy => {
            let cap: u32 = if max_per_turn <= remaining {
                max_per_turn
            } else {
                remaining
            };
            proof {
                lemma_random_move(remaining as nat, max_per_turn as nat, entropy as nat);
            }
            entropy % cap + 1
        },
        DifficultyLevel::Hard => calculate_winning_move(remaining, max_per_turn),
    }
}

} // verus!
