//! What holds of the evaluator and of the ordering key on every input.

use vstd::prelude::*;
use crate::rules::{
    board_of, checkmate, in_check, insufficient_material, pieces_of, position_after,
    side_to_move, stalemate, Color, PlacedPiece, Ply, Position, Role,
};
use crate::scoring::{
    balance, capture_key, evaluation, lemma_evaluation_bounds, mobility, order_key, phase_of,
    value_of, MOBILITY_FACTOR,
};

verus! {

/// Whether the game is decided in a position: by checkmate, by stalemate
/// or for want of material.
pub open spec fn decided(position: Position) -> bool {
    checkmate(position) || stalemate(position) || insufficient_material(position)
}

/// The pieces are worth to one side the exact opposite of what they are
/// worth to the other.
pub proof fn balance_flips_with_turn(placed: Seq<PlacedPiece>, phase: int)
    ensures
        balance(placed, Color::White, phase) == -balance(placed, Color::Black, phase),
    decreases placed.len(),
{
    if placed.len() > 0 {
        balance_flips_with_turn(placed.drop_last(), phase);
    }
}

/// Zero-sum symmetry. Take two undecided positions with the same pieces
/// on the same squares and the other side to move. Apart from the
/// mobility bonus, which each side earns with its own moves, the score
/// of the one is the exact negation of the score of the other.
pub proof fn zero_sum_symmetry(
    position: Position,
    flipped: Position,
    depth: int,
    other_depth: int,
)
    requires
        board_of(position) == board_of(flipped),
        side_to_move(position) != side_to_move(flipped),
        !decided(position),
        !decided(flipped),
    ensures
        evaluation(position, depth) - MOBILITY_FACTOR * mobility(position) == -(evaluation(
            flipped,
            other_depth,
        ) - MOBILITY_FACTOR * mobility(flipped)),
{
    let placed = pieces_of(position);
    assert(pieces_of(flipped) == placed);
    balance_flips_with_turn(placed, phase_of(placed));
}

/// A checkmate scores strictly below every position that is not one,
/// whatever the depths at which the two are found.
pub proof fn mate_scores_lowest(mated: Position, other: Position, depth: int, other_depth: int)
    requires
        checkmate(mated),
        !checkmate(other),
        0 <= depth <= u8::MAX,
        0 <= other_depth <= u8::MAX,
    ensures
        evaluation(mated, depth) < evaluation(other, other_depth),
{
    lemma_evaluation_bounds(mated, depth);
    lemma_evaluation_bounds(other, other_depth);
}

/// Of two checkmates the one found with more depth left, which is the
/// one that comes sooner, scores further from zero.
pub proof fn sooner_mate_is_more_extreme(mated: Position, less_left: int, more_left: int)
    requires
        checkmate(mated),
        0 <= less_left < more_left,
    ensures
        evaluation(mated, more_left) < evaluation(mated, less_left) < 0,
{
}

/// A position without checkmate that is a stalemate, or in which neither
/// side has mating material, scores exactly zero at every depth.
pub proof fn draws_score_zero(position: Position, depth: int)
    requires
        !checkmate(position),
        stalemate(position) || insufficient_material(position),
    ensures
        evaluation(position, depth) == 0,
{
}

/// Every capture sorts ahead of every move that captures nothing,
/// whatever the pieces involved and whatever the positions.
pub proof fn captures_sort_first(
    position: Position,
    capture: Ply,
    other_position: Position,
    other: Ply,
)
    requires
        capture.capture() is Some,
        other.capture() is None,
    ensures
        order_key(position, capture) < order_key(other_position, other),
{
}

/// Among the moves that capture nothing, promotions sort ahead of checks
/// and checks ahead of quiet moves.
pub proof fn promotions_then_checks_then_quiet(
    position: Position,
    promotion: Ply,
    check: Ply,
    quiet: Ply,
)
    requires
        promotion.capture() is None && promotion.promotion() is Some,
        check.capture() is None && check.promotion() is None,
        quiet.capture() is None && quiet.promotion() is None,
        in_check(position_after(position, check)),
        !in_check(position_after(position, quiet)),
    ensures
        order_key(position, promotion) < order_key(position, check) < order_key(position, quiet),
        order_key(position, quiet) == 0,
{
}

/// Among captures by the same attacker the more valuable victim sorts
/// first, and among captures of the same victim the less valuable
/// attacker.
pub proof fn most_valuable_victim_first(
    attacker: Role,
    victim: Role,
    other_attacker: Role,
    other_victim: Role,
)
    requires
        (attacker == other_attacker && value_of(victim) > value_of(other_victim)) || (victim
            == other_victim && value_of(attacker) < value_of(other_attacker)),
    ensures
        capture_key(attacker, victim) < capture_key(other_attacker, other_victim),
{
}

} // verus!
