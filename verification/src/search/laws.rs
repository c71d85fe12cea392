//! What holds of the search and of what it tells on every input.

use vstd::prelude::*;
use crate::rules::{game_over, legal_moves_of, position_after, Ply, Position};
use crate::scoring::order_key;
use crate::search::negamax::{ordered, pruned, sorted_by_key, sound};
use crate::search::tree::leaf;
use crate::search::tree::{
    lemma_negamax_bounds, lemma_subtree_nodes_at_least, negamax, principal_move, root_value,
};
use crate::search::{is_report, told_by_search};
use crate::{SearchInfo, MAX_SCORE, MIN_SCORE};

verus! {

/// Alpha-beta equals full-width search. With the full window, what a
/// search that ran to its end returns is the value that searching every
/// line gives.
pub proof fn full_window_is_exact(position: Position, depth: nat, result: int)
    requires
        depth <= u8::MAX,
        sound(position, depth, MIN_SCORE as int, MAX_SCORE as int, result),
    ensures
        result == negamax(position, depth),
{
    lemma_negamax_bounds(position, depth);
}

/// With any window that holds the value of the position strictly
/// inside, the search returns that value.
pub proof fn window_around_the_value_is_exact(
    position: Position,
    depth: nat,
    alpha: int,
    beta: int,
    result: int,
)
    requires
        alpha < negamax(position, depth) < beta,
        sound(position, depth, alpha, beta, result),
    ensures
        result == negamax(position, depth),
{
}

/// Where the game goes on, the score of a report is the full-width
/// value of the position at the depth of the report.
pub proof fn reported_score_is_full_width(info: SearchInfo, position: Position, depth: nat)
    requires
        depth > 0,
        !game_over(position),
        is_report(info, position, depth),
    ensures
        info matches SearchInfo::Info { score, .. } && score == negamax(position, depth),
{
}

/// A report of depth one counts exactly one node for each legal move.
pub proof fn first_report_counts_the_moves(info: SearchInfo, position: Position)
    requires
        is_report(info, position, 1),
    ensures
        info matches SearchInfo::Info { nodes, .. } && nodes == legal_moves_of(position).len(),
{
    lemma_subtree_nodes_at_least(position, 1, legal_moves_of(position));
}

/// A search that completed `completed` depths tells that many reports,
/// with the depths one, two, three and so on in this order, and after
/// them the best move and nothing else.
pub proof fn reports_count_the_depths(
    position: Position,
    completed: nat,
    before: Seq<SearchInfo>,
    after: Seq<SearchInfo>,
    index: int,
)
    requires
        legal_moves_of(position).len() > 0,
        told_by_search(position, completed, before, after),
        0 <= index <= completed,
    ensures
        after.len() == before.len() + completed + 1,
        index < completed ==> (after[before.len() + index] matches SearchInfo::Info {
            depth,
            ..
        } && depth == index + 1),
        index == completed ==> after[before.len() + index] is BestMove,
{
    if index < completed {
        assert(is_report(after[before.len() + (index + 1) - 1], position, (index + 1) as nat));
    }
}

/// The best move that a search tells is the move of its last report:
/// the principal move of the last depth that was completed, never one
/// of a depth that the deadline cut short.
pub proof fn best_move_is_the_last_reported(
    position: Position,
    completed: nat,
    before: Seq<SearchInfo>,
    after: Seq<SearchInfo>,
)
    requires
        legal_moves_of(position).len() > 0,
        completed > 0,
        told_by_search(position, completed, before, after),
    ensures
        after.last() matches SearchInfo::BestMove(mv) && mv == principal_move(
            position,
            completed,
        ),
        after[after.len() - 2] matches SearchInfo::Info { depth, pv, score, .. } && depth
            == completed && pv@ == seq![principal_move(position, completed)] && score
            == root_value(position, completed),
{
    assert(is_report(after[before.len() + completed - 1], position, completed));
}

/// Two searches of the same position that completed the same number of
/// depths tell the same: report by report the same depth, variation,
/// score and node count, and the same best move. So a search that only
/// the depth bounds does not depend on the clock.
pub proof fn equal_searches_tell_the_same(
    position: Position,
    completed: nat,
    before: Seq<SearchInfo>,
    after: Seq<SearchInfo>,
    other_before: Seq<SearchInfo>,
    other_after: Seq<SearchInfo>,
    index: int,
)
    requires
        legal_moves_of(position).len() > 0,
        told_by_search(position, completed, before, after),
        told_by_search(position, completed, other_before, other_after),
        0 <= index <= completed,
    ensures
        after.len() - before.len() == other_after.len() - other_before.len(),
        match (after[before.len() + index], other_after[other_before.len() + index]) {
            (
                SearchInfo::Info { depth, pv, score, nodes },
                SearchInfo::Info {
                    depth: other_depth,
                    pv: other_pv,
                    score: other_score,
                    nodes: other_nodes,
                },
            ) => depth == other_depth && pv@ == other_pv@ && score == other_score && nodes
                == other_nodes,
            (SearchInfo::BestMove(mv), SearchInfo::BestMove(other_mv)) => mv == other_mv,
            _ => false,
        },
{
    if index < completed {
        assert(is_report(after[before.len() + (index + 1) - 1], position, (index + 1) as nat));
        assert(is_report(
            other_after[other_before.len() + (index + 1) - 1],
            position,
            (index + 1) as nat,
        ));
    }
}

/// In a list sorted by key, a move whose key is smaller than that of
/// every other move of the list stands first.
pub proof fn least_key_is_searched_first(position: Position, moves: Seq<Ply>, index: int)
    requires
        sorted_by_key(position, moves),
        0 <= index < moves.len(),
        forall|j: int|
            0 <= j < moves.len() && j != index ==> order_key(position, moves[index]) < order_key(
                position,
                #[trigger] moves[j],
            ),
    ensures
        index == 0,
{
    if index > 0 {
        assert(order_key(position, moves[0]) <= order_key(position, moves[index]));
    }
}

/// Where the reply to the move that is searched first lifts the bound
/// to `beta` or beyond, the search ends there: it returns what that
/// move is worth and has visited the node itself and what the reply
/// visited.
pub proof fn first_move_may_cut_off(position: Position, depth: nat, alpha: int, beta: int)
    requires
        !leaf(position, depth),
        ordered(position).len() > 0,
        ({
            let reply = pruned(
                position_after(position, ordered(position).first()),
                (depth - 1) as nat,
                -beta,
                -alpha,
            );
            -reply.0 > alpha && -reply.0 >= beta
        }),
    ensures
        ({
            let reply = pruned(
                position_after(position, ordered(position).first()),
                (depth - 1) as nat,
                -beta,
                -alpha,
            );
            pruned(position, depth, alpha, beta) == (-reply.0, 1 + reply.1)
        }),
{
}

} // verus!
