//! The game tree and its full-width value: what the search is measured
//! against.

use vstd::prelude::*;
use crate::rules::{game_over, legal_moves_of, position_after, Ply, Position};
use crate::scoring::{evaluation, lemma_evaluation_bounds};
use crate::{MAX_SCORE, MIN_SCORE};

verus! {

/// Whether the search stops at a position: no depth is left, or the game
/// is over.
pub open spec fn leaf(position: Position, depth: nat) -> bool {
    depth == 0 || game_over(position)
}

/// The value of a position for the side to move when every line is
/// searched `depth` plies deep: the evaluation at a leaf, and elsewhere
/// the best that any legal move leads to.
pub open spec fn negamax(position: Position, depth: nat) -> int
    decreases depth, 1nat, 0nat,
{
    if depth == 0 || game_over(position) {
        evaluation(position, depth as int)
    } else {
        best_reply(position, depth, legal_moves_of(position))
    }
}

/// The best value that one of `moves` leads to, for the side that moves,
/// with `depth` plies left before the move. An empty list gives the
/// bottom of the window, which no position is worth.
pub open spec fn best_reply(position: Position, depth: nat, moves: Seq<Ply>) -> int
    decreases depth, 0nat, moves.len(),
{
    if depth == 0 || moves.len() == 0 {
        MIN_SCORE as int
    } else {
        let earlier = best_reply(position, depth, moves.drop_last());
        let last = -negamax(position_after(position, moves.last()), (depth - 1) as nat);
        if last > earlier {
            last
        } else {
            earlier
        }
    }
}

/// What a move is worth to the side that plays it, with `depth` plies
/// left before the move.
pub open spec fn reply_value(position: Position, mv: Ply, depth: nat) -> int {
    -negamax(position_after(position, mv), (depth - 1) as nat)
}

/// Whether `index` is the first of `moves` that is worth the most.
pub open spec fn first_best(position: Position, depth: nat, moves: Seq<Ply>, index: int) -> bool {
    &&& 0 <= index < moves.len()
    &&& reply_value(position, moves[index], depth) == best_reply(position, depth, moves)
    &&& forall|j: int|
        0 <= j < index ==> reply_value(position, #[trigger] moves[j], depth) < best_reply(
            position,
            depth,
            moves,
        )
}

/// What the best legal move of a position is worth with `depth` plies to
/// search. Where the game goes on this is the value of the position.
pub open spec fn root_value(position: Position, depth: nat) -> int {
    best_reply(position, depth, legal_moves_of(position))
}

/// The first of the legal moves of a position that is worth the most
/// with `depth` plies to search.
pub open spec fn principal_move(position: Position, depth: nat) -> Ply {
    let legal = legal_moves_of(position);
    legal[choose|index: int| first_best(position, depth, legal, index)]
}

/// The value of every position lies strictly inside the search window.
pub proof fn lemma_negamax_bounds(position: Position, depth: nat)
    requires
        depth <= u8::MAX,
    ensures
        MIN_SCORE < negamax(position, depth) < MAX_SCORE,
    decreases depth, 1nat, 0nat,
{
    if depth == 0 || game_over(position) {
        lemma_evaluation_bounds(position, depth as int);
    } else {
        lemma_best_reply_bounds(position, depth, legal_moves_of(position));
    }
}

/// The best reply lies inside the window, and strictly so when there is
/// a move to choose.
pub proof fn lemma_best_reply_bounds(position: Position, depth: nat, moves: Seq<Ply>)
    requires
        0 < depth <= u8::MAX,
    ensures
        MIN_SCORE <= best_reply(position, depth, moves) < MAX_SCORE,
        moves.len() > 0 ==> MIN_SCORE < best_reply(position, depth, moves),
    decreases depth, 0nat, moves.len(),
{
    if moves.len() > 0 {
        lemma_best_reply_bounds(position, depth, moves.drop_last());
        lemma_negamax_bounds(position_after(position, moves.last()), (depth - 1) as nat);
    }
}

/// No move of the list is worth more than the best reply.
pub proof fn lemma_best_reply_covers(position: Position, depth: nat, moves: Seq<Ply>, index: int)
    requires
        0 < depth,
        0 <= index < moves.len(),
    ensures
        reply_value(position, moves[index], depth) <= best_reply(position, depth, moves),
    decreases moves.len(),
{
    if index < moves.len() - 1 {
        lemma_best_reply_covers(position, depth, moves.drop_last(), index);
    }
}

/// One more move at the end changes the first best of a list only if it
/// is worth strictly more than all before it.
pub proof fn lemma_first_best_extends(
    position: Position,
    depth: nat,
    moves: Seq<Ply>,
    index: int,
)
    requires
        0 < depth <= u8::MAX,
        moves.len() > 0,
        moves.len() > 1 ==> first_best(position, depth, moves.drop_last(), index),
    ensures
        first_best(
            position,
            depth,
            moves,
            if reply_value(position, moves.last(), depth) > best_reply(
                position,
                depth,
                moves.drop_last(),
            ) {
                moves.len() - 1
            } else {
                index
            },
        ),
{
    let shorter = moves.drop_last();
    let last = moves.len() - 1;
    lemma_negamax_bounds(position_after(position, moves.last()), (depth - 1) as nat);
    if reply_value(position, moves.last(), depth) > best_reply(position, depth, shorter) {
        assert forall|j: int| 0 <= j < last implies reply_value(
            position,
            #[trigger] moves[j],
            depth,
        ) < best_reply(position, depth, moves) by {
            lemma_best_reply_covers(position, depth, shorter, j);
        }
    } else {
        lemma_best_reply_bounds(position, depth, shorter);
        assert(moves.len() > 1);
        assert(moves[index] == shorter[index]);
        assert forall|j: int| 0 <= j < index implies reply_value(
            position,
            #[trigger] moves[j],
            depth,
        ) < best_reply(position, depth, moves) by {
            assert(moves[j] == shorter[j]);
        }
    }
}

/// Some move of a list that is not empty is worth the best reply; the
/// result is the first such move.
pub proof fn lemma_best_reply_attained(position: Position, depth: nat, moves: Seq<Ply>) -> (index:
    int)
    requires
        0 < depth <= u8::MAX,
        moves.len() > 0,
    ensures
        first_best(position, depth, moves, index),
    decreases moves.len(),
{
    let earlier = if moves.len() == 1 {
        0
    } else {
        lemma_best_reply_attained(position, depth, moves.drop_last())
    };
    lemma_first_best_extends(position, depth, moves, earlier);
    if reply_value(position, moves.last(), depth) > best_reply(
        position,
        depth,
        moves.drop_last(),
    ) {
        moves.len() - 1
    } else {
        earlier
    }
}

/// The best reply depends on which moves a list holds, not on their
/// order.
pub proof fn lemma_best_reply_same_moves(
    position: Position,
    depth: nat,
    moves: Seq<Ply>,
    others: Seq<Ply>,
)
    requires
        0 < depth <= u8::MAX,
        forall|mv: Ply| moves.contains(mv) <==> others.contains(mv),
    ensures
        best_reply(position, depth, moves) == best_reply(position, depth, others),
{
    if moves.len() == 0 {
        if others.len() > 0 {
            assert(others.contains(others[0]));
        }
    } else {
        assert(moves.contains(moves[0]));
        let i = lemma_best_reply_attained(position, depth, moves);
        let j = lemma_best_reply_attained(position, depth, others);
        assert(moves.contains(moves[i]));
        assert(others.contains(others[j]));
        let i_there = choose|k: int| 0 <= k < others.len() && others[k] == moves[i];
        let j_here = choose|k: int| 0 <= k < moves.len() && moves[k] == others[j];
        lemma_best_reply_covers(position, depth, others, i_there);
        lemma_best_reply_covers(position, depth, moves, j_here);
    }
}

/// Only one index is the first best of a list. So the first best of
/// the legal moves is the principal move.
pub proof fn lemma_first_best_unique(position: Position, depth: nat, index: int)
    requires
        first_best(position, depth, legal_moves_of(position), index),
    ensures
        principal_move(position, depth) == legal_moves_of(position)[index],
{
    let legal = legal_moves_of(position);
    let chosen = choose|i: int| first_best(position, depth, legal, i);
    assert(first_best(position, depth, legal, chosen));
    assert(chosen == index);
}

/// The number of nodes of the tree below a position, the position
/// itself counted, when every line is followed `depth` plies deep.
pub open spec fn tree_nodes(position: Position, depth: nat) -> nat
    decreases depth, 1nat, 0nat,
{
    if depth == 0 || game_over(position) {
        1
    } else {
        1 + subtree_nodes(position, depth, legal_moves_of(position))
    }
}

/// The number of nodes of the trees that `moves` lead to, with `depth`
/// plies left before the move.
pub open spec fn subtree_nodes(position: Position, depth: nat, moves: Seq<Ply>) -> nat
    decreases depth, 0nat, moves.len(),
{
    if depth == 0 || moves.len() == 0 {
        0
    } else {
        subtree_nodes(position, depth, moves.drop_last()) + tree_nodes(
            position_after(position, moves.last()),
            (depth - 1) as nat,
        )
    }
}

/// The trees below the first moves of a list hold no more nodes than
/// the trees below all of them.
pub proof fn lemma_subtree_nodes_grow(position: Position, depth: nat, moves: Seq<Ply>, upto: int)
    requires
        0 <= upto <= moves.len(),
    ensures
        subtree_nodes(position, depth, moves.take(upto)) <= subtree_nodes(position, depth, moves),
    decreases moves.len(),
{
    if upto == moves.len() {
        assert(moves.take(upto) == moves);
    } else if depth > 0 {
        lemma_subtree_nodes_grow(position, depth, moves.drop_last(), upto);
        assert(moves.drop_last().take(upto) == moves.take(upto));
    }
}

/// Each move leads to at least one node, and with one ply to search to
/// exactly one.
pub proof fn lemma_subtree_nodes_at_least(position: Position, depth: nat, moves: Seq<Ply>)
    requires
        depth > 0,
    ensures
        subtree_nodes(position, depth, moves) >= moves.len(),
        depth == 1 ==> subtree_nodes(position, depth, moves) == moves.len(),
    decreases moves.len(),
{
    if moves.len() > 0 {
        lemma_subtree_nodes_at_least(position, depth, moves.drop_last());
        let below = tree_nodes(position_after(position, moves.last()), (depth - 1) as nat);
        assert(below >= 1);
        assert(depth == 1 ==> below == 1);
    }
}

proof fn lemma_subtree_nodes_without(position: Position, depth: nat, moves: Seq<Ply>, index: int)
    requires
        depth > 0,
        0 <= index < moves.len(),
    ensures
        subtree_nodes(position, depth, moves) == subtree_nodes(
            position,
            depth,
            moves.remove(index),
        ) + tree_nodes(position_after(position, moves[index]), (depth - 1) as nat),
    decreases moves.len(),
{
    if index == moves.len() - 1 {
        assert(moves.remove(index) == moves.drop_last());
    } else {
        lemma_subtree_nodes_without(position, depth, moves.drop_last(), index);
        assert(moves.remove(index).drop_last() == moves.drop_last().remove(index));
        assert(moves.remove(index).last() == moves.last());
    }
}

/// The number of nodes below a list of moves depends on which moves the
/// list holds and how often, not on their order.
pub proof fn lemma_subtree_nodes_same_moves(
    position: Position,
    depth: nat,
    moves: Seq<Ply>,
    others: Seq<Ply>,
)
    requires
        moves.to_multiset() == others.to_multiset(),
    ensures
        subtree_nodes(position, depth, moves) == subtree_nodes(position, depth, others),
    decreases moves.len(),
{
    moves.to_multiset_ensures();
    others.to_multiset_ensures();
    if depth > 0 && moves.len() > 0 {
        let last = moves.last();
        assert(moves.contains(last));
        assert(others.to_multiset().count(last) > 0);
        assert(others.contains(last));
        let index = choose|i: int| 0 <= i < others.len() && others[i] == last;
        assert(moves.remove(moves.len() - 1) == moves.drop_last());
        lemma_subtree_nodes_same_moves(position, depth, moves.drop_last(), others.remove(index));
        lemma_subtree_nodes_without(position, depth, others, index);
    }
}

} // verus!
