//! The recursive search: negamax with alpha-beta pruning.

use vstd::prelude::*;
use crate::rules::{
    game_over, is_game_over, is_legal, legal_moves, legal_moves_of, play, position_after, Ply,
    Position,
};
use crate::scoring::{evaluate, evaluation, order_key, score_move};
use crate::search::tree::{
    best_reply, leaf, lemma_best_reply_bounds, lemma_best_reply_covers,
    lemma_best_reply_same_moves, lemma_negamax_bounds, lemma_subtree_nodes_grow,
    lemma_subtree_nodes_same_moves, negamax, reply_value, subtree_nodes, tree_nodes,
};
use crate::search::{nanos, Timer};
use crate::{Score, MIN_SCORE};

verus! {

/// Whether `moves` is sorted by ascending order key.
pub open spec fn sorted_by_key(position: Position, moves: Seq<Ply>) -> bool {
    forall|i: int, j: int|
        0 <= i <= j < moves.len() ==> order_key(position, #[trigger] moves[i]) <= order_key(
            position,
            #[trigger] moves[j],
        )
}

/// The order into which the moves of a position are sorted: what
/// `sort_unstable_by_key` of std makes of the list with the order key of
/// each move as its key. The sort follows no clock and no chance, so the
/// same position and the same list give the same order; where two moves
/// have the same key, which of them comes first is the sort's choice.
pub uninterp spec fn search_order(position: Position, moves: Seq<Ply>) -> Seq<Ply>;

/// Calls `sort_unstable_by_key` of std with the order key of each move
/// as its key. Claimed: the list afterwards holds the same moves as
/// before, each as often as before, by ascending key, and is a function
/// of the position and of the list before; what the closure computes is
/// the contract of `score_move`.
#[verifier::external_body]
fn sort_by_order_key(position: &Position, moves: &mut Vec<Ply>)
    requires
        forall|i: int| 0 <= i < old(moves).len() ==> is_legal(*position, #[trigger] old(moves)[i]),
    ensures
        final(moves)@ == search_order(*position, old(moves)@),
        final(moves)@.to_multiset() == old(moves)@.to_multiset(),
        sorted_by_key(*position, final(moves)@),
{
    moves.sort_unstable_by_key(|mv| score_move(position, mv));
}

/// The legal moves of a position in the order in which they are
/// searched.
pub open spec fn ordered(position: Position) -> Seq<Ply> {
    search_order(position, legal_moves_of(position))
}

/// The legal moves of a position in the order in which they are
/// searched: by ascending order key.
pub fn ordered_moves(position: &Position) -> (moves: Vec<Ply>)
    ensures
        moves@ == ordered(*position),
        moves@.to_multiset() == legal_moves_of(*position).to_multiset(),
        sorted_by_key(*position, moves@),
{
    let mut moves = legal_moves(position);
    proof {
        assert forall|i: int| 0 <= i < moves.len() implies is_legal(
            *position,
            #[trigger] moves[i],
        ) by {
            assert(legal_moves_of(*position)[i] == moves[i]);
        }
    }
    sort_by_order_key(position, &mut moves);
    moves
}

/// Two lists that hold the same moves equally often hold the same moves.
pub proof fn lemma_same_moves(moves: Seq<Ply>, others: Seq<Ply>)
    requires
        moves.to_multiset() == others.to_multiset(),
    ensures
        moves.len() == others.len(),
        forall|mv: Ply| moves.contains(mv) <==> others.contains(mv),
{
    moves.to_multiset_ensures();
    others.to_multiset_ensures();
    assert forall|mv: Ply| moves.contains(mv) <==> others.contains(mv) by {
        assert(moves.contains(mv) <==> moves.to_multiset().count(mv) > 0);
        assert(others.contains(mv) <==> others.to_multiset().count(mv) > 0);
    }
}

/// What a search of a position with the window from `alpha` to `beta`
/// may return once it has run to its end. A leaf gives its evaluation.
/// Elsewhere a value inside the window is returned as it is; one at or
/// below `alpha` gives `alpha`; one at or above `beta` gives a bound
/// between `beta` and the value.
pub open spec fn sound(position: Position, depth: nat, alpha: int, beta: int, result: int) -> bool {
    let value = negamax(position, depth);
    if leaf(position, depth) {
        result == value
    } else if alpha < beta {
        &&& value <= alpha ==> result == alpha
        &&& alpha < value < beta ==> result == value
        &&& beta <= value ==> beta <= result <= value
    } else {
        alpha <= result
    }
}

/// What the pruned search of a position gives when no deadline cuts it
/// short: its result and the number of nodes it visits, the position
/// itself counted. A leaf is evaluated; elsewhere the legal moves are
/// searched in their order.
pub open spec fn pruned(position: Position, depth: nat, alpha: int, beta: int) -> (int, nat)
    decreases depth, 1nat, 0nat,
{
    if depth == 0 || game_over(position) {
        (evaluation(position, depth as int), 1)
    } else {
        let below = pruned_over(position, depth, ordered(position), alpha, beta);
        (below.0, 1 + below.1)
    }
}

/// What searching `moves` one after the other gives, with `depth` plies
/// left before the move: the bound reached and the nodes visited. Each
/// move is answered by a search of the position it leads to, with the
/// window turned round; a reply that is worth more than `alpha` raises
/// it; once `alpha` has reached `beta` the moves that are left are
/// skipped.
pub open spec fn pruned_over(
    position: Position,
    depth: nat,
    moves: Seq<Ply>,
    alpha: int,
    beta: int,
) -> (int, nat)
    decreases depth, 0nat, moves.len(),
{
    if depth == 0 || moves.len() == 0 {
        (alpha, 0)
    } else {
        let reply = pruned(
            position_after(position, moves.first()),
            (depth - 1) as nat,
            -beta,
            -alpha,
        );
        let raised = if -reply.0 > alpha {
            -reply.0
        } else {
            alpha
        };
        if raised >= beta {
            (raised, reply.1)
        } else {
            let rest = pruned_over(position, depth, moves.drop_first(), raised, beta);
            (rest.0, reply.1 + rest.1)
        }
    }
}

/// The node count after one more node.
pub open spec fn one_more(nodes: u64) -> u64 {
    if nodes < u64::MAX {
        (nodes + 1) as u64
    } else {
        nodes
    }
}

/// The node count after `visited` more nodes: the count stops at the
/// largest number it can hold.
pub open spec fn counted(before: u64, visited: nat) -> u64 {
    if before + visited <= u64::MAX {
        (before + visited) as u64
    } else {
        u64::MAX
    }
}

/// The state of one search session.
pub struct NegaMax {
    /// The nodes visited so far; the count stops at the largest number
    /// it can hold.
    pub nodes_searched: u64,
    /// Whether the deadline was ever seen expired. Once it is, what the
    /// session returns is a bound at best.
    pub interrupted: bool,
}

impl NegaMax {
    pub fn new() -> (session: Self)
        ensures
            session.nodes_searched == 0,
            !session.interrupted,
    {
        Self { nodes_searched: 0, interrupted: false }
    }

    /// Searches `position` to `depth` plies with the window from `alpha`
    /// to `beta`. The deadline is asked before each move; once it has
    /// expired the moves that are left are skipped, the session is marked
    /// as interrupted, and what is returned is the bound reached so far.
    /// `None` would say that the search below this node gave no score at
    /// all, which does not happen.
    ///
    /// A search that no deadline cuts short returns what [`pruned`]
    /// says and counts the nodes that it says, and its result stands to
    /// the full-width value as [`sound`] says. A search whose timer
    /// allows no time at all returns `alpha` from every node that is no
    /// leaf, with that one node counted. Whatever the deadline does,
    /// the bound is only ever raised, and only by searching a reply.
    pub fn search(
        &mut self,
        position: &Position,
        depth: u8,
        alpha: Score,
        beta: Score,
        timer: &Timer,
    ) -> (result: Option<Score>)
        requires
            MIN_SCORE <= alpha,
            MIN_SCORE <= beta,
        ensures
            old(self).interrupted ==> final(self).interrupted,
            timer.unbounded() ==> final(self).interrupted == old(self).interrupted,
            result is Some,
            !final(self).interrupted ==> sound(
                *position,
                depth as nat,
                alpha as int,
                beta as int,
                result->Some_0 as int,
            ),
            !final(self).interrupted ==> {
                let whole = pruned(*position, depth as nat, alpha as int, beta as int);
                &&& result->Some_0 == whole.0
                &&& final(self).nodes_searched == counted(old(self).nodes_searched, whole.1)
            },
            timer.limit() matches Some(limit) && nanos(limit) == 0 && !leaf(
                *position,
                depth as nat,
            ) ==> {
                &&& result == Some(alpha)
                &&& final(self).interrupted
                &&& final(self).nodes_searched == one_more(old(self).nodes_searched)
            },
            !final(self).interrupted && !leaf(*position, depth as nat) && result->Some_0 < beta
                ==> final(self).nodes_searched >= old(self).nodes_searched + 1 + legal_moves_of(
                *position,
            ).len() || final(self).nodes_searched == u64::MAX,
            !leaf(*position, depth as nat) && result != Some(alpha) ==> final(self).nodes_searched
                > one_more(old(self).nodes_searched) || final(self).nodes_searched == u64::MAX,
            result matches Some(score) ==> MIN_SCORE <= score,
            result matches Some(score) ==> !leaf(*position, depth as nat) ==> alpha <= score,
            leaf(*position, depth as nat) ==> {
                &&& result == Some(evaluation(*position, depth as int) as Score)
                &&& final(self).nodes_searched == one_more(old(self).nodes_searched)
                &&& final(self).interrupted == old(self).interrupted
            },
            old(self).nodes_searched <= final(self).nodes_searched,
            old(self).nodes_searched < final(self).nodes_searched || final(self).nodes_searched
                == u64::MAX,
            final(self).nodes_searched <= old(self).nodes_searched + tree_nodes(
                *position,
                depth as nat,
            ),
        decreases depth,
    {
        self.nodes_searched = self.nodes_searched.saturating_add(1);

        // No depth left, or the game is over: the evaluator scores it.
        if depth == 0 || is_game_over(position) {
            return Some(evaluate(position, depth));
        }
        let moves = ordered_moves(position);
        let ghost legal = legal_moves_of(*position);
        let ghost value = negamax(*position, depth as nat);
        proof {
            lemma_same_moves(moves@, legal);
            lemma_best_reply_same_moves(*position, depth as nat, moves@, legal);
            lemma_subtree_nodes_same_moves(*position, depth as nat, moves@, legal);
        }
        let mut alpha = alpha;
        let ghost floor = alpha;
        let ghost no_time = timer.limit() matches Some(limit) && nanos(limit) == 0;
        let ghost mut visited: nat = 0;
        let mut done = false;
        let mut k: usize = 0;
        proof {
            assert(moves@.skip(0) == moves@);
        }
        while k < moves.len() && !done
            invariant
                k <= moves.len(),
                depth > 0,
                !leaf(*position, depth as nat),
                legal == legal_moves_of(*position),
                moves.len() == legal.len(),
                legal.len() > 0,
                no_time == (timer.limit() matches Some(limit) && nanos(limit) == 0),
                no_time ==> {
                    &&& k == 0
                    &&& alpha == floor
                    &&& self.nodes_searched == one_more(old(self).nodes_searched)
                    &&& done ==> self.interrupted
                },
                done && !self.interrupted ==> alpha >= beta,
                alpha == floor || self.nodes_searched > one_more(old(self).nodes_searched)
                    || self.nodes_searched == u64::MAX,
                self.nodes_searched >= one_more(old(self).nodes_searched),
                !self.interrupted && !done ==> self.nodes_searched >= old(self).nodes_searched + 1
                    + k || self.nodes_searched == u64::MAX,
                !self.interrupted ==> {
                    let whole = pruned_over(
                        *position,
                        depth as nat,
                        moves@,
                        floor as int,
                        beta as int,
                    );
                    let rest = pruned_over(
                        *position,
                        depth as nat,
                        moves@.skip(k as int),
                        alpha as int,
                        beta as int,
                    );
                    &&& self.nodes_searched == counted(old(self).nodes_searched, 1 + visited)
                    &&& if done {
                        alpha == whole.0 && visited == whole.1
                    } else {
                        whole.0 == rest.0 && whole.1 == visited + rest.1
                    }
                },
                value == negamax(*position, depth as nat),
                forall|mv: Ply| moves@.contains(mv) <==> legal.contains(mv),
                MIN_SCORE <= floor <= alpha,
                MIN_SCORE <= beta,
                old(self).interrupted ==> self.interrupted,
                timer.unbounded() ==> self.interrupted == old(self).interrupted,
                old(self).nodes_searched <= self.nodes_searched,
                old(self).nodes_searched < self.nodes_searched || self.nodes_searched == u64::MAX,
                self.nodes_searched <= old(self).nodes_searched + 1 + subtree_nodes(
                    *position,
                    depth as nat,
                    moves@.take(k as int),
                ),
                subtree_nodes(*position, depth as nat, moves@) == subtree_nodes(
                    *position,
                    depth as nat,
                    legal,
                ),
                !self.interrupted && floor < beta ==> {
                    if done {
                        beta <= alpha <= value
                    } else {
                        let seen = best_reply(*position, depth as nat, moves@.take(k as int));
                        &&& alpha < beta
                        &&& alpha == if seen > floor {
                            seen
                        } else {
                            floor as int
                        }
                    }
                },
            decreases
                2 * (moves.len() - k) + (if done {
                    0int
                } else {
                    1int
                }),
        {
            // The time is up: what was found so far is returned.
            if timer.limit_exceeded() {
                self.interrupted = true;
                done = true;
            } else {
                let mv = moves[k];
                proof {
                    assert(moves@.contains(mv));
                }
                let next = play(position, &mv);
                let ghost reply = pruned(next, (depth - 1) as nat, -beta as int, -alpha as int);
                // The score of the reply, seen from the side that moves.
                let score = match self.search(&next, depth - 1, -beta, -alpha, timer) {
                    Some(score) => -score,
                    None => {
                        return None;
                    },
                };
                proof {
                    let left = moves@.skip(k as int);
                    assert(left.first() == mv);
                    assert(left.drop_first() == moves@.skip(k + 1));
                    visited = visited + reply.1;
                    assert(legal.contains(mv));
                    let index = choose|i: int| 0 <= i < legal.len() && legal[i] == mv;
                    lemma_best_reply_covers(*position, depth as nat, legal, index);
                    lemma_negamax_bounds(next, (depth - 1) as nat);
                    assert(moves@.take(k + 1).drop_last() == moves@.take(k as int));
                    assert(moves@.take(k + 1).last() == mv);
                    assert(reply_value(*position, mv, depth as nat) == -negamax(
                        next,
                        (depth - 1) as nat,
                    ));
                }
                // A better move: the window narrows.
                if score > alpha {
                    alpha = score;
                }
                // Beta cutoff: the moves that are left cannot matter.
                if alpha >= beta {
                    done = true;
                }
                k = k + 1;
            }
        }
        proof {
            lemma_subtree_nodes_grow(*position, depth as nat, moves@, k as int);
            if !self.interrupted && floor < beta && !done {
                assert(moves@.take(k as int) == moves@);
                lemma_best_reply_bounds(*position, depth as nat, legal);
            }
            if !self.interrupted && !done {
                assert(moves@.skip(k as int).len() == 0);
            }
        }
        Some(alpha)
    }
}

} // verus!
