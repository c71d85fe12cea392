//! A chess move-selection engine: iterative-deepening negamax search with
//! alpha-beta pruning over the legal-move tree, a tapered static evaluator
//! and a move-ordering heuristic, with every function verified against a
//! mathematical model of the game tree.

use vstd::prelude::*;
use crate::rules::{Ply, Position};

pub mod rules;
pub mod scoring;
pub mod search;

verus! {

/// A score, always seen from the side to move.
pub type Score = i32;

/// Upper end of the search window.
pub const MAX_SCORE: Score = 2_147_483_647;

/// Lower end of the search window. It is the negation of [`MAX_SCORE`], so
/// that every score inside the window can be negated.
pub const MIN_SCORE: Score = -2_147_483_647;

/// Score of a side that is checkmated with no search depth left. It lies
/// far below every material and positional score and far enough above
/// [`MIN_SCORE`] that the depth adjustment never leaves the window.
pub const MATE_SCORE: Score = -2_000_000_000;

/// What one ply of remaining depth adds to the magnitude of a mate score.
pub const MATE_DEPTH_STEP: Score = 5;

/// How far a search may go.
#[derive(Clone, Copy, Debug)]
pub enum SearchControl {
    /// Search to the given depth, in plies.
    ToDepth(u8),
    /// Search for about the given time, in milliseconds.
    TimeLimit(u64),
}

/// What the actor may be told.
#[derive(Clone, Debug)]
pub enum SearchCommand {
    /// Begin a new search.
    Start { position: Position, control: SearchControl },
    /// Abandon the search in progress; the actor stays.
    Stop,
    /// End the actor.
    Quit,
}

/// What the actor tells.
#[derive(Clone, Debug)]
pub enum SearchInfo {
    /// The move that a search settled on.
    BestMove(Ply),
    /// The outcome of one completed depth: the principal variation, its
    /// score and the nodes visited at that depth.
    Info { depth: u8, pv: Vec<Ply>, score: i32, nodes: u64 },
}

} // verus!
