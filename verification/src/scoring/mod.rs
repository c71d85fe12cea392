//! Static evaluation of positions and the ordering key of moves.

use vstd::prelude::*;
use crate::rules::{
    board_of, checkmate, in_check, insufficient_material, is_check, is_checkmate,
    is_insufficient_material, is_legal, is_stalemate, legal_moves, legal_moves_of, pieces,
    pieces_below, pieces_of, play, position_after, side_to_move, stalemate, turn, Color,
    PlacedPiece, Ply, Position, Role, MOVE_LIST_CAPACITY, SQUARES,
};
use crate::scoring::tables::{
    endgame, endgame_bonus, lemma_bonus_bounds, midgame, midgame_bonus, MAX_BONUS, MIN_BONUS,
};
use crate::{Score, MATE_DEPTH_STEP, MATE_SCORE, MAX_SCORE, MIN_SCORE};

pub mod laws;
pub mod tables;

verus! {

/// Base of the key of a capture: large enough that every capture sorts
/// ahead of every other move.
pub const CAPTURE_BASE: Score = 1_000_000;

/// Base of the key of a promotion that captures nothing.
pub const PROMOTION_BASE: Score = 100_000;

/// Key of a move that gives check and neither captures nor promotes.
pub const CHECK_BONUS: Score = 5_000;

/// Key of a quiet move.
pub const QUIET_BASE: Score = 0;

/// What one legal move of the side to move is worth.
pub const MOBILITY_FACTOR: Score = 2;

/// The game phase at which the midgame tables count alone.
pub const MAX_PHASE: i32 = 24;

/// The most a single piece can add to or take from a score: the value of
/// a king and the largest blended bonus that a board can give rise to.
pub const MAX_PIECE_WORTH: Score = 11_220;

/// The largest magnitude of the score of a position in which the game
/// goes on: sixty-four pieces and a full move list.
pub const MAX_STATIC_SCORE: Score = 718_620;

// ---------------------------------------------------------------------
// Material
// ---------------------------------------------------------------------

/// The material value of a role.
pub open spec fn value_of(role: Role) -> int {
    match role {
        Role::Pawn => 100,
        Role::Knight => 320,
        Role::Bishop => 330,
        Role::Rook => 500,
        Role::Queen => 900,
        Role::King => 10000,
    }
}

pub fn piece_value(role: Role) -> (value: Score)
    ensures
        value == value_of(role),
{
    match role {
        Role::Pawn => 100,
        Role::Knight => 320,
        Role::Bishop => 330,
        Role::Rook => 500,
        Role::Queen => 900,
        Role::King => 10000,
    }
}

// ---------------------------------------------------------------------
// Placement
// ---------------------------------------------------------------------

/// The square that mirrors `index` across the middle of the board: the
/// same file, the rank counted from the other side.
pub open spec fn mirrored(index: int) -> int {
    (7 - index / 8) * 8 + index % 8
}

pub fn mirror_idx(idx: usize) -> (mirror: usize)
    requires
        idx < 64,
    ensures
        mirror == mirrored(idx as int),
        mirror < 64,
{
    let file = idx % 8;
    let rank = idx / 8;
    let mirrored_rank = 7 - rank;
    mirrored_rank * 8 + file
}

/// Where a piece is looked up in the tables: White reads them as written,
/// Black reads them mirrored.
pub open spec fn table_index(placed: PlacedPiece) -> int {
    match placed.piece.color {
        Color::White => placed.square as int,
        Color::Black => mirrored(placed.square as int),
    }
}

/// What a role adds to the game phase.
pub open spec fn phase_weight(role: Role) -> int {
    match role {
        Role::Pawn => 0,
        Role::King => 0,
        Role::Knight => 1,
        Role::Bishop => 1,
        Role::Rook => 2,
        Role::Queen => 4,
    }
}

/// The game phase of a set of pieces: the sum of their phase weights. It
/// is [`MAX_PHASE`] with the full starting material and falls as pieces
/// are traded off.
pub open spec fn phase_of(placed: Seq<PlacedPiece>) -> int
    decreases placed.len(),
{
    if placed.len() == 0 {
        0
    } else {
        phase_of(placed.drop_last()) + phase_weight(placed.last().piece.role)
    }
}

pub proof fn lemma_phase_bounds(placed: Seq<PlacedPiece>)
    ensures
        0 <= phase_of(placed) <= 4 * placed.len(),
    decreases placed.len(),
{
    if placed.len() > 0 {
        lemma_phase_bounds(placed.drop_last());
    }
}

pub fn game_phase(placed: &Vec<PlacedPiece>) -> (phase: i32)
    requires
        4 * placed.len() <= i32::MAX,
    ensures
        phase == phase_of(placed@),
{
    let mut phase: i32 = 0;
    let mut i: usize = 0;
    while i < placed.len()
        invariant
            i <= placed.len(),
            4 * placed.len() <= i32::MAX,
            phase == phase_of(placed@.take(i as int)),
            0 <= phase <= 4 * i,
        decreases placed.len() - i,
    {
        let weight: i32 = match placed[i].piece.role {
            Role::Pawn => 0,
            Role::King => 0,
            Role::Knight => 1,
            Role::Bishop => 1,
            Role::Rook => 2,
            Role::Queen => 4,
        };
        proof {
            assert(placed@.take(i + 1).drop_last() == placed@.take(i as int));
        }
        phase = phase + weight;
        i = i + 1;
    }
    proof {
        assert(placed@.take(placed.len() as int) == placed@);
    }
    phase
}

/// The quotient of an integer by a positive one, rounded towards zero.
pub open spec fn truncated_quotient(numerator: int, divisor: int) -> int {
    if numerator >= 0 {
        numerator / divisor
    } else {
        -((-numerator) / divisor)
    }
}

/// The midgame and endgame bonus blended linearly by the game phase: the
/// midgame bonus weighs `phase`, the endgame bonus the rest of `max_phase`.
pub open spec fn blend(mg: int, eg: int, phase: int, max_phase: int) -> int {
    truncated_quotient(mg * phase + eg * (max_phase - phase), max_phase)
}

pub fn blend_pst(mg: Score, eg: Score, phase: i32, max_phase: i32) -> (blended: Score)
    requires
        max_phase > 0,
        i32::MIN <= mg * phase <= i32::MAX,
        i32::MIN <= max_phase - phase <= i32::MAX,
        i32::MIN <= eg * (max_phase - phase) <= i32::MAX,
        i32::MIN <= mg * phase + eg * (max_phase - phase) <= i32::MAX,
    ensures
        blended == blend(mg as int, eg as int, phase as int, max_phase as int),
{
    (mg * phase + eg * (max_phase - phase)) / max_phase
}

/// What a piece is worth at a game phase: its material value and the
/// blended bonus of the square it stands on.
pub open spec fn worth(placed: PlacedPiece, phase: int) -> int {
    value_of(placed.piece.role) + blend(
        midgame_bonus(placed.piece.role, table_index(placed)),
        endgame_bonus(placed.piece.role, table_index(placed)),
        phase,
        MAX_PHASE as int,
    )
}

/// The worth of a piece as the side `turn` sees it: its own pieces count
/// for it, the opponent's against it.
pub open spec fn signed_worth(placed: PlacedPiece, turn: Color, phase: int) -> int {
    if placed.piece.color == turn {
        worth(placed, phase)
    } else {
        -worth(placed, phase)
    }
}

/// The sum of the signed worth of all pieces.
pub open spec fn balance(placed: Seq<PlacedPiece>, turn: Color, phase: int) -> int
    decreases placed.len(),
{
    if placed.len() == 0 {
        0
    } else {
        balance(placed.drop_last(), turn, phase) + signed_worth(placed.last(), turn, phase)
    }
}

/// The score of a position in which the game goes on: the balance of the
/// pieces at their game phase, and the mobility bonus.
pub open spec fn static_value(placed: Seq<PlacedPiece>, turn: Color, mobility: int) -> int {
    balance(placed, turn, phase_of(placed)) + MOBILITY_FACTOR * mobility
}

/// Whether a list of pieces fits on a board.
pub open spec fn on_board(placed: Seq<PlacedPiece>) -> bool {
    &&& placed.len() <= SQUARES
    &&& forall|i: int| 0 <= i < placed.len() ==> (#[trigger] placed[i]).square < SQUARES
}

proof fn lemma_blend_bounds(mg: int, eg: int, phase: int)
    requires
        MIN_BONUS <= mg <= MAX_BONUS,
        MIN_BONUS <= eg <= MAX_BONUS,
        0 <= phase <= 4 * SQUARES,
    ensures
        -15360 <= mg * phase <= 15360,
        -13920 <= eg * (MAX_PHASE - phase) <= 13920,
        -1220 <= blend(mg, eg, phase, MAX_PHASE as int) <= 1220,
{
    assert(-15360 <= mg * phase <= 15360) by (nonlinear_arith)
        requires
            -50 <= mg <= 60,
            0 <= phase <= 256,
    ;
    assert(-13920 <= eg * (24 - phase) <= 13920) by (nonlinear_arith)
        requires
            -50 <= eg <= 60,
            0 <= phase <= 256,
    ;
}

proof fn lemma_mirrored_on_board(index: int)
    requires
        0 <= index < 64,
    ensures
        0 <= mirrored(index) < 64,
{
}

/// No piece on the board is worth more than [`MAX_PIECE_WORTH`] to either
/// side.
pub proof fn lemma_worth_bounds(placed: PlacedPiece, phase: int)
    requires
        placed.square < SQUARES,
        0 <= phase <= 4 * SQUARES,
    ensures
        -MAX_PIECE_WORTH <= worth(placed, phase) <= MAX_PIECE_WORTH,
{
    let index = table_index(placed);
    lemma_mirrored_on_board(placed.square as int);
    lemma_bonus_bounds(placed.piece.role, index);
    lemma_blend_bounds(
        midgame_bonus(placed.piece.role, index),
        endgame_bonus(placed.piece.role, index),
        phase,
    );
}

pub proof fn lemma_balance_bounds(placed: Seq<PlacedPiece>, turn: Color, phase: int)
    requires
        forall|i: int| 0 <= i < placed.len() ==> (#[trigger] placed[i]).square < SQUARES,
        0 <= phase <= 4 * SQUARES,
    ensures
        -MAX_PIECE_WORTH * placed.len() <= balance(placed, turn, phase) <= MAX_PIECE_WORTH
            * placed.len(),
    decreases placed.len(),
{
    if placed.len() > 0 {
        lemma_balance_bounds(placed.drop_last(), turn, phase);
        lemma_worth_bounds(placed.last(), phase);
    }
}

pub proof fn lemma_static_value_bounds(placed: Seq<PlacedPiece>, turn: Color, mobility: int)
    requires
        on_board(placed),
        0 <= mobility <= MOVE_LIST_CAPACITY,
    ensures
        -MAX_STATIC_SCORE <= static_value(placed, turn, mobility) <= MAX_STATIC_SCORE,
{
    lemma_phase_bounds(placed);
    lemma_balance_bounds(placed, turn, phase_of(placed));
    assert(MAX_PIECE_WORTH * placed.len() <= 718_080) by (nonlinear_arith)
        requires
            placed.len() <= 64,
    ;
}

/// The score of the pieces and the mobility that the rules engine reports
/// for a position in which the game goes on.
pub fn static_score(placed: &Vec<PlacedPiece>, turn: Color, mobility: usize) -> (score: Score)
    requires
        on_board(placed@),
        mobility <= MOVE_LIST_CAPACITY,
    ensures
        score == static_value(placed@, turn, mobility as int),
{
    let phase = game_phase(placed);
    proof {
        lemma_phase_bounds(placed@);
    }
    let mut score: Score = 0;
    let mut i: usize = 0;
    while i < placed.len()
        invariant
            i <= placed.len(),
            on_board(placed@),
            phase == phase_of(placed@),
            0 <= phase <= 4 * SQUARES,
            score == balance(placed@.take(i as int), turn, phase as int),
            -11_220 * i <= score <= 11_220 * i,
        decreases placed.len() - i,
    {
        let piece = placed[i].piece;
        let square = placed[i].square as usize;
        let idx = match piece.color {
            Color::White => square,
            Color::Black => mirror_idx(square),
        };
        let mg = midgame(piece.role, idx);
        let eg = endgame(piece.role, idx);
        proof {
            assert(placed@.take(i + 1).drop_last() == placed@.take(i as int));
            lemma_blend_bounds(mg as int, eg as int, phase as int);
            lemma_worth_bounds(placed[i as int], phase as int);
        }
        let mat = piece_value(piece.role);
        let pst = blend_pst(mg, eg, phase, MAX_PHASE);
        if piece.color == turn {
            score = score + (mat + pst);
        } else {
            score = score - (mat + pst);
        }
        i = i + 1;
    }
    proof {
        assert(placed@.take(placed.len() as int) == placed@);
    }
    score + (mobility as Score) * MOBILITY_FACTOR
}

// ---------------------------------------------------------------------
// Evaluation
// ---------------------------------------------------------------------

/// The number of legal moves of the side to move, as far as a move list
/// of the rules engine can hold them.
pub open spec fn mobility(position: Position) -> int {
    if legal_moves_of(position).len() <= MOVE_LIST_CAPACITY {
        legal_moves_of(position).len() as int
    } else {
        MOVE_LIST_CAPACITY as int
    }
}

/// The score of a side that is checkmated with `depth` plies of search
/// left: the more depth is left, the sooner the mate comes and the
/// further the score lies from zero.
pub open spec fn mate_value(depth: int) -> int {
    MATE_SCORE - MATE_DEPTH_STEP * depth
}

/// The score of a position for the side to move, found with `depth` plies
/// of search left.
pub open spec fn evaluation(position: Position, depth: int) -> int {
    if checkmate(position) {
        mate_value(depth)
    } else if stalemate(position) || insufficient_material(position) {
        0
    } else {
        static_value(pieces_of(position), side_to_move(position), mobility(position))
    }
}

/// Whatever a map of squares to pieces holds, what it lists below a limit
/// of at most 64 fits on a board.
pub proof fn lemma_pieces_below(board: Map<int, crate::rules::Piece>, limit: nat)
    requires
        limit <= SQUARES,
    ensures
        pieces_below(board, limit).len() <= limit,
        forall|i: int|
            0 <= i < pieces_below(board, limit).len() ==> (#[trigger] pieces_below(
                board,
                limit,
            )[i]).square < limit,
    decreases limit,
{
    if limit > 0 {
        lemma_pieces_below(board, (limit - 1) as nat);
    }
}

/// The evaluation of a position never leaves the search window, and
/// short of checkmate it stays within [`MAX_STATIC_SCORE`] of zero.
pub proof fn lemma_evaluation_bounds(position: Position, depth: int)
    requires
        0 <= depth <= u8::MAX,
    ensures
        MIN_SCORE < evaluation(position, depth) < MAX_SCORE,
        !checkmate(position) ==> -MAX_STATIC_SCORE <= evaluation(position, depth)
            <= MAX_STATIC_SCORE,
        checkmate(position) ==> evaluation(position, depth) == mate_value(depth),
{
    lemma_pieces_below(board_of(position), SQUARES as nat);
    lemma_static_value_bounds(pieces_of(position), side_to_move(position), mobility(position));
}

pub fn evaluate(position: &Position, depth: u8) -> (score: Score)
    ensures
        score == evaluation(*position, depth as int),
        MIN_SCORE < score < MAX_SCORE,
{
    proof {
        lemma_evaluation_bounds(*position, depth as int);
    }
    // A lost game: the sooner the mate, the further from zero.
    if is_checkmate(position) {
        return MATE_SCORE - (depth as Score) * MATE_DEPTH_STEP;
    }
    // A drawn game.
    if is_stalemate(position) || is_insufficient_material(position) {
        return 0;
    }
    let placed = pieces(position);
    let moves = legal_moves(position);
    proof {
        lemma_pieces_below(board_of(*position), SQUARES as nat);
    }
    static_score(&placed, turn(position), moves.len())
}

// ---------------------------------------------------------------------
// Move ordering
// ---------------------------------------------------------------------

/// The key of a capture: the more the victim is worth and the less the
/// attacker, the smaller the key.
pub open spec fn capture_key(attacker: Role, victim: Role) -> int {
    -(CAPTURE_BASE + (value_of(victim) * 10 - value_of(attacker)))
}

/// The key by which the moves of a position are sorted; the move with the
/// smallest key is searched first.
pub open spec fn order_key(position: Position, mv: Ply) -> int {
    if let Some(victim) = mv.capture() {
        capture_key(mv.role(), victim)
    } else if let Some(promotion) = mv.promotion() {
        -(PROMOTION_BASE + value_of(promotion))
    } else if in_check(position_after(position, mv)) {
        -CHECK_BONUS
    } else {
        -QUIET_BASE
    }
}

/// The sort key of a move. A move that neither captures nor promotes is
/// played on a copy of the position to see whether it gives check, so it
/// has to be legal there.
pub fn score_move(position: &Position, mv: &Ply) -> (key: Score)
    requires
        mv.capture() is None && mv.promotion() is None ==> is_legal(*position, *mv),
    ensures
        key == order_key(*position, *mv),
{
    let attacker = mv.role();

    if let Some(victim) = mv.capture() {
        let victim_value = piece_value(victim);
        let attacker_value = piece_value(attacker);
        let mvv_lva_score = victim_value * 10 - attacker_value;
        return -(CAPTURE_BASE + mvv_lva_score);
    }
    if let Some(promotion) = mv.promotion() {
        let promotion_value = piece_value(promotion);
        return -(PROMOTION_BASE + promotion_value);
    }
    let next = play(position, mv);
    if is_check(&next) {
        return -CHECK_BONUS;
    }
    -QUIET_BASE
}

} // verus!
