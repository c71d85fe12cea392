//! The chess rules engine, seen through a narrow interface.
//!
//! Board representation, move generation and move application are the work
//! of the `shakmaty` crate. A [`Position`] carries one of its positions
//! through the search; the functions at the end of this file are the only
//! places where the engine calls into it. What those calls return is named
//! by the uninterpreted functions below: the contracts of the engine are
//! stated over these names.

use vstd::prelude::*;

verus! {

/// A position of standard chess, as shakmaty holds it.
#[verifier::external_type_specification]
#[verifier::external_body]
pub struct ExChess(shakmaty::Chess);

/// A move, as shakmaty holds it.
#[verifier::external_type_specification]
#[verifier::external_body]
pub struct ExMove(shakmaty::Move);

/// `Clone` of shakmaty's `Chess`, which is derived: the copy equals what
/// was copied.
pub assume_specification[ <shakmaty::Chess as Clone>::clone ](chess: &shakmaty::Chess) -> (copy:
    shakmaty::Chess)
    ensures
        copy == *chess,
;

/// The most moves a move list of the rules engine can hold.
pub const MOVE_LIST_CAPACITY: usize = 270;

/// The number of squares of the board.
pub const SQUARES: usize = 64;

#[derive(Clone, Copy, PartialEq, Eq, Structural, Debug)]
pub enum Color {
    Black,
    White,
}

#[derive(Clone, Copy, PartialEq, Eq, Structural, Debug)]
pub enum Role {
    Pawn,
    Knight,
    Bishop,
    Rook,
    Queen,
    King,
}

#[derive(Clone, Copy, PartialEq, Eq, Structural, Debug)]
pub struct Piece {
    pub color: Color,
    pub role: Role,
}

/// A piece together with the square it stands on. Squares are numbered
/// from 0 (a1) to 63 (h8), rank by rank.
#[derive(Clone, Copy, PartialEq, Eq, Structural, Debug)]
pub struct PlacedPiece {
    pub square: u8,
    pub piece: Piece,
}

/// One move of one side: what the engine reads of it, and the move of the
/// rules engine that this was taken from, carried along so that it can be
/// played.
#[derive(Clone, Copy, Debug)]
pub struct Ply {
    role: Role,
    capture: Option<Role>,
    promotion: Option<Role>,
    handle: shakmaty::Move,
}

impl Ply {
    pub closed spec fn spec_role(&self) -> Role {
        self.role
    }

    pub closed spec fn spec_capture(&self) -> Option<Role> {
        self.capture
    }

    pub closed spec fn spec_promotion(&self) -> Option<Role> {
        self.promotion
    }

    /// Role of the piece that moves.
    #[verifier::when_used_as_spec(spec_role)]
    pub fn role(&self) -> (role: Role)
        ensures
            role == self.spec_role(),
    {
        self.role
    }

    /// Role of the captured piece, if the move is a capture.
    #[verifier::when_used_as_spec(spec_capture)]
    pub fn capture(&self) -> (capture: Option<Role>)
        ensures
            capture == self.spec_capture(),
    {
        self.capture
    }

    /// Role promoted to, if the move is a promotion.
    #[verifier::when_used_as_spec(spec_promotion)]
    pub fn promotion(&self) -> (promotion: Option<Role>)
        ensures
            promotion == self.spec_promotion(),
    {
        self.promotion
    }

    pub closed spec fn spec_handle(&self) -> shakmaty::Move {
        self.handle
    }

    /// The move as the rules engine knows it.
    #[verifier::when_used_as_spec(spec_handle)]
    pub fn handle(&self) -> (handle: shakmaty::Move)
        ensures
            handle == self.spec_handle(),
    {
        self.handle
    }
}

/// A snapshot of the full game state. The engine never changes a position
/// in place: playing a move gives a new one.
#[derive(Clone, Debug)]
pub struct Position {
    inner: shakmaty::Chess,
}

impl Position {
    pub closed spec fn spec_chess(&self) -> shakmaty::Chess {
        self.inner
    }

    /// Takes a position of the rules engine into the engine.
    pub fn new(chess: shakmaty::Chess) -> (position: Position)
        ensures
            position.spec_chess() == chess,
    {
        Position { inner: chess }
    }

    /// The position as the rules engine knows it.
    pub fn chess(&self) -> (chess: &shakmaty::Chess)
        ensures
            *chess == self.spec_chess(),
    {
        &self.inner
    }
}

/// The legal moves of a position, in the order in which the rules engine
/// generates them: what `Position::legal_moves` of shakmaty returns.
pub uninterp spec fn legal_moves_of(position: Position) -> Seq<Ply>;

/// The position that a legal move leads to: what `Position::play` of
/// shakmaty returns.
pub uninterp spec fn position_after(position: Position, mv: Ply) -> Position;

/// Whether the king of the side to move is attacked: what
/// `Position::is_check` of shakmaty returns.
pub uninterp spec fn in_check(position: Position) -> bool;

/// Whether neither side has the material to ever deliver mate: what
/// `Position::is_insufficient_material` of shakmaty returns.
pub uninterp spec fn insufficient_material(position: Position) -> bool;

/// The side to move: what `Position::turn` of shakmaty returns.
pub uninterp spec fn side_to_move(position: Position) -> Color;

/// What stands on the board that `Position::board` of shakmaty gives: a
/// map from the numbers of the occupied squares to the pieces on them.
pub uninterp spec fn board_of(position: Position) -> Map<int, Piece>;

/// Whether a move may be played in a position.
pub open spec fn is_legal(position: Position, mv: Ply) -> bool {
    legal_moves_of(position).contains(mv)
}

/// Whether the side to move is checkmated: in check and without a legal
/// move.
pub open spec fn checkmate(position: Position) -> bool {
    in_check(position) && legal_moves_of(position).len() == 0
}

/// Whether the side to move is stalemated: not in check and without a
/// legal move.
pub open spec fn stalemate(position: Position) -> bool {
    !in_check(position) && legal_moves_of(position).len() == 0
}

/// Whether the game is over: no legal move is left, or the material is
/// insufficient.
pub open spec fn game_over(position: Position) -> bool {
    legal_moves_of(position).len() == 0 || insufficient_material(position)
}

/// The pieces on the squares below `limit`, by ascending square.
pub open spec fn pieces_below(board: Map<int, Piece>, limit: nat) -> Seq<PlacedPiece>
    decreases limit,
{
    if limit == 0 {
        Seq::empty()
    } else {
        let square = limit - 1;
        let rest = pieces_below(board, square as nat);
        if board.contains_key(square) {
            rest.push(PlacedPiece { square: square as u8, piece: board[square] })
        } else {
            rest
        }
    }
}

/// The pieces of a position, by ascending square.
pub open spec fn pieces_of(position: Position) -> Seq<PlacedPiece> {
    pieces_below(board_of(position), SQUARES as nat)
}

/// Calls `Position::legal_moves` of shakmaty. Claimed: the result is a
/// function of the position alone, and it holds no more moves than the
/// move list of the rules engine has room for. Each move is handed out
/// with what shakmaty's `Move::role`, `Move::capture` and `Move::promotion`
/// say of it.
#[verifier::external_body]
pub(crate) fn legal_moves(position: &Position) -> (moves: Vec<Ply>)
    ensures
        moves@ == legal_moves_of(*position),
        moves.len() <= MOVE_LIST_CAPACITY,
{
    let role = |r: shakmaty::Role| match r {
        shakmaty::Role::Pawn => Role::Pawn, shakmaty::Role::Knight => Role::Knight,
        shakmaty::Role::Bishop => Role::Bishop, shakmaty::Role::Rook => Role::Rook,
        shakmaty::Role::Queen => Role::Queen, shakmaty::Role::King => Role::King,
    };
    shakmaty::Position::legal_moves(&position.inner).iter().map(|m| Ply {
        role: role(m.role()),
        capture: m.capture().map(role),
        promotion: m.promotion().map(role),
        handle: *m,
    }).collect()
}

/// Calls `Position::play` of shakmaty on a copy of the position. Claimed:
/// for a legal move it succeeds, and the result is a function of the
/// position and the move alone.
#[verifier::external_body]
pub(crate) fn play(position: &Position, mv: &Ply) -> (next: Position)
    requires
        is_legal(*position, *mv),
    ensures
        next == position_after(*position, *mv),
{
    Position { inner: shakmaty::Position::play(position.inner.clone(), mv.handle).unwrap() }
}

/// Calls `Position::is_check` of shakmaty.
#[verifier::external_body]
pub(crate) fn is_check(position: &Position) -> (r: bool)
    ensures
        r == in_check(*position),
{
    shakmaty::Position::is_check(&position.inner)
}

/// Calls `Position::is_checkmate` of shakmaty: the side to move is in
/// check and has no legal move.
#[verifier::external_body]
pub(crate) fn is_checkmate(position: &Position) -> (r: bool)
    ensures
        r == checkmate(*position),
{
    shakmaty::Position::is_checkmate(&position.inner)
}

/// Calls `Position::is_stalemate` of shakmaty: the side to move is not in
/// check and has no legal move.
#[verifier::external_body]
pub(crate) fn is_stalemate(position: &Position) -> (r: bool)
    ensures
        r == stalemate(*position),
{
    shakmaty::Position::is_stalemate(&position.inner)
}

/// Calls `Position::is_insufficient_material` of shakmaty.
#[verifier::external_body]
pub(crate) fn is_insufficient_material(position: &Position) -> (r: bool)
    ensures
        r == insufficient_material(*position),
{
    shakmaty::Position::is_insufficient_material(&position.inner)
}

/// Calls `Position::is_game_over` of shakmaty: in standard chess the game
/// is over when there is no legal move or the material is insufficient.
#[verifier::external_body]
pub(crate) fn is_game_over(position: &Position) -> (r: bool)
    ensures
        r == game_over(*position),
{
    shakmaty::Position::is_game_over(&position.inner)
}

/// Calls `Position::turn` of shakmaty.
#[verifier::external_body]
pub(crate) fn turn(position: &Position) -> (color: Color)
    ensures
        color == side_to_move(*position),
{
    match shakmaty::Position::turn(&position.inner) {
        shakmaty::Color::Black => Color::Black,
        shakmaty::Color::White => Color::White,
    }
}

/// Walks the board that `Position::board` of shakmaty gives. Claimed: the
/// walk visits each occupied square once, by ascending square number, and
/// hands out the piece that stands there.
#[verifier::external_body]
pub(crate) fn pieces(position: &Position) -> (placed: Vec<PlacedPiece>)
    ensures
        placed@ == pieces_below(board_of(*position), SQUARES as nat),
{
    shakmaty::Position::board(&position.inner).iter().map(|(square, piece)| PlacedPiece {
        square: u8::from(square),
        piece: Piece {
            color: match piece.color {
                shakmaty::Color::Black => Color::Black, shakmaty::Color::White => Color::White,
            },
            role: match piece.role {
                shakmaty::Role::Pawn => Role::Pawn, shakmaty::Role::Knight => Role::Knight,
                shakmaty::Role::Bishop => Role::Bishop, shakmaty::Role::Rook => Role::Rook,
                shakmaty::Role::Queen => Role::Queen, shakmaty::Role::King => Role::King,
            },
        },
    }).collect()
}

} // verus!
