//! Piece-square tables: for each role a midgame and an endgame table of
//! bonuses by square, written from White's side with a1 first.

use vstd::prelude::*;
use crate::rules::Role;
use crate::Score;

verus! {

pub const PAWN_PST_MG: [Score; 64] = [
    0, 0, 0, 0, 0, 0, 0, 0,
    5, 10, 10, -20, -20, 10, 10, 5,
    5, -5, -10, 0, 0, -10, -5, 5,
    0, 0, 0, 20, 20, 0, 0, 0,
    5, 5, 10, 25, 25, 10, 5, 5,
    10, 10, 20, 30, 30, 20, 10, 10,
    50, 50, 50, 50, 50, 50, 50, 50,
    0, 0, 0, 0, 0, 0, 0, 0,
];

pub const PAWN_PST_EG: [Score; 64] = [
    0, 0, 0, 0, 0, 0, 0, 0,
    10, 15, 15, -10, -10, 15, 15, 10,
    10, 0, -5, 5, 5, -5, 0, 10,
    0, 5, 10, 25, 25, 10, 5, 0,
    10, 10, 20, 35, 35, 20, 10, 10,
    15, 15, 25, 35, 35, 25, 15, 15,
    60, 60, 60, 60, 60, 60, 60, 60,
    0, 0, 0, 0, 0, 0, 0, 0,
];

pub const KNIGHT_PST_MG: [Score; 64] = [
    -50, -40, -30, -30, -30, -30, -40, -50,
    -40, -20, 0, 0, 0, 0, -20, -40,
    -30, 0, 10, 15, 15, 10, 0, -30,
    -30, 5, 15, 20, 20, 15, 5, -30,
    -30, 0, 15, 20, 20, 15, 0, -30,
    -30, 5, 10, 15, 15, 10, 5, -30,
    -40, -20, 0, 5, 5, 0, -20, -40,
    -50, -40, -30, -30, -30, -30, -40, -50,
];

pub const KNIGHT_PST_EG: [Score; 64] = [
    -40, -30, -25, -25, -25, -25, -30, -40,
    -30, -15, -5, -5, -5, -5, -15, -30,
    -25, -5, 5, 10, 10, 5, -5, -25,
    -25, 0, 10, 15, 15, 10, 0, -25,
    -25, -5, 10, 15, 15, 10, -5, -25,
    -25, 0, 5, 10, 10, 5, 0, -25,
    -30, -15, -5, 0, 0, -5, -15, -30,
    -40, -30, -25, -25, -25, -25, -30, -40,
];

pub const BISHOP_PST_MG: [Score; 64] = [
    -20, -10, -10, -10, -10, -10, -10, -20,
    -10, 0, 0, 0, 0, 0, 0, -10,
    -10, 0, 5, 10, 10, 5, 0, -10,
    -10, 5, 5, 10, 10, 5, 5, -10,
    -10, 0, 10, 10, 10, 10, 0, -10,
    -10, 10, 10, 10, 10, 10, 10, -10,
    -10, 5, 0, 0, 0, 0, 5, -10,
    -20, -10, -10, -10, -10, -10, -10, -20,
];

pub const BISHOP_PST_EG: [Score; 64] = [
    -15, -5, -5, -5, -5, -5, -5, -15,
    -5, 5, 5, 5, 5, 5, 5, -5,
    -5, 5, 10, 15, 15, 10, 5, -5,
    -5, 10, 10, 15, 15, 10, 10, -5,
    -5, 5, 15, 15, 15, 15, 5, -5,
    -5, 10, 15, 15, 15, 15, 10, -5,
    -5, 5, 5, 5, 5, 5, 5, -5,
    -15, -5, -5, -5, -5, -5, -5, -15,
];

pub const ROOK_PST_MG: [Score; 64] = [
    0, 0, 0, 0, 0, 0, 0, 0,
    5, 10, 10, 10, 10, 10, 10, 5,
    -5, 0, 0, 0, 0, 0, 0, -5,
    -5, 0, 0, 0, 0, 0, 0, -5,
    -5, 0, 0, 0, 0, 0, 0, -5,
    -5, 0, 0, 0, 0, 0, 0, -5,
    -5, 0, 0, 0, 0, 0, 0, -5,
    0, 0, 0, 5, 5, 0, 0, 0,
];

pub const ROOK_PST_EG: [Score; 64] = [
    0, 0, 5, 10, 10, 5, 0, 0,
    5, 10, 15, 15, 15, 15, 10, 5,
    0, 5, 10, 15, 15, 10, 5, 0,
    0, 5, 10, 15, 15, 10, 5, 0,
    0, 5, 10, 15, 15, 10, 5, 0,
    0, 5, 10, 15, 15, 10, 5, 0,
    -5, 0, 5, 10, 10, 5, 0, -5,
    0, 0, 0, 5, 5, 0, 0, 0,
];

pub const QUEEN_PST_MG: [Score; 64] = [
    -20, -10, -10, -5, -5, -10, -10, -20,
    -10, 0, 0, 0, 0, 0, 0, -10,
    -10, 0, 5, 5, 5, 5, 0, -10,
    -5, 0, 5, 5, 5, 5, 0, -5,
    0, 0, 5, 5, 5, 5, 0, -5,
    -10, 5, 5, 5, 5, 5, 0, -10,
    -10, 0, 5, 0, 0, 0, 0, -10,
    -20, -10, -10, -5, -5, -10, -10, -20,
];

pub const QUEEN_PST_EG: [Score; 64] = [
    -15, -10, -5, -5, -5, -5, -10, -15,
    -10, 0, 0, 0, 0, 0, 0, -10,
    -5, 0, 5, 10, 10, 5, 0, -5,
    -5, 0, 10, 15, 15, 10, 0, -5,
    -5, 0, 10, 15, 15, 10, 0, -5,
    -5, 0, 5, 10, 10, 5, 0, -5,
    -10, 0, 0, 5, 5, 0, 0, -10,
    -15, -10, -5, -5, -5, -5, -10, -15,
];

pub const KING_PST_MG: [Score; 64] = [
    -30, -40, -40, -50, -50, -40, -40, -30,
    -30, -40, -40, -50, -50, -40, -40, -30,
    -30, -40, -40, -50, -50, -40, -40, -30,
    -30, -40, -40, -50, -50, -40, -40, -30,
    -20, -30, -30, -40, -40, -30, -30, -20,
    -10, -20, -20, -20, -20, -20, -20, -10,
    20, 20, 0, 0, 0, 0, 20, 20,
    20, 30, 10, 0, 0, 10, 30, 20,
];

pub const KING_PST_EG: [Score; 64] = [
    -50, -40, -30, -20, -20, -30, -40, -50,
    -30, -20, -10, 0, 0, -10, -20, -30,
    -30, -10, 20, 30, 30, 20, -10, -30,
    -30, -10, 30, 40, 40, 30, -10, -30,
    -30, -10, 30, 40, 40, 30, -10, -30,
    -30, -10, 20, 30, 30, 20, -10, -30,
    -30, -20, -10, 0, 0, -10, -20, -30,
    -50, -40, -30, -20, -20, -30, -40, -50,
];

/// The midgame bonus of a role on a square of its table.
pub open spec fn midgame_bonus(role: Role, index: int) -> int {
    match role {
        Role::Pawn => PAWN_PST_MG[index] as int,
        Role::Knight => KNIGHT_PST_MG[index] as int,
        Role::Bishop => BISHOP_PST_MG[index] as int,
        Role::Rook => ROOK_PST_MG[index] as int,
        Role::Queen => QUEEN_PST_MG[index] as int,
        Role::King => KING_PST_MG[index] as int,
    }
}

/// The endgame bonus of a role on a square of its table.
pub open spec fn endgame_bonus(role: Role, index: int) -> int {
    match role {
        Role::Pawn => PAWN_PST_EG[index] as int,
        Role::Knight => KNIGHT_PST_EG[index] as int,
        Role::Bishop => BISHOP_PST_EG[index] as int,
        Role::Rook => ROOK_PST_EG[index] as int,
        Role::Queen => QUEEN_PST_EG[index] as int,
        Role::King => KING_PST_EG[index] as int,
    }
}

/// The smallest entry of any table.
pub const MIN_BONUS: Score = -50;

/// The largest entry of any table.
pub const MAX_BONUS: Score = 60;

pub fn midgame(role: Role, index: usize) -> (bonus: Score)
    requires
        index < 64,
    ensures
        bonus == midgame_bonus(role, index as int),
        MIN_BONUS <= bonus <= MAX_BONUS,
{
    match role {
        Role::Pawn => PAWN_PST_MG[index],
        Role::Knight => KNIGHT_PST_MG[index],
        Role::Bishop => BISHOP_PST_MG[index],
        Role::Rook => ROOK_PST_MG[index],
        Role::Queen => QUEEN_PST_MG[index],
        Role::King => KING_PST_MG[index],
    }
}

pub fn endgame(role: Role, index: usize) -> (bonus: Score)
    requires
        index < 64,
    ensures
        bonus == endgame_bonus(role, index as int),
        MIN_BONUS <= bonus <= MAX_BONUS,
{
    match role {
        Role::Pawn => PAWN_PST_EG[index],
        Role::Knight => KNIGHT_PST_EG[index],
        Role::Bishop => BISHOP_PST_EG[index],
        Role::Rook => ROOK_PST_EG[index],
        Role::Queen => QUEEN_PST_EG[index],
        Role::King => KING_PST_EG[index],
    }
}

/// Every entry of every table lies between the two bounds.
pub proof fn lemma_bonus_bounds(role: Role, index: int)
    requires
        0 <= index < 64,
    ensures
        MIN_BONUS <= midgame_bonus(role, index) <= MAX_BONUS,
        MIN_BONUS <= endgame_bonus(role, index) <= MAX_BONUS,
{
}

} // verus!
