use chess_search::rules::{Color, Piece, PlacedPiece, Ply, Position, Role};
use chess_search::scoring::{
    blend_pst, evaluate, game_phase, mirror_idx, piece_value, score_move, static_score,
};
use chess_search::search::negamax::ordered_moves;
use chess_search::{MATE_SCORE, MAX_SCORE, MIN_SCORE};
use shakmaty::{CastlingMode, Chess, Square};

fn position_from(fen: &str) -> Position {
    let fen: shakmaty::fen::Fen = fen.parse().unwrap();
    Position::new(fen.into_position::<Chess>(CastlingMode::Standard).unwrap())
}

fn chess_from(fen: &str) -> Chess {
    let fen: shakmaty::fen::Fen = fen.parse().unwrap();
    fen.into_position::<Chess>(CastlingMode::Standard).unwrap()
}

fn placed(square: u8, color: Color, role: Role) -> PlacedPiece {
    PlacedPiece { square, piece: Piece { color, role } }
}

fn find(position: &Position, from: Square, to: Square) -> Ply {
    ordered_moves(position)
        .into_iter()
        .find(|ply| ply.handle().from() == Some(from) && ply.handle().to() == to)
        .unwrap()
}

const FOOLS_MATE: &str = "rnb1kbnr/pppp1ppp/8/4p3/6Pq/5P2/PPPPP2P/RNBQKBNR w KQkq - 1 3";
const STALEMATE: &str = "7k/5Q2/6K1/8/8/8/8/8 b - - 0 1";
const BARE_KINGS: &str = "8/8/8/4k3/8/8/4K3/8 w - - 0 1";

#[test]
fn piece_values() {
    assert_eq!(piece_value(Role::Pawn), 100);
    assert_eq!(piece_value(Role::Knight), 320);
    assert_eq!(piece_value(Role::Bishop), 330);
    assert_eq!(piece_value(Role::Rook), 500);
    assert_eq!(piece_value(Role::Queen), 900);
    assert_eq!(piece_value(Role::King), 10000);
}

#[test]
fn mirror_keeps_the_file_and_flips_the_rank() {
    assert_eq!(mirror_idx(0), 56);
    assert_eq!(mirror_idx(7), 63);
    assert_eq!(mirror_idx(56), 0);
    assert_eq!(mirror_idx(63), 7);
    assert_eq!(mirror_idx(12), 52);
    assert_eq!(mirror_idx(28), 36);
    assert_eq!(mirror_idx(36), 28);
}

#[test]
fn mirror_twice_is_the_square_itself() {
    for square in 0..64 {
        assert_eq!(mirror_idx(mirror_idx(square)), square);
        assert_eq!(mirror_idx(square) % 8, square % 8);
    }
}

#[test]
fn blend_at_the_ends_of_the_phase() {
    assert_eq!(blend_pst(20, -30, 24, 24), 20);
    assert_eq!(blend_pst(20, -30, 0, 24), -30);
}

#[test]
fn blend_rounds_towards_zero() {
    // (20 * 12 + 25 * 12) / 24 = 540 / 24 = 22.5
    assert_eq!(blend_pst(20, 25, 12, 24), 22);
    // (-50 * 1 + -40 * 23) / 24 = -970 / 24 = -40.4...
    assert_eq!(blend_pst(-50, -40, 1, 24), -40);
    // (-20 * 12 + -25 * 12) / 24 = -22.5
    assert_eq!(blend_pst(-20, -25, 12, 24), -22);
}

#[test]
fn blend_beyond_the_full_phase() {
    // (10 * 30 + 40 * (24 - 30)) / 24 = 60 / 24 = 2.5
    assert_eq!(blend_pst(10, 40, 30, 24), 2);
}

#[test]
fn game_phase_weighs_the_pieces() {
    let pieces = vec![
        placed(0, Color::White, Role::Rook),
        placed(1, Color::White, Role::Knight),
        placed(2, Color::White, Role::Bishop),
        placed(3, Color::White, Role::Queen),
        placed(4, Color::White, Role::King),
        placed(8, Color::White, Role::Pawn),
        placed(59, Color::Black, Role::Queen),
        placed(60, Color::Black, Role::King),
    ];
    assert_eq!(game_phase(&pieces), 2 + 1 + 1 + 4 + 4);
    assert_eq!(game_phase(&Vec::new()), 0);
}

#[test]
fn static_score_of_a_lone_pawn() {
    // Phase 0: the endgame table counts alone. A pawn on e4 has 25 there.
    let pieces = vec![placed(28, Color::White, Role::Pawn)];
    assert_eq!(static_score(&pieces, Color::White, 0), 125);
    assert_eq!(static_score(&pieces, Color::Black, 0), -125);
    assert_eq!(static_score(&pieces, Color::White, 7), 125 + 14);
}

#[test]
fn static_score_reads_the_tables_mirrored_for_black() {
    // A black pawn on e5 stands where a white pawn on e4 stands.
    let white = vec![placed(28, Color::White, Role::Pawn)];
    let black = vec![placed(36, Color::Black, Role::Pawn)];
    assert_eq!(static_score(&white, Color::White, 0), static_score(&black, Color::Black, 0));
    // A black pawn on e7 has not moved: -10 in the endgame table.
    let home = vec![placed(52, Color::Black, Role::Pawn)];
    assert_eq!(static_score(&home, Color::Black, 0), 90);
}

#[test]
fn static_score_blends_by_phase() {
    // A white knight on c3 (18) and a black rook on a8 (56): phase 3.
    // Knight: 320 + (10 * 3 + 5 * 21) / 24 = 320 + 5 = 325.
    // Rook, mirrored to a1: 500 + (0 * 3 + 0 * 21) / 24 = 500.
    let pieces =
        vec![placed(18, Color::White, Role::Knight), placed(56, Color::Black, Role::Rook)];
    assert_eq!(static_score(&pieces, Color::White, 0), 325 - 500);
    assert_eq!(static_score(&pieces, Color::Black, 3), 500 - 325 + 6);
}

#[test]
fn static_score_is_zero_sum() {
    let pieces = vec![
        placed(4, Color::White, Role::King),
        placed(11, Color::White, Role::Queen),
        placed(18, Color::White, Role::Knight),
        placed(33, Color::White, Role::Pawn),
        placed(60, Color::Black, Role::King),
        placed(58, Color::Black, Role::Bishop),
        placed(49, Color::Black, Role::Pawn),
        placed(63, Color::Black, Role::Rook),
    ];
    let white = static_score(&pieces, Color::White, 0);
    let black = static_score(&pieces, Color::Black, 0);
    assert_eq!(white, -black);
    assert!(white != 0);
}

#[test]
fn start_position_scores_its_mobility() {
    let position = Position::new(Chess::default());
    assert_eq!(evaluate(&position, 0), 40);
    assert_eq!(evaluate(&position, 9), 40);
}

#[test]
fn evaluation_after_the_king_pawn_opens() {
    // The pawn gains 40 on its way from e2 to e4; Black, to move, has
    // twenty moves worth 2 each.
    let position = position_from("rnbqkbnr/pppppppp/8/8/4P3/8/PPPP1PPP/RNBQKBNR b KQkq - 0 1");
    assert_eq!(evaluate(&position, 0), -40 + 40);
}

#[test]
fn flipping_the_side_to_move_negates_all_but_mobility() {
    let chess = chess_from("r1bqkbnr/pppp1ppp/2n5/4p3/4P3/5N2/PPPP1PPP/RNBQKB1R w KQkq - 2 3");
    let flipped = shakmaty::Position::swap_turn(chess.clone()).unwrap();
    let own = 2 * shakmaty::Position::legal_moves(&chess).len() as i32;
    let other = 2 * shakmaty::Position::legal_moves(&flipped).len() as i32;
    let score = evaluate(&Position::new(chess), 0);
    let flipped_score = evaluate(&Position::new(flipped), 0);
    assert_eq!(score - own, -(flipped_score - other));
}

#[test]
fn checkmate_scores_in_the_mate_family() {
    let position = position_from(FOOLS_MATE);
    assert_eq!(evaluate(&position, 0), MATE_SCORE);
    assert_eq!(evaluate(&position, 1), MATE_SCORE - 5);
    assert_eq!(evaluate(&position, 255), MATE_SCORE - 1275);
    assert!(evaluate(&position, 255) > MIN_SCORE);
    assert!(-evaluate(&position, 255) < MAX_SCORE);
}

#[test]
fn checkmate_scores_below_every_other_position() {
    let mate = evaluate(&position_from(FOOLS_MATE), 0);
    // Black with a bare king against the full white army.
    let lost = position_from("4k3/8/8/8/8/8/PPPPPPPP/RNBQKBNR b KQ - 0 1");
    assert!(mate < evaluate(&lost, 0));
    assert!(mate < evaluate(&Position::new(Chess::default()), 0));
}

#[test]
fn sooner_mate_scores_further_from_zero() {
    let position = position_from(FOOLS_MATE);
    assert!(evaluate(&position, 3) < evaluate(&position, 2));
    assert!(evaluate(&position, 2) < 0);
}

#[test]
fn stalemate_scores_zero() {
    let position = position_from(STALEMATE);
    assert_eq!(evaluate(&position, 0), 0);
    assert_eq!(evaluate(&position, 4), 0);
}

#[test]
fn insufficient_material_scores_zero() {
    assert_eq!(evaluate(&position_from(BARE_KINGS), 0), 0);
    // King and knight against king.
    assert_eq!(evaluate(&position_from("8/8/8/4k3/8/8/4K1N1/8 w - - 0 1"), 2), 0);
}

#[test]
fn quiet_moves_have_key_zero() {
    let position = Position::new(Chess::default());
    let moves = ordered_moves(&position);
    assert_eq!(moves.len(), 20);
    for ply in moves.iter() {
        assert_eq!(score_move(&position, ply), 0);
    }
}

#[test]
fn capture_key_prefers_the_valuable_victim() {
    // White to move: the pawn on e4 can take the pawn on d5, the knight
    // on f3 can take the pawn on e5, the bishop on b5 can take the
    // knight on c6.
    let position =
        position_from("r1bqkbnr/ppp2ppp/2n5/1B1pp3/4P3/5N2/PPPP1PPP/RNBQK2R w KQkq - 0 4");
    let pawn_takes_pawn = find(&position, Square::E4, Square::D5);
    let knight_takes_pawn = find(&position, Square::F3, Square::E5);
    let bishop_takes_knight = find(&position, Square::B5, Square::C6);
    assert_eq!(pawn_takes_pawn.role(), Role::Pawn);
    assert_eq!(pawn_takes_pawn.capture(), Some(Role::Pawn));
    assert_eq!(pawn_takes_pawn.promotion(), None);
    assert_eq!(score_move(&position, &pawn_takes_pawn), -(1_000_000 + 1000 - 100));
    assert_eq!(score_move(&position, &knight_takes_pawn), -(1_000_000 + 1000 - 320));
    assert_eq!(score_move(&position, &bishop_takes_knight), -(1_000_000 + 3200 - 330));
}

#[test]
fn captures_sort_ahead_of_quiet_moves() {
    let position =
        position_from("r1bqkbnr/ppp2ppp/2n5/1B1pp3/4P3/5N2/PPPP1PPP/RNBQK2R w KQkq - 0 4");
    let moves = ordered_moves(&position);
    let captures: Vec<&Ply> = moves.iter().filter(|ply| ply.capture().is_some()).collect();
    let others: Vec<&Ply> = moves.iter().filter(|ply| ply.capture().is_none()).collect();
    assert_eq!(captures.len(), 3);
    assert!(!others.is_empty());
    for capture in captures.iter() {
        for other in others.iter() {
            assert!(score_move(&position, capture) < score_move(&position, other));
        }
    }
    // The list is sorted: the captures come first, the best one ahead.
    assert_eq!(moves[0].handle().to(), Square::C6);
    assert!(moves[1].capture().is_some());
    assert!(moves[2].capture().is_some());
    assert!(moves[3].capture().is_none());
}

#[test]
fn en_passant_counts_as_a_pawn_capture() {
    let position =
        position_from("rnbqkbnr/ppp1p1pp/8/3pPp2/8/8/PPPP1PPP/RNBQKBNR w KQkq f6 0 3");
    let en_passant = find(&position, Square::E5, Square::F6);
    assert_eq!(en_passant.capture(), Some(Role::Pawn));
    assert_eq!(score_move(&position, &en_passant), -1_000_900);
}

#[test]
fn promotion_key() {
    let position = position_from("8/P7/8/8/8/8/7k/K7 w - - 0 1");
    let moves = ordered_moves(&position);
    let queen = moves.iter().find(|ply| ply.promotion() == Some(Role::Queen)).unwrap();
    let knight = moves.iter().find(|ply| ply.promotion() == Some(Role::Knight)).unwrap();
    assert_eq!(score_move(&position, queen), -(100_000 + 900));
    assert_eq!(score_move(&position, knight), -(100_000 + 320));
    // Promotions sort ahead of king moves, the knight ahead of the queen.
    assert_eq!(moves[0].promotion(), Some(Role::Queen));
    assert!(moves[4].promotion().is_none());
}

#[test]
fn capturing_promotion_is_keyed_as_a_capture() {
    let position = position_from("1r6/P7/8/8/8/8/7k/K7 w - - 0 1");
    let takes = ordered_moves(&position)
        .into_iter()
        .find(|ply| ply.capture().is_some() && ply.promotion() == Some(Role::Queen))
        .unwrap();
    assert_eq!(score_move(&position, &takes), -(1_000_000 + 5000 - 100));
}

#[test]
fn check_key() {
    // The rook gives check on a8 or on h1; its other moves are quiet.
    let position = position_from("7k/8/8/8/8/8/8/R3K3 w - - 0 1");
    let check = find(&position, Square::A1, Square::A8);
    let quiet = find(&position, Square::A1, Square::A2);
    assert_eq!(score_move(&position, &check), -5_000);
    assert_eq!(score_move(&position, &quiet), 0);
    let moves = ordered_moves(&position);
    assert_eq!(score_move(&position, &moves[0]), -5_000);
}

#[test]
fn castling_is_a_king_move() {
    let position = position_from("r3k2r/8/8/8/8/8/8/R3K2R w KQkq - 0 1");
    let castle = ordered_moves(&position)
        .into_iter()
        .find(|ply| ply.handle().is_castle())
        .unwrap();
    assert_eq!(castle.role(), Role::King);
    assert_eq!(castle.capture(), None);
}
