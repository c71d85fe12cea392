use chess_search::rules::Position;
use chess_search::scoring::evaluate;
use chess_search::search::{ActorState, Searcher, Session};
use chess_search::{SearchCommand, SearchControl, SearchInfo};
use shakmaty::{CastlingMode, Chess, Move, Position as Rules};

fn chess_at(fen: &str) -> Chess {
    let fen: shakmaty::fen::Fen = fen.parse().unwrap();
    fen.into_position::<Chess>(CastlingMode::Standard).unwrap()
}

fn full_width(chess: &Chess, depth: u8) -> i32 {
    if depth == 0 || chess.is_game_over() {
        return evaluate(&Position::new(chess.clone()), depth);
    }
    let mut best = i32::MIN;
    for mv in chess.legal_moves() {
        let child = chess.clone().play(mv).unwrap();
        let score = -full_width(&child, depth - 1);
        if score > best {
            best = score;
        }
    }
    best
}

/// The first of the legal moves that is worth the most, and its worth.
fn first_best(chess: &Chess, depth: u8) -> (Move, i32) {
    let mut best: Option<(Move, i32)> = None;
    for mv in chess.legal_moves() {
        let child = chess.clone().play(mv).unwrap();
        let score = -full_width(&child, depth - 1);
        if best.map_or(true, |(_, value)| score > value) {
            best = Some((mv, score));
        }
    }
    best.unwrap()
}

fn start(chess: &Chess, control: SearchControl) -> Option<SearchCommand> {
    Some(SearchCommand::Start { position: Position::new(chess.clone()), control })
}

fn told(chess: &Chess, control: SearchControl) -> Vec<SearchInfo> {
    let mut actor = Searcher::new();
    assert!(actor.handle(start(chess, control)));
    assert_eq!(actor.state, ActorState::Idle);
    actor.take_outbox()
}

/// Splits what a search told into its reports and its best move.
fn split(told: &[SearchInfo]) -> (Vec<(u8, Vec<Move>, i32, u64)>, Move) {
    let mut reports = Vec::new();
    for info in &told[..told.len() - 1] {
        match info {
            SearchInfo::Info { depth, pv, score, nodes } => {
                reports.push((*depth, pv.iter().map(|ply| ply.handle()).collect(), *score, *nodes))
            }
            SearchInfo::BestMove(_) => panic!("best move before the end"),
        }
    }
    match told.last().unwrap() {
        SearchInfo::BestMove(ply) => (reports, ply.handle()),
        SearchInfo::Info { .. } => panic!("no best move at the end"),
    }
}

const MIDDLEGAME: &str = "r1bqkbnr/ppp2ppp/2n5/1B1pp3/4P3/5N2/PPPP1PPP/RNBQK2R w KQkq - 0 4";
const ROOK_ENDING: &str = "6k1/5ppp/8/8/8/8/5PPP/R5K1 w - - 0 1";
const FOOLS_MATE: &str = "rnb1kbnr/pppp1ppp/8/4p3/6Pq/5P2/PPPPP2P/RNBQKBNR w KQkq - 1 3";

#[test]
fn new_actor_is_idle_and_silent() {
    let mut actor = Searcher::new();
    assert_eq!(actor.state, ActorState::Idle);
    assert!(actor.take_outbox().is_empty());
}

#[test]
fn one_ply_from_the_start() {
    let chess = Chess::default();
    let told = told(&chess, SearchControl::ToDepth(1));
    assert_eq!(told.len(), 2);
    let (reports, best) = split(&told);
    assert!(chess.legal_moves().contains(&best));
    assert_eq!(chess.legal_moves().len(), 20);
    let (depth, pv, score, nodes) = reports[0].clone();
    assert_eq!(depth, 1);
    assert!(nodes >= 20);
    assert_eq!(nodes, 20);
    assert_eq!(pv, vec![best]);
    let (expected_move, expected_score) = first_best(&chess, 1);
    assert_eq!(best, expected_move);
    assert_eq!(score, expected_score);
}

#[test]
fn three_plies_from_the_start() {
    let chess = Chess::default();
    let told = told(&chess, SearchControl::ToDepth(3));
    assert_eq!(told.len(), 4);
    let (reports, best) = split(&told);
    let depths: Vec<u8> = reports.iter().map(|report| report.0).collect();
    assert_eq!(depths, vec![1, 2, 3]);
    for (depth, pv, score, nodes) in reports.iter() {
        let (expected_move, expected_score) = first_best(&chess, *depth);
        assert_eq!(pv, &vec![expected_move]);
        assert_eq!(*score, expected_score);
        assert_eq!(*score, full_width(&chess, *depth));
        assert!(*nodes >= 20);
    }
    assert_eq!(vec![best], reports[2].1);
}

#[test]
fn two_plies_in_a_middlegame() {
    let chess = chess_at(MIDDLEGAME);
    let told = told(&chess, SearchControl::ToDepth(2));
    let (reports, best) = split(&told);
    assert_eq!(reports.len(), 2);
    let (expected_move, expected_score) = first_best(&chess, 2);
    assert_eq!(best, expected_move);
    assert_eq!(reports[1].2, expected_score);
}

#[test]
fn the_mate_in_one_is_played() {
    let chess = chess_at(ROOK_ENDING);
    let told = told(&chess, SearchControl::ToDepth(2));
    let (reports, best) = split(&told);
    assert_eq!(best.to(), shakmaty::Square::A8);
    assert_eq!(reports[0].2, 2_000_000_000);
    assert_eq!(reports[1].2, 2_000_000_005);
}

#[test]
fn ties_go_to_the_first_move() {
    // Bare kings: every move leads to a draw worth zero.
    let chess = chess_at("8/8/8/4k3/8/8/4K3/8 w - - 0 1");
    let told = told(&chess, SearchControl::ToDepth(2));
    let (reports, best) = split(&told);
    assert_eq!(best, chess.legal_moves()[0]);
    assert_eq!(reports[1].2, 0);
}

#[test]
fn depth_zero_tells_the_first_legal_move() {
    let chess = Chess::default();
    let told = told(&chess, SearchControl::ToDepth(0));
    assert_eq!(told.len(), 1);
    let (reports, best) = split(&told);
    assert!(reports.is_empty());
    assert_eq!(best, chess.legal_moves()[0]);
}

#[test]
fn no_time_still_completes_the_first_depth() {
    let chess = chess_at(MIDDLEGAME);
    let told = told(&chess, SearchControl::TimeLimit(0));
    assert_eq!(told.len(), 2);
    let (reports, best) = split(&told);
    let (expected_move, expected_score) = first_best(&chess, 1);
    assert_eq!(reports[0].0, 1);
    assert_eq!(reports[0].1, vec![expected_move]);
    assert_eq!(reports[0].2, expected_score);
    assert_eq!(reports[0].3, chess.legal_moves().len() as u64);
    assert_eq!(best, expected_move);
}

#[test]
fn little_time_ends_with_a_completed_depth() {
    let chess = chess_at(MIDDLEGAME);
    let began = std::time::Instant::now();
    let told = told(&chess, SearchControl::TimeLimit(50));
    assert!(began.elapsed() < std::time::Duration::from_secs(10));
    let (reports, best) = split(&told);
    assert!(!reports.is_empty());
    for (index, report) in reports.iter().enumerate() {
        assert_eq!(report.0 as usize, index + 1);
        assert_eq!(report.1.len(), 1);
    }
    assert_eq!(vec![best], reports.last().unwrap().1);
    // What was reported is what a full search of that depth gives.
    let (expected_move, expected_score) = first_best(&chess, 1);
    assert_eq!(reports[0].1, vec![expected_move]);
    assert_eq!(reports[0].2, expected_score);
}

#[test]
fn a_finished_game_tells_nothing() {
    let mut actor = Searcher::new();
    assert!(actor.handle(start(&chess_at(FOOLS_MATE), SearchControl::ToDepth(2))));
    assert_eq!(actor.state, ActorState::Idle);
    assert!(actor.take_outbox().is_empty());
}

#[test]
fn search_returns_the_depths_it_completed() {
    let mut actor = Searcher::new();
    let position = Position::new(Chess::default());
    assert_eq!(actor.search(&position, SearchControl::ToDepth(2)), 2);
    assert_eq!(actor.outbox.len(), 3);
    assert_eq!(actor.search(&position, SearchControl::ToDepth(1)), 1);
    assert_eq!(actor.outbox.len(), 5);
    assert_eq!(actor.search(&Position::new(chess_at(FOOLS_MATE)), SearchControl::ToDepth(1)), 0);
    assert_eq!(actor.outbox.len(), 5);
}

#[test]
fn stop_changes_nothing() {
    let mut actor = Searcher::new();
    assert!(actor.handle(Some(SearchCommand::Stop)));
    assert_eq!(actor.state, ActorState::Idle);
    assert!(actor.outbox.is_empty());
}

#[test]
fn quit_ends_the_actor() {
    let mut actor = Searcher::new();
    assert!(!actor.handle(Some(SearchCommand::Quit)));
    assert_eq!(actor.state, ActorState::Terminated);
}

#[test]
fn closed_channel_ends_the_actor() {
    let mut actor = Searcher::new();
    assert!(!actor.handle(None));
    assert_eq!(actor.state, ActorState::Terminated);
}

#[test]
fn ended_actor_takes_no_command() {
    let mut actor = Searcher::new();
    actor.handle(Some(SearchCommand::Quit));
    assert!(!actor.handle(start(&Chess::default(), SearchControl::ToDepth(1))));
    assert!(!actor.handle(Some(SearchCommand::Stop)));
    assert_eq!(actor.state, ActorState::Terminated);
    assert!(actor.outbox.is_empty());
}

#[test]
fn commands_are_taken_in_order() {
    let mut actor = Searcher::new();
    let chess = Chess::default();
    assert!(actor.handle(start(&chess, SearchControl::ToDepth(1))));
    assert!(actor.handle(Some(SearchCommand::Stop)));
    assert!(actor.handle(start(&chess, SearchControl::ToDepth(2))));
    assert!(!actor.handle(None));
    let told = actor.take_outbox();
    assert_eq!(told.len(), 2 + 3);
    assert!(matches!(told[1], SearchInfo::BestMove(_)));
    assert!(matches!(told[4], SearchInfo::BestMove(_)));
    assert!(actor.outbox.is_empty());
}

#[test]
fn some_time_completes_a_depth() {
    let chess = chess_at("8/5k2/8/3p4/3P4/8/4K3/8 w - - 0 1");
    let told = told(&chess, SearchControl::TimeLimit(300));
    let (reports, best) = split(&told);
    assert!(!reports.is_empty());
    assert_eq!(reports[0].0, 1);
    assert_eq!(reports[0].3, chess.legal_moves().len() as u64);
    assert_eq!(vec![best], reports.last().unwrap().1);
    let last = reports.last().unwrap();
    if last.0 <= 3 {
        assert_eq!(last.2, first_best(&chess, last.0).1);
    }
}

#[test]
fn reported_nodes_stay_within_the_full_tree() {
    fn tree(chess: &Chess, depth: u8) -> u64 {
        if depth == 0 || chess.is_game_over() {
            return 1;
        }
        let mut nodes = 1;
        for mv in chess.legal_moves() {
            nodes += tree(&chess.clone().play(mv).unwrap(), depth - 1);
        }
        nodes
    }
    let chess = chess_at(ROOK_ENDING);
    let told = told(&chess, SearchControl::ToDepth(3));
    let (reports, _) = split(&told);
    for (depth, _, _, nodes) in reports.iter() {
        assert!(*nodes >= chess.legal_moves().len() as u64);
        assert!(*nodes <= tree(&chess, *depth) - 1);
    }
    assert_eq!(reports[0].3, tree(&chess, 1) - 1);
}

#[test]
fn a_copied_position_is_searched_alike() {
    let position = Position::new(chess_at(MIDDLEGAME));
    let copy = position.clone();
    assert_eq!(copy.chess(), position.chess());
    let mut actor = Searcher::new();
    actor.search(&position, SearchControl::ToDepth(2));
    let first = split(&actor.take_outbox());
    actor.search(&copy, SearchControl::ToDepth(2));
    let second = split(&actor.take_outbox());
    assert_eq!(first.1, second.1);
    assert_eq!(first.0[1].2, second.0[1].2);
}

#[test]
fn a_position_keeps_what_it_was_made_of() {
    let chess = chess_at(MIDDLEGAME);
    let position = Position::new(chess.clone());
    assert_eq!(position.chess(), &chess);
    assert_eq!(position.chess().turn(), shakmaty::Color::White);
}

#[test]
fn equal_searches_tell_the_same() {
    for fen in [MIDDLEGAME, ROOK_ENDING] {
        let chess = chess_at(fen);
        let first = split(&told(&chess, SearchControl::ToDepth(3)));
        let second = split(&told(&chess, SearchControl::ToDepth(3)));
        assert_eq!(first.0, second.0);
        assert_eq!(first.1, second.1);
    }
}

#[test]
fn session_tells_depth_by_depth() {
    let chess = Chess::default();
    let position = Position::new(chess.clone());
    let mut session = Session::begin(&position, SearchControl::ToDepth(2)).unwrap();
    assert_eq!(session.completed(), 0);
    assert!(!session.finished());
    match session.step() {
        SearchInfo::Info { depth, pv, score, nodes } => {
            assert_eq!(depth, 1);
            assert_eq!(pv[0].handle(), first_best(&chess, 1).0);
            assert_eq!(score, first_best(&chess, 1).1);
            assert_eq!(nodes, 20);
        }
        SearchInfo::BestMove(_) => panic!("best move before the first report"),
    }
    assert_eq!(session.completed(), 1);
    assert!(!session.finished());
    match session.step() {
        SearchInfo::Info { depth, score, .. } => {
            assert_eq!(depth, 2);
            assert_eq!(score, first_best(&chess, 2).1);
        }
        SearchInfo::BestMove(_) => panic!("best move before the second report"),
    }
    assert_eq!(session.completed(), 2);
    assert!(!session.finished());
    match session.step() {
        SearchInfo::BestMove(ply) => assert_eq!(ply.handle(), first_best(&chess, 2).0),
        SearchInfo::Info { .. } => panic!("a report beyond the depth limit"),
    }
    assert_eq!(session.completed(), 2);
    assert!(session.finished());
}

#[test]
fn session_without_depth_tells_the_first_legal_move() {
    let chess = Chess::default();
    let position = Position::new(chess.clone());
    let mut session = Session::begin(&position, SearchControl::ToDepth(0)).unwrap();
    match session.step() {
        SearchInfo::BestMove(ply) => assert_eq!(ply.handle(), chess.legal_moves()[0]),
        SearchInfo::Info { .. } => panic!("a report without depth"),
    }
    assert!(session.finished());
}

#[test]
fn session_does_not_begin_in_a_finished_game() {
    let position = Position::new(chess_at(FOOLS_MATE));
    assert!(Session::begin(&position, SearchControl::ToDepth(3)).is_none());
    assert!(Session::begin(&position, SearchControl::TimeLimit(100)).is_none());
}

#[test]
fn session_under_a_time_limit_ends() {
    let position = Position::new(chess_at(MIDDLEGAME));
    let mut session = Session::begin(&position, SearchControl::TimeLimit(30)).unwrap();
    let mut reports = 0;
    let mut last = None;
    while !session.finished() {
        match session.step() {
            SearchInfo::Info { depth, pv, .. } => {
                reports += 1;
                assert_eq!(depth, reports);
                last = Some(pv[0].handle());
            }
            SearchInfo::BestMove(ply) => assert_eq!(Some(ply.handle()), last),
        }
    }
    assert!(reports >= 1);
    assert_eq!(session.completed(), reports);
}

#[test]
fn accept_hands_out_the_search() {
    let mut actor = Searcher::new();
    let chess = chess_at(MIDDLEGAME);
    let job = actor.accept(start(&chess, SearchControl::ToDepth(4)));
    assert_eq!(actor.state, ActorState::Searching);
    let (position, control) = job.unwrap();
    assert_eq!(position.chess(), &chess);
    assert!(matches!(control, SearchControl::ToDepth(4)));
    assert!(actor.outbox.is_empty());
    actor.finish();
    assert_eq!(actor.state, ActorState::Idle);
}

#[test]
fn accept_of_other_commands_hands_out_nothing() {
    let mut actor = Searcher::new();
    assert!(actor.accept(Some(SearchCommand::Stop)).is_none());
    assert_eq!(actor.state, ActorState::Idle);
    actor.finish();
    assert_eq!(actor.state, ActorState::Idle);
    assert!(actor.accept(Some(SearchCommand::Quit)).is_none());
    assert_eq!(actor.state, ActorState::Terminated);
    assert!(actor.accept(start(&Chess::default(), SearchControl::ToDepth(1))).is_none());
    actor.finish();
    assert_eq!(actor.state, ActorState::Terminated);
    let mut closed = Searcher::new();
    assert!(closed.accept(None).is_none());
    assert_eq!(closed.state, ActorState::Terminated);
}
