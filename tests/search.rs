use rusty_lichess_bot::engine::{
    choose_move, init_engine, Engine, MainEngine, MoveError, RandomEngine, DEFAULT_DEPTH,
};
use rusty_lichess_bot::rules::{Color, Position};
use rusty_lichess_bot::search::{alpha_beta, search, SearchStats};
use rusty_lichess_bot::strategy::{evaluate_position, MATE_SCORE};

const START: &str = "rnbqkbnr/pppppppp/8/8/8/8/PPPPPPPP/RNBQKBNR w KQkq - 0 1";
const BACK_RANK: &str = "6k1/5ppp/8/8/8/8/8/R5K1 w - - 0 1";
const STALEMATE: &str = "7k/5Q2/6K1/8/8/8/8/8 b - - 0 1";
const MATED: &str = "R5k1/5ppp/8/8/8/8/8/6K1 b - - 1 1";

fn pos(fen: &str) -> Position {
    Position::from_fen(fen).unwrap()
}

/// Plain minimax without pruning, over the library's own rules queries.
fn full_minimax(p: &Position, depth: u32, side: Color) -> i32 {
    if depth == 0 || p.is_game_over() {
        return evaluate_position(p, side);
    }
    let maximizing = p.turn() == side;
    let mut best = if maximizing { i32::MIN } else { i32::MAX };
    for m in p.legal_moves() {
        let v = full_minimax(&p.play(&m), depth - 1, side);
        best = if maximizing { best.max(v) } else { best.min(v) };
    }
    best
}

fn root_values(p: &Position, depth: u32, side: Color) -> Vec<(String, i32)> {
    p.legal_moves()
        .into_iter()
        .map(|m| {
            let v = full_minimax(&p.play(&m), depth - 1, side);
            (m, v)
        })
        .collect()
}

#[test]
fn start_position_depth_one_returns_legal_move() {
    let p = pos(START);
    let mut stats = SearchStats::new();
    let m = search(&p, Color::White, 1, &mut stats).expect("a move");
    assert!(p.legal_moves().contains(&m));
    assert_eq!(stats.cutoffs_per_ply().len(), 1);
}

#[test]
fn back_rank_mate_is_found_at_depth_two() {
    let p = pos(BACK_RANK);
    let mut stats = SearchStats::new();
    let m = search(&p, Color::White, 2, &mut stats);
    assert_eq!(m, Some("a1a8".to_string()));
    assert_eq!(stats.previous_eval(), Some(MATE_SCORE - 1));
}

#[test]
fn shorter_mate_is_preferred_at_depth_three() {
    let p = pos(BACK_RANK);
    let mut stats = SearchStats::new();
    let m = search(&p, Color::White, 3, &mut stats);
    assert_eq!(m, Some("a1a8".to_string()));
}

#[test]
fn search_returns_nothing_when_mated_or_stalemated() {
    let mut stats = SearchStats::new();
    assert_eq!(search(&pos(MATED), Color::Black, 3, &mut stats), None);
    assert_eq!(search(&pos(MATED), Color::White, 3, &mut stats), None);
    assert_eq!(search(&pos(STALEMATE), Color::Black, 2, &mut stats), None);
    assert_eq!(stats.previous_eval(), None);
}

#[test]
fn pruned_search_matches_full_minimax() {
    let fens = [
        START,
        BACK_RANK,
        "r1bqkbnr/pppp1ppp/2n5/4p3/4P3/5N2/PPPP1PPP/RNBQKB1R w KQkq - 2 3",
        "4k3/8/8/3q4/8/2N5/8/4K3 w - - 0 1",
    ];
    for fen in fens {
        let p = pos(fen);
        for depth in 1..=2u32 {
            for side in [Color::White, Color::Black] {
                let values = root_values(&p, depth, side);
                let best = values.iter().map(|(_, v)| *v).max().unwrap();
                let mut stats = SearchStats::new();
                let chosen = search(&p, side, depth, &mut stats).unwrap();
                let chosen_value = values.iter().find(|(m, _)| *m == chosen).unwrap().1;
                assert_eq!(chosen_value, best, "{fen} depth {depth}");
                let first_best = values.iter().find(|(_, v)| *v == best).unwrap();
                assert_eq!(chosen, first_best.0);
                let full = full_minimax(&p, depth, side);
                let mut s2 = SearchStats::new();
                s2.reset(depth);
                assert_eq!(alpha_beta(&p, depth, i32::MIN, i32::MAX, side, 0, &mut s2), full);
            }
        }
    }
}

#[test]
fn alpha_beta_returns_bounds_outside_the_window() {
    let p = pos("r1bqkbnr/pppp1ppp/2n5/4p3/4P3/5N2/PPPP1PPP/RNBQKB1R w KQkq - 2 3");
    let full = full_minimax(&p, 2, Color::White);
    let mut stats = SearchStats::new();
    stats.reset(2);
    let high = alpha_beta(&p, 2, full + 5, full + 10, Color::White, 0, &mut stats);
    assert!(high < full + 5 && full <= high);
    let low = alpha_beta(&p, 2, full - 10, full - 5, Color::White, 0, &mut stats);
    assert!(low > full - 5 && full >= low);
}

#[test]
fn cutoffs_are_counted_per_ply() {
    let p = pos(START);
    let mut stats = SearchStats::new();
    search(&p, Color::White, 3, &mut stats).unwrap();
    let cutoffs = stats.cutoffs_per_ply();
    assert_eq!(cutoffs.len(), 3);
    assert!(cutoffs.iter().sum::<u64>() > 0);
    assert_eq!(cutoffs[0], 0);
}

#[test]
fn main_engine_plays_the_mate() {
    let mut engine = MainEngine::new(pos(BACK_RANK), Color::White).with_depth(2);
    assert!(engine.is_my_turn());
    assert_eq!(engine.search(), Some("a1a8".to_string()));
    assert_eq!(engine.stats().cutoffs_per_ply().len(), 2);
    assert_eq!(engine.update_board("a1a8"), Ok(()));
    assert_eq!(engine.get_game_state().fen(), "R5k1/5ppp/8/8/8/8/8/6K1 b - - 1 1");
    assert!(!engine.is_my_turn());
    assert_eq!(engine.search(), None);
}

#[test]
fn main_engine_waits_for_its_turn() {
    let engine = MainEngine::new(pos(START), Color::Black);
    assert!(!engine.is_my_turn());
    let _ = DEFAULT_DEPTH;
}

#[test]
fn illegal_move_is_rejected_without_change() {
    let mut engine = MainEngine::new(pos(START), Color::White);
    assert_eq!(engine.update_board("e2e5"), Err(MoveError::InvalidMove));
    assert_eq!(engine.get_game_state().fen(), START);
    let mut random = RandomEngine::new(pos(START), Color::White);
    assert_eq!(random.update_board("e1e2"), Err(MoveError::InvalidMove));
    assert_eq!(random.update_board("nonsense"), Err(MoveError::InvalidMove));
    assert_eq!(random.get_game_state().fen(), START);
}

#[test]
fn legal_move_updates_the_position() {
    let mut engine = RandomEngine::new(pos(START), Color::Black);
    assert!(!engine.is_my_turn());
    assert_eq!(engine.update_board("e2e4"), Ok(()));
    assert_eq!(
        engine.get_game_state().fen(),
        "rnbqkbnr/pppppppp/8/8/4P3/8/PPPP1PPP/RNBQKBNR b KQkq - 0 1"
    );
    assert!(engine.is_my_turn());
}

#[test]
fn random_engine_plays_a_legal_move() {
    let p = pos(START);
    let legal = p.legal_moves();
    let mut engine = RandomEngine::new(p, Color::White);
    for _ in 0..20 {
        let m = engine.search().unwrap();
        assert!(legal.contains(&m));
    }
    let mut mated = RandomEngine::new(pos(MATED), Color::Black);
    assert!(mated.is_my_turn());
    assert_eq!(mated.search(), None);
}

#[test]
fn choose_move_picks_by_index() {
    let legal = vec!["e2e4".to_string(), "d2d4".to_string()];
    assert_eq!(choose_move(&legal, 1), Some("d2d4".to_string()));
    assert_eq!(choose_move(&legal, 2), None);
    assert_eq!(choose_move(&Vec::new(), 0), None);
}

#[test]
fn init_engine_follows_the_game() {
    let mut engine = init_engine(pos(START), Color::White);
    assert!(engine.is_my_turn());
    assert!(engine.search().is_some());
}

#[test]
fn engines_follow_a_chess960_game() {
    let fen = "1r2k1r1/8/8/8/8/8/8/1R2K1R1 w GBgb - 0 1";
    let mut engine = MainEngine::new(Position::from_fen_in_mode(fen, true).unwrap(), Color::Black)
        .with_depth(2);
    assert_eq!(engine.update_board("e1b1"), Ok(()));
    assert!(engine.get_game_state().is_chess960());
    assert!(engine.is_my_turn());
    let reply = engine.search().expect("a move");
    assert!(engine.get_game_state().legal_moves().contains(&reply));
    let mut random = RandomEngine::new(Position::from_fen_in_mode(fen, true).unwrap(), Color::White);
    let m = random.search().unwrap();
    assert_eq!(random.update_board(&m), Ok(()));
}

#[test]
fn equal_searches_choose_the_same_move() {
    let p = pos(START);
    let mut a = SearchStats::new();
    let mut b = SearchStats::new();
    search(&p, Color::White, 3, &mut b).unwrap();
    let first = search(&p, Color::White, 2, &mut a);
    let second = search(&p, Color::White, 2, &mut b);
    assert_eq!(first, second);
    let values = root_values(&p, 2, Color::White);
    let best = values.iter().map(|(_, v)| *v).max().unwrap();
    let first_best = values.iter().find(|(_, v)| *v == best).unwrap();
    assert_eq!(first, Some(first_best.0.clone()));
}
