use rusty_lichess_bot::evaluation::Evaluation;
use rusty_lichess_bot::rules::{Color, Material, Position};
use rusty_lichess_bot::strategy::{
    evaluate_checkmate, evaluate_draw, evaluate_position, material_balance, MATE_SCORE,
};
use rusty_lichess_bot::util::{material_difference, material_for_side};

#[test]
fn additive_values_are_summed() {
    assert_eq!(Evaluation::Additive(3).add(Evaluation::Additive(-5)), Evaluation::Additive(-2));
    assert_eq!(Evaluation::Additive(0).add(Evaluation::Additive(0)), Evaluation::Additive(0));
}

#[test]
fn absolute_overrides_additive() {
    assert_eq!(Evaluation::Additive(7).add(Evaluation::Absolute(-3)), Evaluation::Absolute(-3));
    assert_eq!(Evaluation::Absolute(4).add(Evaluation::Additive(100)), Evaluation::Absolute(4));
}

#[test]
fn least_extreme_absolute_wins() {
    assert_eq!(Evaluation::Absolute(-999).add(Evaluation::Absolute(0)), Evaluation::Absolute(0));
    assert_eq!(Evaluation::Absolute(0).add(Evaluation::Absolute(-999)), Evaluation::Absolute(0));
    assert_eq!(Evaluation::Absolute(50).add(Evaluation::Absolute(-20)), Evaluation::Absolute(-20));
    assert_eq!(Evaluation::Absolute(-5).add(Evaluation::Absolute(5)), Evaluation::Absolute(-5));
}

#[test]
fn to_i32_reads_either_variant() {
    assert_eq!(Evaluation::Additive(-12).to_i32(), -12);
    assert_eq!(Evaluation::Absolute(1_000_000).to_i32(), 1_000_000);
}

#[test]
fn material_values() {
    let full = Material { pawn: 8, knight: 2, bishop: 2, rook: 2, queen: 1, king: 1 };
    assert_eq!(material_for_side(full), 39);
    let none = Material { pawn: 0, knight: 0, bishop: 0, rook: 0, queen: 0, king: 1 };
    assert_eq!(material_for_side(none), 0);
    let mut one_more = full;
    one_more.pawn += 1;
    assert!(material_for_side(one_more) > material_for_side(full));
    let mut extra_queen = full;
    extra_queen.queen += 1;
    assert_eq!(material_for_side(extra_queen), 48);
}

#[test]
fn material_difference_of_positions() {
    let start = Position::from_fen("rnbqkbnr/pppppppp/8/8/8/8/PPPPPPPP/RNBQKBNR w KQkq - 0 1").unwrap();
    assert_eq!(material_difference(&start), 0);
    let no_black_queen =
        Position::from_fen("rnb1kbnr/pppppppp/8/8/8/8/PPPPPPPP/RNBQKBNR w KQkq - 0 1").unwrap();
    assert_eq!(material_difference(&no_black_queen), 9);
    assert_eq!(material_balance(&no_black_queen, Color::White), Evaluation::Additive(9));
    assert_eq!(material_balance(&no_black_queen, Color::Black), Evaluation::Additive(-9));
    assert_eq!(evaluate_position(&no_black_queen, Color::White), 9);
    assert_eq!(evaluate_position(&no_black_queen, Color::Black), -9);
}

#[test]
fn stalemate_scores_zero_despite_material() {
    let stale = Position::from_fen("7k/5Q2/6K1/8/8/8/8/8 b - - 0 1").unwrap();
    assert_eq!(material_difference(&stale), 9);
    assert_eq!(evaluate_draw(&stale), Evaluation::Absolute(0));
    assert_eq!(evaluate_position(&stale, Color::White), 0);
    assert_eq!(evaluate_position(&stale, Color::Black), 0);
}

#[test]
fn insufficient_material_scores_zero() {
    let bare = Position::from_fen("8/8/8/8/8/8/8/KB5k w - - 0 1").unwrap();
    assert_eq!(material_difference(&bare), 3);
    assert_eq!(evaluate_position(&bare, Color::White), 0);
}

#[test]
fn checkmate_scores_by_move_count() {
    let mated = Position::from_fen("R5k1/5ppp/8/8/8/8/8/6K1 b - - 1 1").unwrap();
    assert_eq!(evaluate_checkmate(&mated, Color::White), Evaluation::Absolute(MATE_SCORE - 1));
    assert_eq!(evaluate_checkmate(&mated, Color::Black), Evaluation::Absolute(-MATE_SCORE + 1));
    assert_eq!(evaluate_position(&mated, Color::White), MATE_SCORE - 1);
    let later = Position::from_fen("R5k1/5ppp/8/8/8/8/8/6K1 b - - 1 30").unwrap();
    assert_eq!(evaluate_position(&later, Color::White), MATE_SCORE - 30);
    assert!(evaluate_position(&mated, Color::White) > evaluate_position(&later, Color::White));
    assert!(evaluate_position(&mated, Color::Black) < evaluate_position(&later, Color::Black));
    let quiet = Position::from_fen("6k1/5ppp/8/8/8/8/8/R5K1 w - - 0 1").unwrap();
    assert_eq!(evaluate_checkmate(&quiet, Color::White), Evaluation::Additive(0));
    assert_eq!(evaluate_draw(&quiet), Evaluation::Additive(0));
}
