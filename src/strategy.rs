//! The evaluation strategies and their fold into one score.
use crate::evaluation::{combine, Evaluation};
use crate::rules::{
    checkmate_of, fullmoves_of, insufficient_material_of, material_of, stalemate_of,
    white_to_move_of, Color, Position, PositionView,
};
use crate::util::{
    at_least, lemma_material_monotone, material_difference, material_difference_of, material_value,
};
use vstd::prelude::*;

verus! {

/// The base of a checkmate score; it exceeds any material difference by far.
pub const MATE_SCORE: i32 = 1_000_000;

/// The largest move count that a checkmate score takes into account.
pub const MOVE_COUNT_CAP: i32 = 100_000;

/// The largest material value one side can have (255 pieces of each kind).
pub const MAX_MATERIAL: i32 = 5355;

/// The fullmove number, capped at `MOVE_COUNT_CAP`.
pub open spec fn capped_moves(fen: PositionView) -> int {
    if fullmoves_of(fen) < MOVE_COUNT_CAP {
        fullmoves_of(fen)
    } else {
        MOVE_COUNT_CAP as int
    }
}

/// The material strategy: `side`'s material value minus the opponent's.
pub open spec fn material_eval(fen: PositionView, side: Color) -> Evaluation {
    if side.is_white() {
        Evaluation::Additive(material_difference_of(fen) as i32)
    } else {
        Evaluation::Additive((-material_difference_of(fen)) as i32)
    }
}

/// The checkmate strategy: a mate by `side` scores high, the sooner the
/// higher; a mate of `side` scores low, the later the higher.
pub open spec fn checkmate_eval(fen: PositionView, side: Color) -> Evaluation {
    if !checkmate_of(fen) {
        Evaluation::Additive(0)
    } else if white_to_move_of(fen) != side.is_white() {
        Evaluation::Absolute((MATE_SCORE - capped_moves(fen)) as i32)
    } else {
        Evaluation::Absolute((-MATE_SCORE + capped_moves(fen)) as i32)
    }
}

/// The draw strategy: a stalemate or a dead position scores exactly 0.
pub open spec fn draw_eval(fen: PositionView) -> Evaluation {
    if stalemate_of(fen) || insufficient_material_of(fen) {
        Evaluation::Absolute(0)
    } else {
        Evaluation::Additive(0)
    }
}

/// The strategies folded left to right from `Additive(0)`.
pub open spec fn evaluation_of(fen: PositionView, side: Color) -> Evaluation {
    combine(
        combine(combine(Evaluation::Additive(0), material_eval(fen, side)), checkmate_eval(fen, side)),
        draw_eval(fen),
    )
}

/// The score of a position from `side`'s point of view.
pub open spec fn score_of(fen: PositionView, side: Color) -> int {
    evaluation_of(fen, side).value()
}

/// Each side's material value, and their difference, lie within `MAX_MATERIAL`.
pub proof fn lemma_material_bounds(fen: PositionView)
    ensures
        0 <= material_value(material_of(fen, true)) <= MAX_MATERIAL,
        0 <= material_value(material_of(fen, false)) <= MAX_MATERIAL,
        -MAX_MATERIAL <= material_difference_of(fen) <= MAX_MATERIAL,
{
}

/// With the opponent's material unchanged, more pieces of each valued kind
/// for `side` never lower `side`'s material score, and strictly more (the
/// king count equal) strictly raise it.
pub proof fn lemma_more_material_scores_higher(more: PositionView, less: PositionView, side: Color)
    requires
        at_least(material_of(more, side.is_white()), material_of(less, side.is_white())),
        material_of(more, !side.is_white()) == material_of(less, !side.is_white()),
    ensures
        material_eval(more, side).value() >= material_eval(less, side).value(),
        material_of(more, side.is_white()) != material_of(less, side.is_white())
            && material_of(more, side.is_white()).king == material_of(less, side.is_white()).king
            ==> material_eval(more, side).value() > material_eval(less, side).value(),
{
    lemma_material_bounds(more);
    lemma_material_bounds(less);
    lemma_material_monotone(material_of(more, side.is_white()), material_of(less, side.is_white()));
}

/// A stalemate scores exactly 0, whatever the material on the board.
pub proof fn lemma_stalemate_scores_zero(fen: PositionView, side: Color)
    requires
        stalemate_of(fen),
    ensures
        score_of(fen, side) == 0,
{
    lemma_material_bounds(fen);
}

/// Of two positions in which `side` has given checkmate, the one reached at a
/// lower move number scores strictly higher (below the move-count cap); of two
/// in which `side` is mated, the later one scores strictly higher.
pub proof fn lemma_faster_mate_scores_higher(sooner: PositionView, later: PositionView, side: Color)
    requires
        checkmate_of(sooner),
        checkmate_of(later),
        !stalemate_of(sooner),
        !stalemate_of(later),
        !insufficient_material_of(sooner),
        !insufficient_material_of(later),
        white_to_move_of(sooner) == white_to_move_of(later),
        1 <= fullmoves_of(sooner) < fullmoves_of(later) <= MOVE_COUNT_CAP,
    ensures
        white_to_move_of(sooner) != side.is_white() ==> score_of(sooner, side) > score_of(later, side),
        white_to_move_of(sooner) == side.is_white() ==> score_of(sooner, side) < score_of(later, side),
{
    lemma_material_bounds(sooner);
    lemma_material_bounds(later);
}

/// A position in which `side` has given checkmate scores above
/// `MATE_SCORE - MOVE_COUNT_CAP`, while a position that is neither over nor
/// drawn scores by material alone, within `MAX_MATERIAL` of 0.
pub proof fn lemma_mate_outranks_material(mate: PositionView, other: PositionView, side: Color)
    requires
        checkmate_of(mate),
        !stalemate_of(mate),
        !insufficient_material_of(mate),
        white_to_move_of(mate) != side.is_white(),
        fullmoves_of(mate) >= 1,
        !checkmate_of(other),
        !stalemate_of(other),
        !insufficient_material_of(other),
    ensures
        score_of(mate, side) >= MATE_SCORE - MOVE_COUNT_CAP,
        -MAX_MATERIAL <= score_of(other, side) <= MAX_MATERIAL,
        score_of(mate, side) - score_of(other, side) >= MATE_SCORE - MOVE_COUNT_CAP - MAX_MATERIAL,
{
    lemma_material_bounds(mate);
    lemma_material_bounds(other);
}

/// The material strategy.
pub fn material_balance(game: &Position, side: Color) -> (r: Evaluation)
    requires
        game.wf(),
    ensures
        r == material_eval(game@, side),
{
    proof {
        lemma_material_bounds(game@);
    }
    let diff = material_difference(game);
    if side == Color::White {
        Evaluation::Additive(diff)
    } else {
        Evaluation::Additive(-diff)
    }
}

/// The checkmate strategy. The move number in a mate score is capped at
/// `MOVE_COUNT_CAP`, so that the score stays within `i32` and a mate still
/// outranks any material difference at any move number.
pub fn evaluate_checkmate(game: &Position, side: Color) -> (r: Evaluation)
    requires
        game.wf(),
    ensures
        r == checkmate_eval(game@, side),
        checkmate_of(game@) ==> !insufficient_material_of(game@) && fullmoves_of(game@) >= 1,
{
    if !game.is_checkmate() {
        return Evaluation::Additive(0);
    }
    let moves = game.fullmoves();
    let capped: i32 = if moves < MOVE_COUNT_CAP as u32 {
        moves as i32
    } else {
        MOVE_COUNT_CAP
    };
    if game.turn() != side {
        Evaluation::Absolute(MATE_SCORE - capped)
    } else {
        Evaluation::Absolute(-MATE_SCORE + capped)
    }
}

/// The draw strategy: it overrides every other one with a 0 on a draw.
pub fn evaluate_draw(game: &Position) -> (r: Evaluation)
    requires
        game.wf(),
    ensures
        r == draw_eval(game@),
        stalemate_of(game@) ==> !checkmate_of(game@),
{
    if game.is_stalemate() || game.is_insufficient_material() {
        Evaluation::Absolute(0)
    } else {
        Evaluation::Additive(0)
    }
}

/// The score of a position from `side`'s point of view: the strategies
/// (material, checkmate, draw) folded in that order from `Additive(0)`.
pub fn evaluate_position(game: &Position, side: Color) -> (r: i32)
    requires
        game.wf(),
    ensures
        r == score_of(game@, side),
        checkmate_of(game@) && white_to_move_of(game@) != side.is_white() ==> r == MATE_SCORE
            - capped_moves(game@),
        checkmate_of(game@) && white_to_move_of(game@) == side.is_white() ==> r == -MATE_SCORE
            + capped_moves(game@),
{
    proof {
        lemma_material_bounds(game@);
    }
    let mut eval_summed = Evaluation::Additive(0);
    eval_summed = eval_summed.add(material_balance(game, side));
    eval_summed = eval_summed.add(evaluate_checkmate(game, side));
    eval_summed = eval_summed.add(evaluate_draw(game));
    eval_summed.to_i32()
}

} // verus!
