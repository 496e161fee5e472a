//! Fixed-depth minimax search with alpha-beta pruning, and its diagnostics.
use crate::rules::{
    checkmate_of, fullmoves_of, game_over_of, insufficient_material_of, legal_moves_of, played,
    stalemate_of, white_to_move_of, Color, Position, PositionView,
};
use crate::strategy::{
    evaluate_position, lemma_material_bounds, score_of, MATE_SCORE, MOVE_COUNT_CAP,
};
use vstd::prelude::*;

verus! {

/// Whether the side to move is `side`, so that the node maximizes.
pub open spec fn maximizing(fen: PositionView, side: Color) -> bool {
    white_to_move_of(fen) == side.is_white()
}

/// The unpruned minimax value of a position searched `depth` plies deep,
/// scored from `side`'s point of view.
pub open spec fn minimax(fen: PositionView, depth: nat, side: Color) -> int
    decreases depth, 1nat, 0nat,
{
    if depth == 0 || game_over_of(fen) {
        score_of(fen, side)
    } else {
        children_value(fen, depth, side, legal_moves_of(fen).len())
    }
}

/// The best of the minimax values of the first `k` children of a node (the
/// largest where the node maximizes, the smallest where it minimizes),
/// starting from the extreme `i32` value.
pub open spec fn children_value(fen: PositionView, depth: nat, side: Color, k: nat) -> int
    decreases depth, 0nat, k,
{
    if depth == 0 {
        0
    } else if k == 0 {
        if maximizing(fen, side) {
            i32::MIN as int
        } else {
            i32::MAX as int
        }
    } else {
        let prev = children_value(fen, depth, side, (k - 1) as nat);
        let v = minimax(played(fen, legal_moves_of(fen)[k - 1]), (depth - 1) as nat, side);
        if maximizing(fen, side) {
            if v > prev {
                v
            } else {
                prev
            }
        } else {
            if v < prev {
                v
            } else {
                prev
            }
        }
    }
}

/// The depth at which the root's children are searched.
pub open spec fn child_depth(depth: nat) -> nat {
    if depth == 0 {
        0
    } else {
        (depth - 1) as nat
    }
}

/// The largest minimax value among the first `k` moves at the root.
pub open spec fn root_fold(fen: PositionView, depth: nat, side: Color, k: nat) -> int
    decreases k,
{
    if k == 0 {
        i32::MIN as int
    } else {
        let prev = root_fold(fen, depth, side, (k - 1) as nat);
        let v = root_child_value(fen, depth, side, legal_moves_of(fen)[k - 1]);
        if v > prev {
            v
        } else {
            prev
        }
    }
}

/// The unpruned minimax value of playing `m` at the root.
pub open spec fn root_child_value(fen: PositionView, depth: nat, side: Color, m: Seq<char>) -> int {
    minimax(played(fen, m), child_depth(depth), side)
}

/// The unpruned minimax value of the best move at the root.
pub open spec fn root_value(fen: PositionView, depth: nat, side: Color) -> int {
    root_fold(fen, depth, side, legal_moves_of(fen).len())
}

proof fn lemma_children_value_monotone(fen: PositionView, depth: nat, side: Color, j: nat, k: nat)
    requires
        depth > 0,
        j <= k <= legal_moves_of(fen).len(),
    ensures
        maximizing(fen, side) ==> children_value(fen, depth, side, j) <= children_value(
            fen,
            depth,
            side,
            k,
        ),
        !maximizing(fen, side) ==> children_value(fen, depth, side, j) >= children_value(
            fen,
            depth,
            side,
            k,
        ),
    decreases k,
{
    if j < k {
        lemma_children_value_monotone(fen, depth, side, j, (k - 1) as nat);
    }
}

/// No move at the root has a minimax value above the root's value.
pub proof fn lemma_root_value_is_maximal(fen: PositionView, depth: nat, side: Color, k: nat, i: int)
    requires
        0 <= i < k <= legal_moves_of(fen).len(),
    ensures
        root_child_value(fen, depth, side, legal_moves_of(fen)[i]) <= root_fold(fen, depth, side, k),
    decreases k,
{
    if i < k - 1 {
        lemma_root_value_is_maximal(fen, depth, side, (k - 1) as nat, i);
    }
}

/// When some move at the root checkmates the opponent (who is then left
/// without a legal move), the root's value is a mate score: at least
/// `MATE_SCORE - MOVE_COUNT_CAP`, above every score that material alone gives.
pub proof fn lemma_mate_in_one_found(fen: PositionView, depth: nat, side: Color, i: int)
    requires
        0 <= i < legal_moves_of(fen).len(),
        checkmate_of(played(fen, legal_moves_of(fen)[i])),
        legal_moves_of(played(fen, legal_moves_of(fen)[i])).len() == 0,
        !stalemate_of(played(fen, legal_moves_of(fen)[i])),
        !insufficient_material_of(played(fen, legal_moves_of(fen)[i])),
        white_to_move_of(played(fen, legal_moves_of(fen)[i])) != side.is_white(),
        fullmoves_of(played(fen, legal_moves_of(fen)[i])) >= 1,
    ensures
        root_value(fen, depth, side) >= MATE_SCORE - MOVE_COUNT_CAP,
{
    let child = played(fen, legal_moves_of(fen)[i]);
    lemma_material_bounds(child);
    assert(root_child_value(fen, depth, side, legal_moves_of(fen)[i]) == score_of(child, side));
    lemma_root_value_is_maximal(fen, depth, side, legal_moves_of(fen).len(), i);
}

/// Of two moves at the root whose minimax values are mates by `side` at
/// move numbers `sooner < later`, the root's value (the value of the move
/// that `search` chooses) lies strictly above the slower one's: the search
/// never settles for the longer mate.
pub proof fn lemma_faster_forced_mate_preferred(
    fen: PositionView,
    depth: nat,
    side: Color,
    i: int,
    j: int,
    sooner: int,
    later: int,
)
    requires
        0 <= i < legal_moves_of(fen).len(),
        0 <= j < legal_moves_of(fen).len(),
        root_child_value(fen, depth, side, legal_moves_of(fen)[i]) == MATE_SCORE - sooner,
        root_child_value(fen, depth, side, legal_moves_of(fen)[j]) == MATE_SCORE - later,
        sooner < later,
    ensures
        root_value(fen, depth, side) > root_child_value(fen, depth, side, legal_moves_of(fen)[j]),
{
    lemma_root_value_is_maximal(fen, depth, side, legal_moves_of(fen).len(), i);
}

/// Per-search diagnostics: a pruning-cutoff counter per ply, and the score of
/// the move chosen by the last search. They never influence the search.
pub struct SearchStats {
    cutoffs: Vec<u64>,
    last_eval: Option<i32>,
}

impl SearchStats {
    pub fn new() -> (r: SearchStats)
        ensures
            r.cutoffs()@.len() == 0,
            r.last_eval() is None,
    {
        SearchStats { cutoffs: Vec::new(), last_eval: None }
    }

    pub closed spec fn cutoffs(&self) -> Vec<u64> {
        self.cutoffs
    }

    pub closed spec fn last_eval(&self) -> Option<i32> {
        self.last_eval
    }

    /// The cutoff counts, one per ply.
    pub fn cutoffs_per_ply(&self) -> (r: &Vec<u64>)
        ensures
            r == self.cutoffs(),
    {
        &self.cutoffs
    }

    /// The score of the move chosen by the last search, if any.
    pub fn previous_eval(&self) -> (r: Option<i32>)
        ensures
            r == self.last_eval(),
    {
        self.last_eval
    }

    /// Clears the counters, one for each of `depth` plies.
    pub fn reset(&mut self, depth: u32)
        ensures
            final(self).cutoffs()@.len() == depth,
            forall|i: int| 0 <= i < depth ==> #[trigger] final(self).cutoffs()@[i] == 0,
            final(self).last_eval() == old(self).last_eval(),
    {
        let mut cutoffs: Vec<u64> = Vec::new();
        let mut i: u32 = 0;
        while i < depth
            invariant
                i <= depth,
                cutoffs@.len() == i,
                forall|j: int| 0 <= j < i ==> #[trigger] cutoffs@[j] == 0,
            decreases depth - i,
        {
            cutoffs.push(0);
            i = i + 1;
        }
        self.cutoffs = cutoffs;
    }

    /// Counts one cutoff at a ply (saturating; a ply beyond the counters is
    /// not counted).
    pub fn record_cutoff(&mut self, ply: usize)
        ensures
            final(self).cutoffs()@.len() == old(self).cutoffs()@.len(),
            ply < old(self).cutoffs()@.len() && old(self).cutoffs()@[ply as int] < u64::MAX
                ==> final(self).cutoffs()@ == old(self).cutoffs()@.update(
                ply as int,
                (old(self).cutoffs()@[ply as int] + 1) as u64,
            ),
            !(ply < old(self).cutoffs()@.len() && old(self).cutoffs()@[ply as int] < u64::MAX)
                ==> final(self).cutoffs()@ == old(self).cutoffs()@,
            final(self).last_eval() == old(self).last_eval(),
    {
        if ply < self.cutoffs.len() && self.cutoffs[ply] < u64::MAX {
            let n = self.cutoffs[ply] + 1;
            self.cutoffs.set(ply, n);
        }
    }

    /// Records the score of the chosen move.
    pub fn set_last_eval(&mut self, eval: Option<i32>)
        ensures
            final(self).last_eval() == eval,
            final(self).cutoffs() == old(self).cutoffs(),
    {
        self.last_eval = eval;
    }
}

/// No cutoff count of `after` is below the same count of `before`.
pub open spec fn counts_grown(before: SearchStats, after: SearchStats) -> bool {
    &&& after.cutoffs()@.len() == before.cutoffs()@.len()
    &&& forall|i: int|
        0 <= i < before.cutoffs()@.len() ==> #[trigger] after.cutoffs()@[i] >= before.cutoffs()@[i]
}

/// The alpha-beta search of a position `depth` plies deep, in the window
/// `[alpha, beta]`. Inside the window the result is the exact minimax value;
/// below it, an upper bound of that value; above it, a lower bound.
pub fn alpha_beta(
    game: &Position,
    depth: u32,
    alpha: i32,
    beta: i32,
    side: Color,
    ply: usize,
    stats: &mut SearchStats,
) -> (r: i32)
    requires
        game.wf(),
        alpha <= beta,
    ensures
        r < alpha ==> minimax(game@, depth as nat, side) <= r,
        r > beta ==> minimax(game@, depth as nat, side) >= r,
        alpha <= r <= beta ==> minimax(game@, depth as nat, side) == r,
        counts_grown(*old(stats), *final(stats)),
        final(stats).last_eval() == old(stats).last_eval(),
    decreases depth,
{
    if depth == 0 || game.is_game_over() {
        return evaluate_position(game, side);
    }
    let ghost fen = game@;
    let ghost d = depth as nat;
    let moves = game.legal_moves();
    let maxing = game.turn() == side;
    let mut best: i32 = if maxing {
        i32::MIN
    } else {
        i32::MAX
    };
    let mut a: i32 = alpha;
    let mut b: i32 = beta;
    let mut i: usize = 0;
    while i < moves.len()
        invariant
            game.wf(),
            fen == game@,
            d == depth as nat,
            depth > 0,
            !game_over_of(fen),
            moves@.len() == legal_moves_of(fen).len(),
            forall|j: int| 0 <= j < moves@.len() ==> #[trigger] moves@[j]@ == legal_moves_of(fen)[j],
            0 <= i <= moves@.len(),
            maxing == maximizing(fen, side),
            alpha <= beta,
            counts_grown(*old(stats), *stats),
            stats.last_eval() == old(stats).last_eval(),
            maxing ==> {
                &&& b == beta
                &&& a == (if best > alpha { best } else { alpha })
                &&& best <= beta
                &&& best < alpha ==> children_value(fen, d, side, i as nat) <= best
                &&& alpha <= best ==> children_value(fen, d, side, i as nat) == best
            },
            !maxing ==> {
                &&& a == alpha
                &&& b == (if best < beta { best } else { beta })
                &&& best >= alpha
                &&& best > beta ==> children_value(fen, d, side, i as nat) >= best
                &&& best <= beta ==> children_value(fen, d, side, i as nat) == best
            },
        decreases moves@.len() - i,
    {
        proof {
            assert(legal_moves_of(fen).contains(moves@[i as int]@));
        }
        let child = game.play(&moves[i]);
        let next_ply: usize = if ply < usize::MAX {
            ply + 1
        } else {
            ply
        };
        let c = alpha_beta(&child, depth - 1, a, b, side, next_ply, stats);
        proof {
            assert(children_value(fen, d, side, (i + 1) as nat) == {
                let prev = children_value(fen, d, side, i as nat);
                let v = minimax(child@, (d - 1) as nat, side);
                if maxing {
                    if v > prev {
                        v
                    } else {
                        prev
                    }
                } else {
                    if v < prev {
                        v
                    } else {
                        prev
                    }
                }
            });
        }
        if maxing {
            if c > best {
                best = c;
            }
            if c > a {
                a = c;
            }
            if c > beta {
                stats.record_cutoff(ply);
                proof {
                    lemma_children_value_monotone(fen, d, side, (i + 1) as nat, moves@.len() as nat);
                }
                return best;
            }
        } else {
            if c < best {
                best = c;
            }
            if c < b {
                b = c;
            }
            if c < alpha {
                stats.record_cutoff(ply);
                proof {
                    lemma_children_value_monotone(fen, d, side, (i + 1) as nat, moves@.len() as nat);
                }
                return best;
            }
        }
        i = i + 1;
    }
    best
}

/// Whether `m` is the move at index `k` of the root's legal moves, its value is
/// the root's value, and every earlier move's value is lower: the first move,
/// in the rules engine's order, of largest minimax value.
pub open spec fn first_best_move(fen: PositionView, depth: nat, side: Color, m: Seq<char>, k: int) -> bool {
    &&& 0 <= k < legal_moves_of(fen).len()
    &&& legal_moves_of(fen)[k] == m
    &&& root_child_value(fen, depth, side, m) == root_value(fen, depth, side)
    &&& forall|j: int|
        0 <= j < k ==> #[trigger] root_child_value(fen, depth, side, legal_moves_of(fen)[j])
            < root_value(fen, depth, side)
}

/// Whether `m` is the first move, in the rules engine's order, of largest
/// minimax value at the root.
pub open spec fn is_first_best_move(fen: PositionView, depth: nat, side: Color, m: Seq<char>) -> bool {
    exists|k: int| first_best_move(fen, depth, side, m, k)
}

/// Chooses a move for `side`: the legal move whose minimax value, searched
/// `depth` plies deep (at least one), is the largest; on equal values the
/// first in the rules engine's order. Nothing when the game is over.
pub fn search(game: &Position, side: Color, depth: u32, stats: &mut SearchStats) -> (r: Option<
    String,
>)
    requires
        game.wf(),
    ensures
        r is None <==> game_over_of(game@),
        r matches Some(m) ==> legal_moves_of(game@).contains(m@),
        r matches Some(m) ==> root_child_value(game@, depth as nat, side, m@) == root_value(
            game@,
            depth as nat,
            side,
        ),
        r matches Some(m) ==> is_first_best_move(game@, depth as nat, side, m@),
        r matches Some(m) ==> final(stats).last_eval() == Some(
            root_value(game@, depth as nat, side) as i32,
        ),
        r is None ==> final(stats).last_eval() is None,
        final(stats).cutoffs()@.len() == depth,
{
    stats.reset(depth);
    if game.is_game_over() {
        stats.set_last_eval(None);
        return None;
    }
    let ghost fen = game@;
    let moves = game.legal_moves();
    let below: u32 = if depth == 0 {
        0
    } else {
        depth - 1
    };
    let mut best: i32 = i32::MIN;
    let mut best_idx: usize = 0;
    let mut i: usize = 0;
    while i < moves.len()
        invariant
            game.wf(),
            fen == game@,
            !game_over_of(fen),
            below as nat == child_depth(depth as nat),
            moves@.len() == legal_moves_of(fen).len(),
            forall|j: int| 0 <= j < moves@.len() ==> #[trigger] moves@[j]@ == legal_moves_of(fen)[j],
            0 <= i <= moves@.len(),
            best_idx < moves@.len(),
            stats.cutoffs()@.len() == depth,
            best == root_fold(fen, depth as nat, side, i as nat),
            i > 0 ==> best_idx < i && root_child_value(fen, depth as nat, side, legal_moves_of(fen)[best_idx as int]) == best,
            forall|j: int|
                0 <= j < best_idx ==> #[trigger] root_child_value(
                    fen,
                    depth as nat,
                    side,
                    legal_moves_of(fen)[j],
                ) < best,
        decreases moves@.len() - i,
    {
        proof {
            assert(legal_moves_of(fen).contains(moves@[i as int]@));
        }
        let child = game.play(&moves[i]);
        let c = alpha_beta(&child, below, best, i32::MAX, side, 1, stats);
        proof {
            if c > best {
                assert forall|j: int| 0 <= j < i implies #[trigger] root_child_value(
                    fen,
                    depth as nat,
                    side,
                    legal_moves_of(fen)[j],
                ) < c by {
                    lemma_root_value_is_maximal(fen, depth as nat, side, i as nat, j);
                }
            }
        }
        if c > best || i == 0 {
            best = c;
            best_idx = i;
        }
        i = i + 1;
    }
    stats.set_last_eval(Some(best));
    proof {
        assert(legal_moves_of(fen).contains(moves@[best_idx as int]@));
    }
    let chosen = moves[best_idx].clone();
    proof {
        assert(first_best_move(game@, depth as nat, side, chosen@, best_idx as int));
        assert(is_first_best_move(game@, depth as nat, side, chosen@));
    }
    Some(chosen)
}

} // verus!
