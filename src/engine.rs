//! The move-selector interface and its two implementations: a random mover
//! and a minimax searcher.
use crate::rules::{
    game_over_of, legal_moves_of, played, resolved_uci_of, white_to_move_of, Color, Position,
    PositionView,
};
use crate::search::{is_first_best_move, root_child_value, root_value, search, SearchStats};
use rand::Rng;
use vstd::prelude::*;

verus! {

/// The search depth, in plies, of a new `MainEngine`.
pub const DEFAULT_DEPTH: u32 = 4;

/// Why a move could not be applied.
#[derive(Clone, Copy, Debug, PartialEq, Eq, Structural)]
pub enum MoveError {
    /// The move does not denote a legal move of the current position.
    InvalidMove,
}

/// A move selector for one game: it follows the game's moves and produces
/// the moves of its own side.
pub trait Engine {
    /// The FEN of the current position.
    spec fn state(&self) -> PositionView;

    /// The selector's current position is valid.
    spec fn inv(&self) -> bool;

    /// Plays a move given as UCI text; an illegal move fails and changes
    /// nothing.
    fn update_board(&mut self, move_played: &str) -> (r: Result<(), MoveError>)
        requires
            old(self).inv(),
        ensures
            final(self).inv(),
            r is Ok <==> resolved_uci_of(old(self).state(), move_played@) is Some,
            r is Err ==> final(self).state() == old(self).state() && r == Err::<(), MoveError>(
                MoveError::InvalidMove,
            ),
            r is Ok ==> final(self).state() == played(
                old(self).state(),
                resolved_uci_of(old(self).state(), move_played@)->Some_0,
            ),
    ;

    /// The move to play next, as UCI text; nothing when no move can be played.
    fn search(&mut self) -> (r: Option<String>)
        requires
            old(self).inv(),
        ensures
            final(self).inv(),
            final(self).state() == old(self).state(),
            r matches Some(m) ==> legal_moves_of(old(self).state()).contains(m@),
            legal_moves_of(old(self).state()).len() == 0 ==> r is None,
    ;

    /// The current position.
    fn get_game_state(&self) -> (r: &Position)
        requires
            self.inv(),
        ensures
            r@ == self.state(),
            r.wf(),
    ;

    /// Whether the selector should move now.
    fn is_my_turn(&self) -> (r: bool)
        requires
            self.inv(),
    ;
}

/// A move selector that plays a uniformly random legal move.
pub struct RandomEngine {
    game: Position,
    color: Color,
}

/// A move selector that plays the best move of a fixed-depth minimax search.
pub struct MainEngine {
    game: Position,
    color: Color,
    depth: u32,
    stats: SearchStats,
}

/// Relies on `rand::rng()` and `Rng::random_range`: a number below `n`.
#[verifier::external_body]
fn random_index(n: usize) -> (r: usize)
    requires
        n > 0,
    ensures
        r < n,
{
    rand::rng().random_range(0..n)
}

/// The move at `index` of a list of legal moves, or nothing if there is none
/// there.
pub fn choose_move(legal: &Vec<String>, index: usize) -> (r: Option<String>)
    ensures
        index < legal@.len() ==> r == Some(legal@[index as int]),
        index >= legal@.len() ==> r is None,
{
    if index < legal.len() {
        Some(legal[index].clone())
    } else {
        None
    }
}

impl RandomEngine {
    pub fn new(initial_position: Position, bot_color: Color) -> (r: RandomEngine)
        requires
            initial_position.wf(),
        ensures
            r.inv(),
            r.state() == initial_position@,
            r.color() == bot_color,
    {
        RandomEngine { game: initial_position, color: bot_color }
    }

    pub closed spec fn color(&self) -> Color {
        self.color
    }
}

impl Engine for RandomEngine {
    closed spec fn state(&self) -> PositionView {
        self.game@
    }

    closed spec fn inv(&self) -> bool {
        self.game.wf()
    }

    fn update_board(&mut self, move_played: &str) -> (r: Result<(), MoveError>)
        ensures
            final(self).color() == old(self).color(),
    {
        match self.game.resolve_uci(move_played) {
            Some(m) => {
                self.game = self.game.play(&m);
                Ok(())
            },
            None => Err(MoveError::InvalidMove),
        }
    }

    fn search(&mut self) -> (r: Option<String>)
        ensures
            r is None <==> legal_moves_of(old(self).state()).len() == 0,
            final(self).color() == old(self).color(),
    {
        let legals = self.game.legal_moves();
        if legals.len() == 0 {
            return None;
        }
        let index = random_index(legals.len());
        proof {
            assert(legal_moves_of(self.game@).contains(legals@[index as int]@));
        }
        choose_move(&legals, index)
    }

    fn get_game_state(&self) -> (r: &Position) {
        &self.game
    }

    fn is_my_turn(&self) -> (r: bool)
        ensures
            r == (white_to_move_of(self.state()) == self.color().is_white()),
    {
        self.game.turn() == self.color
    }
}

impl MainEngine {
    pub fn new(initial_position: Position, bot_color: Color) -> (r: MainEngine)
        requires
            initial_position.wf(),
        ensures
            r.inv(),
            r.state() == initial_position@,
            r.color() == bot_color,
            r.depth() == DEFAULT_DEPTH,
    {
        MainEngine {
            game: initial_position,
            color: bot_color,
            depth: DEFAULT_DEPTH,
            stats: SearchStats::new(),
        }
    }

    /// The same selector, searching `depth` plies deep.
    pub fn with_depth(self, depth: u32) -> (r: MainEngine)
        ensures
            r.depth() == depth,
            r.state() == self.state(),
            r.inv() == self.inv(),
            r.color() == self.color(),
    {
        MainEngine { depth, ..self }
    }

    pub closed spec fn color(&self) -> Color {
        self.color
    }

    pub closed spec fn depth(&self) -> u32 {
        self.depth
    }

    pub closed spec fn stats_view(&self) -> SearchStats {
        self.stats
    }

    /// The diagnostics of the last search.
    pub fn stats(&self) -> (r: &SearchStats)
        ensures
            r == self.stats_view(),
    {
        &self.stats
    }
}

impl Engine for MainEngine {
    closed spec fn state(&self) -> PositionView {
        self.game@
    }

    closed spec fn inv(&self) -> bool {
        self.game.wf()
    }

    fn update_board(&mut self, move_played: &str) -> (r: Result<(), MoveError>)
        ensures
            final(self).color() == old(self).color(),
            final(self).depth() == old(self).depth(),
    {
        match self.game.resolve_uci(move_played) {
            Some(m) => {
                self.game = self.game.play(&m);
                Ok(())
            },
            None => Err(MoveError::InvalidMove),
        }
    }

    fn search(&mut self) -> (r: Option<String>)
        ensures
            r is None <==> game_over_of(old(self).state()),
            r matches Some(m) ==> root_child_value(
                old(self).state(),
                old(self).depth() as nat,
                old(self).color(),
                m@,
            ) == root_value(old(self).state(), old(self).depth() as nat, old(self).color()),
            r matches Some(m) ==> is_first_best_move(
                old(self).state(),
                old(self).depth() as nat,
                old(self).color(),
                m@,
            ),
            r matches Some(m) ==> final(self).stats_view().last_eval() == Some(
                root_value(old(self).state(), old(self).depth() as nat, old(self).color()) as i32,
            ),
            r is None ==> final(self).stats_view().last_eval() is None,
            final(self).depth() == old(self).depth(),
            final(self).color() == old(self).color(),
            final(self).stats_view().cutoffs()@.len() == old(self).depth(),
    {
        search(&self.game, self.color, self.depth, &mut self.stats)
    }

    fn get_game_state(&self) -> (r: &Position) {
        &self.game
    }

    fn is_my_turn(&self) -> (r: bool)
        ensures
            r == (!game_over_of(self.state()) && white_to_move_of(self.state())
                == self.color().is_white()),
    {
        !self.game.is_game_over() && self.game.turn() == self.color
    }
}

/// A new selector for a game, playing `bot_color` from `initial_position`.
pub fn init_engine(initial_position: Position, bot_color: Color) -> (r: RandomEngine)
    requires
        initial_position.wf(),
    ensures
        r.inv(),
        r.state() == initial_position@,
        r.color() == bot_color,
{
    RandomEngine::new(initial_position, bot_color)
}

} // verus!
