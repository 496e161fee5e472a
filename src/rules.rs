//! The game-rules collaborator: positions as FEN text, moves as UCI text, and
//! one trusted wrapper for each query that the engine makes of `shakmaty`.
use shakmaty::fen::Fen;
use shakmaty::uci::UciMove;
use shakmaty::Position as ShakmatyPosition;
use shakmaty::{CastlingMode, Chess, EnPassantMode};
use vstd::prelude::*;

verus! {

/// A side of the board.
#[derive(Clone, Copy, Debug, PartialEq, Eq, Structural)]
pub enum Color {
    White,
    Black,
}

impl Color {
    pub open spec fn is_white(self) -> bool {
        self == Color::White
    }
}

/// How many pieces of each kind one side has on the board.
#[derive(Clone, Copy, Debug, PartialEq, Eq, Structural)]
pub struct Material {
    pub pawn: u8,
    pub knight: u8,
    pub bishop: u8,
    pub rook: u8,
    pub queen: u8,
    pub king: u8,
}

/// A position as the rules engine sees it: its FEN text, and whether castling
/// follows Chess960 rules (moves are then written king-to-rook in UCI).
pub type PositionView = (Seq<char>, bool);

/// Whether a text is a FEN that sets up a valid chess position in the given
/// castling mode.
pub uninterp spec fn fen_is_position(pos: PositionView) -> bool;

/// The legal moves of a position, as UCI texts, in the rules engine's order.
pub uninterp spec fn legal_moves_of(pos: PositionView) -> Seq<Seq<char>>;

/// The FEN of the position reached by playing a legal move.
pub uninterp spec fn played_of(pos: PositionView, uci: Seq<char>) -> Seq<char>;

/// Whether White is to move.
pub uninterp spec fn white_to_move_of(pos: PositionView) -> bool;

/// The fullmove number of a position.
pub uninterp spec fn fullmoves_of(pos: PositionView) -> int;

/// Whether the side to move is checkmated.
pub uninterp spec fn checkmate_of(pos: PositionView) -> bool;

/// Whether the side to move is stalemated.
pub uninterp spec fn stalemate_of(pos: PositionView) -> bool;

/// Whether neither side has enough material left to win.
pub uninterp spec fn insufficient_material_of(pos: PositionView) -> bool;

/// The material that one side (White when `white`) has on the board.
pub uninterp spec fn material_of(pos: PositionView, white: bool) -> Material;

/// The legal move, as canonical UCI text, that a UCI text denotes in a
/// position, if it denotes one.
pub uninterp spec fn resolved_uci_of(pos: PositionView, uci: Seq<char>) -> Option<Seq<char>>;

/// Whether a position is over: no legal move is left, or neither side can
/// win any more.
pub open spec fn game_over_of(pos: PositionView) -> bool {
    legal_moves_of(pos).len() == 0 || insufficient_material_of(pos)
}

/// The position (in the same castling mode) reached by playing a legal move.
pub open spec fn played(pos: PositionView, uci: Seq<char>) -> PositionView {
    (played_of(pos, uci), pos.1)
}

/// A chess position, held as its FEN text and its castling mode.
pub struct Position {
    fen: String,
    chess960: bool,
}

impl View for Position {
    type V = PositionView;

    closed spec fn view(&self) -> PositionView {
        (self.fen@, self.chess960)
    }
}

impl Position {
    /// The position holds a FEN that sets up a valid position.
    pub open spec fn wf(&self) -> bool {
        fen_is_position(self@)
    }

    /// Sets up the standard-chess position that a FEN text describes, if it
    /// is valid.
    pub fn from_fen(fen: &str) -> (r: Option<Position>)
        ensures
            r is Some <==> fen_is_position((fen@, false)),
            r matches Some(p) ==> p@ == (fen@, false) && p.wf(),
    {
        Position::from_fen_in_mode(fen, false)
    }

    /// Sets up the position that a FEN text describes, with Chess960 castling
    /// when `chess960`, if it is valid.
    pub fn from_fen_in_mode(fen: &str, chess960: bool) -> (r: Option<Position>)
        ensures
            r is Some <==> fen_is_position((fen@, chess960)),
            r matches Some(p) ==> p@ == (fen@, chess960) && p.wf(),
    {
        if is_position(fen, chess960) {
            Some(Position { fen: fen.to_owned(), chess960 })
        } else {
            None
        }
    }

    /// The FEN text of the position.
    pub fn fen(&self) -> (r: &str)
        ensures
            r@ == self@.0,
    {
        self.fen.as_str()
    }

    /// Whether castling follows Chess960 rules.
    pub fn is_chess960(&self) -> (r: bool)
        ensures
            r == self@.1,
    {
        self.chess960
    }

    pub fn clone(&self) -> (r: Position)
        ensures
            r@ == self@,
    {
        Position { fen: self.fen.clone(), chess960: self.chess960 }
    }

    /// The legal moves, as UCI texts.
    pub fn legal_moves(&self) -> (r: Vec<String>)
        requires
            self.wf(),
        ensures
            r@.len() == legal_moves_of(self@).len(),
            forall|i: int| 0 <= i < r@.len() ==> #[trigger] r@[i]@ == legal_moves_of(self@)[i],
    {
        legal_moves(&self.fen, self.chess960)
    }

    /// The position after a legal move.
    pub fn play(&self, uci: &String) -> (r: Position)
        requires
            self.wf(),
            legal_moves_of(self@).contains(uci@),
        ensures
            r@ == played(self@, uci@),
            r.wf(),
    {
        Position { fen: play_legal(&self.fen, self.chess960, uci), chess960: self.chess960 }
    }

    pub fn white_to_move(&self) -> (r: bool)
        requires
            self.wf(),
        ensures
            r == white_to_move_of(self@),
    {
        white_to_move(&self.fen, self.chess960)
    }

    /// The side to move.
    pub fn turn(&self) -> (r: Color)
        requires
            self.wf(),
        ensures
            r.is_white() == white_to_move_of(self@),
    {
        if white_to_move(&self.fen, self.chess960) {
            Color::White
        } else {
            Color::Black
        }
    }

    pub fn fullmoves(&self) -> (r: u32)
        requires
            self.wf(),
        ensures
            r as int == fullmoves_of(self@),
            r >= 1,
    {
        fullmoves(&self.fen, self.chess960)
    }

    pub fn is_checkmate(&self) -> (r: bool)
        requires
            self.wf(),
        ensures
            r == checkmate_of(self@),
            r ==> legal_moves_of(self@).len() == 0,
            r ==> !insufficient_material_of(self@),
    {
        is_checkmate(&self.fen, self.chess960)
    }

    pub fn is_stalemate(&self) -> (r: bool)
        requires
            self.wf(),
        ensures
            r == stalemate_of(self@),
            r ==> legal_moves_of(self@).len() == 0,
            r ==> !checkmate_of(self@),
    {
        is_stalemate(&self.fen, self.chess960)
    }

    pub fn is_insufficient_material(&self) -> (r: bool)
        requires
            self.wf(),
        ensures
            r == insufficient_material_of(self@),
    {
        is_insufficient_material(&self.fen, self.chess960)
    }

    pub fn is_game_over(&self) -> (r: bool)
        requires
            self.wf(),
        ensures
            r == game_over_of(self@),
    {
        is_game_over(&self.fen, self.chess960)
    }

    /// The material that one side has on the board.
    pub fn material_side(&self, side: Color) -> (r: Material)
        requires
            self.wf(),
        ensures
            r == material_of(self@, side.is_white()),
    {
        material_side(&self.fen, self.chess960, side == Color::White)
    }

    /// The legal move that a UCI text denotes here, as canonical UCI text.
    pub fn resolve_uci(&self, uci: &str) -> (r: Option<String>)
        requires
            self.wf(),
        ensures
            r matches Some(m) ==> Some(m@) == resolved_uci_of(self@, uci@),
            r is None ==> resolved_uci_of(self@, uci@) is None,
            r matches Some(m) ==> legal_moves_of(self@).contains(m@),
    {
        resolve_uci(&self.fen, self.chess960, uci)
    }
}

/// Relies on `Fen::from_ascii` and `Fen::into_position::<Chess>` in the castling
/// mode that `CastlingMode::from_chess960` gives: whether they set up a
/// position from the text.
#[verifier::external_body]
fn is_position(fen: &str, chess960: bool) -> (r: bool)
    ensures
        r == fen_is_position((fen@, chess960)),
{
    match Fen::from_ascii(fen.as_bytes()) {
        Ok(f) => f.into_position::<Chess>(CastlingMode::from_chess960(chess960)).is_ok(),
        Err(_) => false,
    }
}

/// Relies on `Position::legal_moves`, each move written by
/// `Move::to_uci(mode)`.
#[verifier::external_body]
fn legal_moves(fen: &String, chess960: bool) -> (r: Vec<String>)
    requires
        fen_is_position((fen@, chess960)),
    ensures
        r@.len() == legal_moves_of((fen@, chess960)).len(),
        forall|i: int| 0 <= i < r@.len() ==> #[trigger] r@[i]@ == legal_moves_of((fen@, chess960))[i],
{
    let mode = CastlingMode::from_chess960(chess960);
    let pos: Chess = Fen::from_ascii(fen.as_bytes()).unwrap().into_position(mode).unwrap();
    pos.legal_moves().into_iter().map(|m| m.to_uci(mode).to_string()).collect()
}

/// Relies on `UciMove::to_move` and `Position::play_unchecked`: a legal move is
/// played, and the FEN that `Fen::from_position` writes of the resulting
/// position (always a valid one) sets it up again in the same castling mode.
#[verifier::external_body]
fn play_legal(fen: &String, chess960: bool, uci: &String) -> (r: String)
    requires
        fen_is_position((fen@, chess960)),
        legal_moves_of((fen@, chess960)).contains(uci@),
    ensures
        r@ == played_of((fen@, chess960), uci@),
        fen_is_position((r@, chess960)),
{
    let mode = CastlingMode::from_chess960(chess960);
    let mut pos: Chess = Fen::from_ascii(fen.as_bytes()).unwrap().into_position(mode).unwrap();
    let m = UciMove::from_ascii(uci.as_bytes()).unwrap().to_move(&pos).unwrap();
    pos.play_unchecked(m);
    Fen::from_position(&pos, EnPassantMode::Legal).to_string()
}

/// Relies on `Position::turn`.
#[verifier::external_body]
fn white_to_move(fen: &String, chess960: bool) -> (r: bool)
    requires
        fen_is_position((fen@, chess960)),
    ensures
        r == white_to_move_of((fen@, chess960)),
{
    let mode = CastlingMode::from_chess960(chess960);
    let pos: Chess = Fen::from_ascii(fen.as_bytes()).unwrap().into_position(mode).unwrap();
    pos.turn().is_white()
}

/// Relies on `Position::fullmoves`, which is never zero.
#[verifier::external_body]
fn fullmoves(fen: &String, chess960: bool) -> (r: u32)
    requires
        fen_is_position((fen@, chess960)),
    ensures
        r as int == fullmoves_of((fen@, chess960)),
        r >= 1,
{
    let mode = CastlingMode::from_chess960(chess960);
    let pos: Chess = Fen::from_ascii(fen.as_bytes()).unwrap().into_position(mode).unwrap();
    pos.fullmoves().get()
}

/// Relies on `Position::is_checkmate`: in check and without a legal move. The
/// mating side has won, so (as `Position::has_insufficient_material`
/// documents) the position is not one of insufficient material.
#[verifier::external_body]
fn is_checkmate(fen: &String, chess960: bool) -> (r: bool)
    requires
        fen_is_position((fen@, chess960)),
    ensures
        r == checkmate_of((fen@, chess960)),
        r ==> legal_moves_of((fen@, chess960)).len() == 0,
        r ==> !insufficient_material_of((fen@, chess960)),
{
    let mode = CastlingMode::from_chess960(chess960);
    let pos: Chess = Fen::from_ascii(fen.as_bytes()).unwrap().into_position(mode).unwrap();
    pos.is_checkmate()
}

/// Relies on `Position::is_stalemate`: not in check (so not checkmate) and
/// without a legal move.
#[verifier::external_body]
fn is_stalemate(fen: &String, chess960: bool) -> (r: bool)
    requires
        fen_is_position((fen@, chess960)),
    ensures
        r == stalemate_of((fen@, chess960)),
        r ==> legal_moves_of((fen@, chess960)).len() == 0,
        r ==> !checkmate_of((fen@, chess960)),
{
    let mode = CastlingMode::from_chess960(chess960);
    let pos: Chess = Fen::from_ascii(fen.as_bytes()).unwrap().into_position(mode).unwrap();
    pos.is_stalemate()
}

/// Relies on `Position::is_insufficient_material`.
#[verifier::external_body]
fn is_insufficient_material(fen: &String, chess960: bool) -> (r: bool)
    requires
        fen_is_position((fen@, chess960)),
    ensures
        r == insufficient_material_of((fen@, chess960)),
{
    let mode = CastlingMode::from_chess960(chess960);
    let pos: Chess = Fen::from_ascii(fen.as_bytes()).unwrap().into_position(mode).unwrap();
    pos.is_insufficient_material()
}

/// Relies on `Position::is_game_over`, which for standard chess is "no legal
/// move or insufficient material" (a standard game has no variant end).
#[verifier::external_body]
fn is_game_over(fen: &String, chess960: bool) -> (r: bool)
    requires
        fen_is_position((fen@, chess960)),
    ensures
        r == game_over_of((fen@, chess960)),
{
    let mode = CastlingMode::from_chess960(chess960);
    let pos: Chess = Fen::from_ascii(fen.as_bytes()).unwrap().into_position(mode).unwrap();
    pos.is_game_over()
}

/// Relies on `Board::material_side`: the count of each piece kind of a side.
#[verifier::external_body]
fn material_side(fen: &String, chess960: bool, white: bool) -> (r: Material)
    requires
        fen_is_position((fen@, chess960)),
    ensures
        r == material_of((fen@, chess960), white),
{
    let mode = CastlingMode::from_chess960(chess960);
    let pos: Chess = Fen::from_ascii(fen.as_bytes()).unwrap().into_position(mode).unwrap();
    let m = pos.board().material_side(shakmaty::Color::from_white(white));
    Material { pawn: m.pawn, knight: m.knight, bishop: m.bishop, rook: m.rook, queen: m.queen, king: m.king }
}

/// Relies on `UciMove::from_ascii` and `UciMove::to_move`, which yields only a
/// legal move, written back by `Move::to_uci(mode)`.
#[verifier::external_body]
fn resolve_uci(fen: &String, chess960: bool, uci: &str) -> (r: Option<String>)
    requires
        fen_is_position((fen@, chess960)),
    ensures
        r matches Some(m) ==> Some(m@) == resolved_uci_of((fen@, chess960), uci@),
        r is None ==> resolved_uci_of((fen@, chess960), uci@) is None,
        r matches Some(m) ==> legal_moves_of((fen@, chess960)).contains(m@),
{
    let mode = CastlingMode::from_chess960(chess960);
    let pos: Chess = Fen::from_ascii(fen.as_bytes()).unwrap().into_position(mode).unwrap();
    let m = UciMove::from_ascii(uci.as_bytes()).ok()?.to_move(&pos).ok()?;
    Some(m.to_uci(mode).to_string())
}

} // verus!
