//! Material counting and UCI move parsing.
use crate::rules::{material_of, Color, Material, Position, PositionView};
use shakmaty::uci::UciMove;
use vstd::prelude::*;

verus! {

/// Why a text could not be read as UCI moves.
#[derive(Clone, Copy, Debug, PartialEq, Eq, Structural)]
pub enum ParseError {
    /// A word is not a move in UCI notation.
    InvalidUci,
}

/// The text with leading and trailing whitespace removed.
pub uninterp spec fn trimmed_of(s: Seq<char>) -> Seq<char>;

/// The whitespace-separated words of a text.
pub uninterp spec fn words_of(s: Seq<char>) -> Seq<Seq<char>>;

/// The canonical UCI text of a move in UCI notation, if the text is one.
pub uninterp spec fn uci_of(s: Seq<char>) -> Option<Seq<char>>;

/// Relies on `str::trim`.
#[verifier::external_body]
fn trim(s: &str) -> (r: &str)
    ensures
        r@ == trimmed_of(s@),
{
    s.trim()
}

/// Relies on `str::split_whitespace`.
#[verifier::external_body]
fn split_words(s: &str) -> (r: Vec<String>)
    ensures
        r@.len() == words_of(s@).len(),
        forall|i: int| 0 <= i < r@.len() ==> #[trigger] r@[i]@ == words_of(s@)[i],
{
    s.split_whitespace().map(|w| w.to_string()).collect()
}

/// Relies on `UciMove::from_ascii`, the move written back by its `Display`.
#[verifier::external_body]
fn read_uci(s: &str) -> (r: Option<String>)
    ensures
        r matches Some(m) ==> uci_of(s@) == Some(m@),
        r is None ==> uci_of(s@) is None,
{
    match UciMove::from_ascii(s.as_bytes()) {
        Ok(m) => Some(m.to_string()),
        Err(_) => None,
    }
}

/// Reads one move in UCI notation, ignoring surrounding whitespace; the
/// result is its canonical UCI text.
pub fn parse_uci_move(move_str: &str) -> (r: Result<String, ParseError>)
    ensures
        r matches Ok(m) ==> uci_of(trimmed_of(move_str@)) == Some(m@),
        r is Err <==> uci_of(trimmed_of(move_str@)) is None,
        r is Err ==> r == Err::<String, ParseError>(ParseError::InvalidUci),
{
    match read_uci(trim(move_str)) {
        Some(m) => Ok(m),
        None => Err(ParseError::InvalidUci),
    }
}

/// Reads a whitespace-separated list of moves in UCI notation; fails if any
/// word is not one.
pub fn parse_uci_moves(move_str: &str) -> (r: Result<Vec<String>, ParseError>)
    ensures
        r is Ok <==> forall|i: int|
            0 <= i < words_of(move_str@).len() ==> #[trigger] uci_of(words_of(move_str@)[i]) is Some,
        r matches Ok(v) ==> v@.len() == words_of(move_str@).len() && forall|i: int|
            0 <= i < v@.len() ==> uci_of(words_of(move_str@)[i]) == Some(#[trigger] v@[i]@),
        r is Err ==> r == Err::<Vec<String>, ParseError>(ParseError::InvalidUci),
{
    let words = split_words(move_str);
    let mut uci_moves: Vec<String> = Vec::new();
    let mut i: usize = 0;
    while i < words.len()
        invariant
            words@.len() == words_of(move_str@).len(),
            forall|j: int| 0 <= j < words@.len() ==> #[trigger] words@[j]@ == words_of(move_str@)[j],
            0 <= i <= words@.len(),
            uci_moves@.len() == i,
            forall|j: int|
                0 <= j < i ==> uci_of(words_of(move_str@)[j]) == Some(#[trigger] uci_moves@[j]@),
        decreases words@.len() - i,
    {
        match read_uci(words[i].as_str()) {
            Some(m) => {
                uci_moves.push(m);
            },
            None => {
                proof {
                    assert(words@[i as int]@ == words_of(move_str@)[i as int]);
                    assert(uci_of(words_of(move_str@)[i as int]) is None);
                }
                return Err(ParseError::InvalidUci);
            },
        }
        i = i + 1;
    }
    assert forall|j: int| 0 <= j < words_of(move_str@).len() implies #[trigger] uci_of(
        words_of(move_str@)[j],
    ) is Some by {
        assert(uci_of(words_of(move_str@)[j]) == Some(uci_moves@[j]@));
    }
    Ok(uci_moves)
}

pub const QUEEN_VALUE: i32 = 9;

pub const ROOK_VALUE: i32 = 5;

pub const BISHOP_VALUE: i32 = 3;

pub const KNIGHT_VALUE: i32 = 3;

pub const PAWN_VALUE: i32 = 1;

/// The standard value of a side's pieces (the king counts nothing).
pub open spec fn material_value(m: Material) -> int {
    m.pawn * PAWN_VALUE + m.knight * KNIGHT_VALUE + m.bishop * BISHOP_VALUE + m.rook * ROOK_VALUE
        + m.queen * QUEEN_VALUE
}

/// White's material value minus Black's in a position.
pub open spec fn material_difference_of(fen: PositionView) -> int {
    material_value(material_of(fen, true)) - material_value(material_of(fen, false))
}

/// `m` has at least as many pieces of each valued kind as `n`.
pub open spec fn at_least(m: Material, n: Material) -> bool {
    m.pawn >= n.pawn && m.knight >= n.knight && m.bishop >= n.bishop && m.rook >= n.rook
        && m.queen >= n.queen
}

/// Adding pieces never lowers a side's material value, and adding any valued
/// piece strictly raises it.
pub proof fn lemma_material_monotone(more: Material, less: Material)
    requires
        at_least(more, less),
    ensures
        material_value(more) >= material_value(less),
        more != less && more.king == less.king ==> material_value(more) > material_value(less),
{
}

pub fn material_for_side(mat_side: Material) -> (r: i32)
    ensures
        r == material_value(mat_side),
{
    let w = mat_side;
    (w.pawn as i32) * PAWN_VALUE + (w.knight as i32) * KNIGHT_VALUE + (w.bishop as i32)
        * BISHOP_VALUE + (w.rook as i32) * ROOK_VALUE + (w.queen as i32) * QUEEN_VALUE
}

/// White's material value minus Black's.
pub fn material_difference(position: &Position) -> (r: i32)
    requires
        position.wf(),
    ensures
        r == material_difference_of(position@),
{
    let white = position.material_side(Color::White);
    let black = position.material_side(Color::Black);
    material_for_side(white) - material_for_side(black)
}

} // verus!
