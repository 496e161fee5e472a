//! A move-selection engine for chess: a depth-bounded minimax search with
//! alpha-beta pruning over an additive/absolute evaluation algebra, behind a
//! move-selector interface with a random and a searching implementation.
//!
//! Game rules (legal moves, move application, terminal tests, material
//! counts) come from the `shakmaty` crate. A position is held as its FEN text
//! and its castling mode (standard or Chess960), and a move as its UCI text.
pub mod engine;
pub mod evaluation;
pub mod rules;
pub mod search;
pub mod strategy;
pub mod util;
