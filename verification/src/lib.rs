//! A chess rules engine.
//!
//! The engine owns the position of a game (an 8x8 grid of optional pieces and
//! the side to move) and decides whether a move from one square to another
//! is legal under the movement rule of the piece that stands on the origin.
//! Every rule is a `spec` function over a mathematical
//! [`Position`](board::Position), and each executable function is proved to
//! compute exactly that function.
//!
//! The rule set is deliberately small: sliding pieces are checked for the
//! shape of their move only (they may pass over occupied squares), and there
//! is no check detection, castling, en passant or promotion.
//!
//! - [`piece`]: pieces and sides.
//! - [`board`]: the board, its model, and the move that relocates a piece.
//! - [`rules`]: the movement rules and the legality of a move.
//! - [`laws`]: what holds of every position and every move.
//! - [`notation`]: squares and boards as text.
//! - [`command`]: the lines a player types in a terminal.
//! - [`screen`]: the board in a window, and clicks on it.

pub mod piece;
pub mod board;
pub mod rules;
pub mod laws;
pub mod notation;
pub mod command;
pub mod screen;
