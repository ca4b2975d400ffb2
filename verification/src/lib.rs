//! A verified chess-board core: squares with algebraic notation, an 8x8
//! board of optional pieces, pseudo-legal move generation per piece kind,
//! and validated move application with capture bookkeeping.
//!
//! The library deliberately stops short of full chess legality: moves are
//! geometric (reachable and not blocked by a friendly piece), with no check
//! filtering, castling, en passant or promotion. Presentation and any
//! interactive host live outside the library; the board exposes a queryable
//! surface (cells, turn owner, capture lists) that suffices to render it.

pub mod chess_types;
pub mod game_engine;
