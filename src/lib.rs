//! The rules of **Whack!**: a three-by-three board of tiles that appear at
//! random, a cursor the player moves over them, and a small state machine
//! that keeps score and decides when the game is lost.
//!
//! Positions and sizes are whole pixels and times are whole microseconds, so
//! every rule of the game is stated and checked over integers.

pub mod colours;
pub mod gobs;
pub mod game;

pub use game::{GameManager, GameState, Key};
