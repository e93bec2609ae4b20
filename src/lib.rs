//! The simulation core of a side-scrolling obstacle game: a player falls and
//! jumps through the gaps of obstacle pairs that scroll in from the right,
//! scoring one point per pair passed, until it hits one or falls below the
//! field.
//!
//! All arithmetic is on integers (see `fixed`); `game::Game::tick` advances the
//! whole simulation by one fixed tick and is specified by `game::tick_spec`.
pub mod config;
pub mod fixed;
pub mod game;
pub mod game_size;
pub mod gamescore;
pub mod gamestate;
pub mod moai;
pub mod pebble;
pub mod random;
