//! Rules engine of a turn-based wizard-combat board game: the board, the
//! tactical distance metric, spells, movement, combat and the turn cycle.

pub mod board;
pub mod chance;
pub mod constants;
pub mod creature;
pub mod cursor;
pub mod display;
pub mod entity;
pub mod game;
pub mod gamestate;
pub mod netcode;
pub mod player;
pub mod screen;
pub mod spell;
pub mod system;
pub mod text;
pub mod turn;
pub mod vec;
