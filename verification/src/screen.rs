//! The steps of the game, screen by screen.

pub mod board;
pub mod help;
pub mod menu;
pub mod spellcasting;
pub mod turnmenu;
