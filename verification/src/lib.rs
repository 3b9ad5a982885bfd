//! Rules of the gorb transporter game: the terrain map, the player's gorb
//! chamber and blood tally, the dialogues shown on delivery and on timeout,
//! and the game-state transitions that input drives.

pub mod dialogue;
pub mod game;
pub mod player;
pub mod ui;
pub mod world;
