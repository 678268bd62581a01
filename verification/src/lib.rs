//! The rules of the MasterPiece front end: the menu and game-over screen
//! state machine, the frame clock, and the drawing plan of every screen.
pub mod clock;
pub mod text;
pub mod session;
pub mod draw;
pub mod board;
pub mod screens;
mod shade;
