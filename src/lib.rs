//! Logic of a small grid snake game: movement, collision, food, score and
//! the screen state machine. Positions live on a 16-unit grid inside a
//! 480 by 480 arena.

pub mod death_screen;
pub mod food;
pub mod grid;
pub mod highscore;
pub mod menu;
pub mod snake;
pub mod state;
