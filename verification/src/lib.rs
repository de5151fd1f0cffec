//! Simulation core of a snake game on a fixed-size character grid.
//!
//! The library owns the whole game state: the snake's body (a ring buffer of
//! grid cells), the food cell, the direction vector and the game-over flag.
//! It advances the state one tick at a time, interprets directional input,
//! detects self-collision, and describes what to draw as a list of plot
//! commands; a thin platform adapter performs the actual drawing.

pub mod game;
pub mod input;
pub mod laws;
pub mod render;

pub use game::SnakeGame;
pub use input::KeyEvent;
pub use input::RawKey;
pub use render::GlyphColor;
pub use render::PlotCmd;
