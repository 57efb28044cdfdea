//! Space Boss Battles game library: timing, input handling, settings,
//! audio bookkeeping, GUI selection logic and the integer core of the game logic.

pub mod utils;
pub mod input;
pub mod text;
pub mod audio;
pub mod settings;
pub mod logic;
pub mod gui;
pub mod gl;
pub mod window;
pub mod game;
pub mod texture;
