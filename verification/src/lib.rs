//! A terminal clock: big block digits for the time of day, a countdown timer
//! or a stopwatch, laid out for the size of the terminal.

pub mod character;
pub mod cli;
pub mod clock;
pub mod color;
pub mod config;
pub mod error;
pub mod position;
pub mod screen;
pub mod segment;
pub mod state;
pub mod text;
