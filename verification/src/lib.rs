//! A terminal typing-trainer engine: word-row layout, a caret/word-matching
//! state machine, a session countdown, and typing statistics, all with
//! verified contracts.

pub mod clock;
pub mod config;
pub mod game;
pub mod layout;
pub mod mode;
pub mod session;
pub mod scores;
pub mod stats;
pub mod text;
pub mod theme;
