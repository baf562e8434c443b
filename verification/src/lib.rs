//! Decision logic of a terminal updater for developer tools.

pub mod command_line;
pub mod ending;
pub mod job;
pub mod language;
pub mod number;
pub mod search;
pub mod terminal;
pub mod terminal_laws;
pub mod text;
pub mod text_laws;
pub mod tui;
pub mod version;
pub mod version_laws;
pub mod worker;
pub mod worker_laws;
pub mod worker_steps;
