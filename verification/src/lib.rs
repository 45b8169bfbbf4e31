//! A verified core for a command-line client of a game-server panel: the
//! configuration types it exchanges with the panel, the parsing of the values
//! users give on the command line, the merging of settings, and the decisions
//! the client makes about local nodes, URLs and streamed messages.

pub mod text;
pub mod json;
pub mod gameserverspec;
pub mod databasespec;
pub mod types;
pub mod jsondatabase;
pub mod client;
