//! Core logic of a command-line front end for the zopfli compression engine.
//!
//! The library validates a run configuration, resolves the destination path
//! for each input, sniffs inputs for well-known compressed-format signatures,
//! drives a whole-buffer compression job through the engine, and renders a
//! human-readable size report. File and terminal I/O, argument parsing, and
//! logging live in the surrounding binary; the functions here work on plain
//! values and carry contracts checked by Verus.

pub mod cli;
pub mod engine;
pub mod job;
pub mod report;
pub mod sniff;

pub use cli::ConfigError;
pub use cli::Format;
pub use cli::LogLevel;
pub use cli::Opt;
pub use cli::Shell;
pub use cli::Suffix;
pub use cli::SuffixError;
