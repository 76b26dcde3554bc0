//! A Swift language integration for an editor host: resolution of the
//! language-server and debug-adapter command lines, synthesis of display
//! labels for completions and symbols, and translation of debug
//! configurations.
pub mod debug;
pub mod env;
pub mod error;
pub mod extension;
pub mod labels;
pub mod language_server;
pub mod text;
