//! The commands that control the terminal from a shell.
pub mod commands;
pub mod host;
pub mod keys;
pub mod output;
pub mod pipes;
pub mod walk;
