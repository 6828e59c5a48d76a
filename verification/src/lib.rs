//! A terminal agent: the chat with an agent beside the shell, the choices that
//! the agent recommends, and how they are carried out.
pub mod app;
pub mod cli;
pub mod commandline;
pub mod coordinator;
pub mod editing;
pub mod executor;
pub mod json;
pub mod laws;
pub mod mcp;
pub mod preflight;
pub mod text;
pub mod text_map;
pub mod ui;
pub mod ui_trace;
pub mod win32;
pub mod wt_channel;
