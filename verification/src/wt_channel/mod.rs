//! The ways to talk to the terminal: a program that is run for each request, a
//! pipe, and a COM server.
pub mod cli_channel;
pub mod com_channel;
pub mod discovery;
pub mod pipe_channel;
