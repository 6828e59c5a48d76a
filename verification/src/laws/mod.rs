//! What the operations of the library are for, stated of their results: each law
//! says what holds of whatever an operation returns or leaves behind.
pub mod execution;
pub mod recommendations;
pub mod sessions;
pub mod commands;
pub mod words;
pub mod fixes;
pub mod typing;
pub mod events;
pub mod channels;
pub mod occasions;
pub mod printing;
