//! Verified core of the Saad coding agent: conversation memory, the
//! permission state machine, slash-command parsing, configuration values
//! and the text rendering of tool results.

pub mod text;
pub mod config;
pub mod error;
pub mod tool;
pub mod session;
pub mod command;
pub mod message;
pub mod memory;
pub mod permission;
pub mod agent;
pub mod stream_handler;
pub mod ui;
