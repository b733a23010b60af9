//! Decisions, text formats and state machines of the `e-voice` dictation
//! post-processor.
pub mod app;
pub mod cli;
pub mod client;
pub mod config;
pub mod daemon;
pub mod diagnostics;
pub mod hook;
pub mod http_server;
pub mod json;
pub mod json_reader;
pub mod llm_backend;
pub mod modes;
pub mod processor;
pub mod setup;
pub mod strings;
pub mod system_adapter;
pub mod text;
pub mod transport;
pub mod tray;
pub mod voxtype;
