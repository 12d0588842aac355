//! The decisions behind a desktop shell that hosts the DSH web interface.
//!
//! The shell extracts a bundled runtime, keeps one DSH process running and
//! shows its web interface. What it reads from the disk, from the process and
//! from the user comes in as plain values; what is to be done goes out as
//! plain values. Nothing here touches the disk or a window.

pub mod command;
pub mod copying;
pub mod effect;
pub mod failure;
pub mod json;
pub mod launch;
pub mod log;
pub mod manifest;
pub mod mirror;
pub mod output;
pub mod place;
pub mod platform;
pub mod profile;
pub mod removal;
pub mod runtime;
pub mod script;
pub mod service;
pub mod shell;
pub mod stale;
pub mod text;
