//! Decisions of the resident proxy service: how it starts, reloads and ends, how it is asked to
//! reload, how it keeps its files, and what it logs.
//!
//! Nothing here touches the machine. What takes more than one step is a run: `action` says what it
//! asks for, and `tell` takes in what came of it.

pub mod claim;
pub mod client;
pub mod control_file;
pub mod decimal;
pub mod event_log;
pub mod events;
pub mod levels;
pub mod logfmt;
pub mod notify;
pub mod paths;
pub mod pid_file;
pub mod progress;
pub mod reload;
pub mod runtime;
pub mod service;
pub mod service_log;
pub mod signals;
pub mod text;
pub mod utf8;
pub mod views;
pub mod worker;
