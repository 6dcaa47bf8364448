//! A process supervisor: the state of supervised apps, their captured output,
//! the daemon's log store, the token authority and the control surface's
//! decisions, together with the helpers of its command-line client.

pub mod api;
pub mod auth;
pub mod cli;
pub mod config;
pub mod control;
pub mod daemon;
pub mod logs;
pub mod project;
pub mod status;
pub mod text;
pub mod timer;
pub mod update;
