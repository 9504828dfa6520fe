//! The server binary's arguments and configuration checks.

pub mod args;
pub mod config;
pub mod proxy;
