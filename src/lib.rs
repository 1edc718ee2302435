//! Driving a webmail tab through a browser's remote debugging protocol:
//! the rules that decide each step, kept apart from the browser itself.

pub mod browser;
pub mod config;
pub mod error;
pub mod flow;
pub mod menu;
pub mod message;
pub mod text;

