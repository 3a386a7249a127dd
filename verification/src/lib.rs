//! Protocol translation core.

pub mod text;
pub mod json;
pub mod types;
pub mod translate;
pub mod config;
pub mod error;
pub mod ids;
pub mod stream;
pub mod server;
pub mod state;
pub mod commands;
