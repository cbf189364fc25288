//! Verified core of `tgrc`, a Telegram command-line reader: configuration
//! parsing, chat-target resolution, paginated history fetching, message
//! rendering and the authorization dialogue with TDLib.

pub mod text;
pub mod decimal;
pub mod chat;
pub mod history;
pub mod config;
pub mod paths;
pub mod auth;
pub mod cli;
