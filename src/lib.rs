//! Orchestration core of a donation-announcing chat bot: donation payloads,
//! credentials and channel sets, the token guardian, the command router, the
//! announcement dispatcher and the chat event handler.

pub mod auth;
pub mod channels;
pub mod chat;
pub mod commands;
pub mod config;
pub mod dispatch;
pub mod guardian;
pub mod text;
pub mod tiltify;
pub mod webhook;
