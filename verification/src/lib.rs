//! Verified core of a Telegram bot that tracks GitHub issues by label.
pub mod text;
pub mod pagination;
pub mod storage;
pub mod messaging;
pub mod bot_handler;
pub mod config;
pub mod github;
pub mod poller;
pub mod urls;
pub mod repository;
