//! The steps of the bot's commands.
pub mod add;
pub mod list;
pub mod overview;
