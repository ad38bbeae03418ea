//! Decision logic of a Telegram bot that finds network cameras, keeps a
//! registry of chat users and answers their commands.

pub mod device;
pub mod discovery;
pub mod handler;
pub mod media;
pub mod messages;
pub mod text;
pub mod time;
pub mod users;
