//! Retained-message store and deletion relay for a chat bot that watches one
//! author: captured messages are kept for a bounded time, and when the platform
//! reports a deletion the lost content is looked up and forwarded.

pub mod commands;
pub mod config;
pub mod handler;
pub mod message_storage;
pub mod parser;
