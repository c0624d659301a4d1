//! Backup status reports for a chat bot.
//!
//! An operator sends short text commands; the bot answers with the state of
//! the database backups. This crate holds the decisions of that bot: which
//! command a message is, how the output of the backup tool is read into a
//! typed report, which replies are sent, and what is done at startup.
//! Sending, receiving, running the backup tool and reading the settings file
//! are left to the program around it.

pub mod collector;
pub mod config;
pub mod document;
pub mod json;
pub mod model;
pub mod parser;
pub mod render;
pub mod router;
pub mod text;
pub mod theorems;
