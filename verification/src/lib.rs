//! Moderation logic of a Discord bot that quarantines members who are banned or
//! who display a banned server tag.
//!
//! The library holds the decisions; the program around it performs the Discord,
//! webhook and database work that the decisions ask for.
pub mod decimal;
pub mod model;
pub mod table;
pub mod listings;
pub mod messages;
pub mod protocol;
pub mod tag_check;
pub mod quarantine;
pub mod events;
pub mod commands;
pub mod permissions;
pub mod config;
pub mod ids;
pub mod signals;
pub mod time;
