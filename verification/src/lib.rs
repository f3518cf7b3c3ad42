//! Decision and message logic of the youmubot osu! commands and of the bot's
//! command framework, with the results of each piece stated as contracts.

pub mod decimal;
pub mod text;
pub mod discord;
pub mod errors;
pub mod replies;
pub mod args;
pub mod ranking;
pub mod listing;
pub mod beatmap;
pub mod framework;
