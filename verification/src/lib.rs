//! Verified core of the Butler chat bot: error values, the texts and embeds
//! the bot sends, and the decisions its commands and voice handlers take.

pub mod embed;
pub mod error;
pub mod join;
pub mod league;
pub mod music;
pub mod pause;
pub mod stonks;
pub mod text;
pub mod types;
pub mod voice;
