//! Shared types of the bot.

use vstd::prelude::*;
use crate::error::ButlerError;

verus! {

/// The result of a bot operation.
pub type ButlerResult<T> = Result<T, ButlerError>;

/// What a music request asks for.
#[derive(Clone, Debug, PartialEq, Eq)]
pub enum QueryType {
    Keywords(String),
    KeywordList(Vec<String>),
    VideoLink(String),
    PlaylistLink(String),
}

} // verus!
