//! The `join` command: connect to the caller's voice channel and set up the
//! voice handlers.

use vstd::prelude::*;
use serenity::model::id::ChannelId;
use serenity::model::mention::Mentionable;
use crate::text::decimal;
use crate::voice::{IdleHandler, TrackPlayNotifier};

verus! {

/// The reply when the caller is not in a voice channel.
pub const NOT_IN_VOICE: &'static str = "Not in a voice channel";

/// The message when joining the voice channel failed.
pub const JOIN_FAILED: &'static str = "Error joining the channel";

/// How many idle ticks (one per second) are tolerated before leaving: ten
/// minutes.
pub const IDLE_LIMIT: usize = 60 * 10;

/// The message posted when the bot leaves an idle call.
pub const IDLE_FAREWELL: &'static str = "The musical vibes have ceased so I must leave";

/// How a channel is mentioned in a message: `<#id>`.
pub open spec fn channel_mention_text(id: u64) -> Seq<char> {
    "<#"@ + decimal(id as nat) + ">"@
}

/// `Mentionable::mention` of a channel id, written out: serenity writes a
/// channel mention as `<#` then the id in decimal then `>`.
#[verifier::external_body]
fn channel_mention(id: u64) -> (r: String)
    ensures
        r@ == channel_mention_text(id),
{
    ChannelId(id).mention().to_string()
}

/// What the `join` command does next.
pub enum JoinAction {
    /// Answer the caller with this text and stop.
    Reply(String),
    /// Connect to this voice channel.
    Connect(u64),
    /// Post the announcement, then install both handlers and stop.
    Joined { announcement: String, notifier: TrackPlayNotifier, idle: IdleHandler },
    /// Post this text in the channel and stop.
    Say(String),
}

/// The first step: connect to the caller's voice channel, or tell them
/// they are in none.
pub fn join_start(voice_channel: Option<u64>) -> (a: JoinAction)
    ensures
        match voice_channel {
            Some(c) => a == JoinAction::Connect(c),
            None => a matches JoinAction::Reply(m) && m@ == NOT_IN_VOICE@,
        },
{
    match voice_channel {
        Some(c) => JoinAction::Connect(c),
        None => JoinAction::Reply(NOT_IN_VOICE.to_string()),
    }
}

/// The second step, once the connection to `connect_to` was tried from the
/// text channel `text_channel`: on success announce "Joined <#id>" and set
/// up a notifier for that text channel and an idle handler with
/// `IDLE_LIMIT`; on failure say so.
pub fn join_finish(connect_to: u64, text_channel: u64, joined: bool) -> (a: JoinAction)
    ensures
        joined ==> (a matches JoinAction::Joined { announcement, notifier, idle } && announcement@
            == "Joined "@ + channel_mention_text(connect_to) && notifier.chan_id == text_channel
            && idle == (IdleHandler { limit: IDLE_LIMIT, count: 0 })),
        !joined ==> (a matches JoinAction::Say(m) && m@ == JOIN_FAILED@),
{
    if joined {
        let mut announcement = "Joined ".to_string();
        let mention = channel_mention(connect_to);
        announcement.append(mention.as_str());
        JoinAction::Joined {
            announcement,
            notifier: TrackPlayNotifier { chan_id: text_channel },
            idle: IdleHandler::new(IDLE_LIMIT),
        }
    } else {
        JoinAction::Say(JOIN_FAILED.to_string())
    }
}

} // verus!
