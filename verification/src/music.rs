//! Track metadata and the "now playing" / queue embeds.

use vstd::prelude::*;
use crate::embed::{Embed, EmbedView, empty_embed, opt_text};
use crate::text::{decimal, push_decimal};

verus! {

/// What is known of an audio track: the parts of its metadata the bot shows.
/// The duration is taken in whole seconds.
#[derive(Clone, Debug, PartialEq, Eq)]
pub struct TrackMetadata {
    pub track: Option<String>,
    pub artist: Option<String>,
    pub title: Option<String>,
    pub channel: Option<String>,
    pub duration_secs: Option<u64>,
    pub source_url: Option<String>,
    pub thumbnail: Option<String>,
}

/// The first of two optional texts that is present, else the fallback.
pub open spec fn first_present(a: Option<String>, b: Option<String>, fallback: Seq<char>) -> Seq<char> {
    match a {
        Some(s) => s@,
        None => match b {
            Some(s) => s@,
            None => fallback,
        },
    }
}

/// The title shown for a track: its track name, else its title, else
/// "Unknown Title".
pub open spec fn title_text(m: TrackMetadata) -> Seq<char> {
    first_present(m.track, m.title, "Unknown Title"@)
}

/// The artist shown for a track: its artist, else its channel, else
/// "Unknown Artist".
pub open spec fn artist_text(m: TrackMetadata) -> Seq<char> {
    first_present(m.artist, m.channel, "Unknown Artist"@)
}

/// "<title> by <artist>".
pub open spec fn song_text(m: TrackMetadata) -> Seq<char> {
    title_text(m) + " by "@ + artist_text(m)
}

/// The track's length in seconds, zero when unknown.
pub open spec fn secs_or_zero(m: TrackMetadata) -> u64 {
    match m.duration_secs {
        Some(s) => s,
        None => 0,
    }
}

/// "<minutes>:<seconds>", both in plain decimal (seconds are not padded).
pub open spec fn duration_text(secs: u64) -> Seq<char> {
    decimal((secs / 60) as nat) + ":"@ + decimal((secs % 60) as nat)
}

/// The title shown for a track.
pub fn get_title(m: &TrackMetadata) -> (r: &str)
    ensures
        r@ == title_text(*m),
{
    match &m.track {
        Some(t) => t.as_str(),
        None => match &m.title {
            Some(t) => t.as_str(),
            None => "Unknown Title",
        },
    }
}

/// The artist shown for a track.
pub fn get_artist(m: &TrackMetadata) -> (r: &str)
    ensures
        r@ == artist_text(*m),
{
    match &m.artist {
        Some(a) => a.as_str(),
        None => match &m.channel {
            Some(c) => c.as_str(),
            None => "Unknown Artist",
        },
    }
}

/// "<title> by <artist>" for a track.
pub fn get_song(m: &TrackMetadata) -> (r: String)
    ensures
        r@ == song_text(*m),
{
    let mut r = get_title(m).to_string();
    r.append(" by ");
    r.append(get_artist(m));
    r
}

/// Splits a length in whole seconds into (minutes, seconds).
pub fn split_duration(secs: u64) -> (r: (u64, u64))
    ensures
        r == (secs / 60, secs % 60),
{
    (secs / 60, secs % 60)
}

/// A length in whole seconds written as "<minutes>:<seconds>".
pub fn duration_string(secs: u64) -> (r: String)
    ensures
        r@ == duration_text(secs),
{
    let (minutes, seconds) = split_duration(secs);
    let mut r = String::new();
    push_decimal(&mut r, minutes);
    r.append(":");
    push_decimal(&mut r, seconds);
    assert(r@ =~= duration_text(secs));
    r
}

/// What an embed is generated from: the queue (the track playing first), or
/// the track that just started.
pub enum EmbedType {
    Queue(Vec<TrackMetadata>),
    NowPlaying(TrackMetadata),
}

/// The part common to both kinds of embed: author "Now Playing:", the song as
/// title, green, and a "Duration" field.
pub open spec fn now_playing_base(m: TrackMetadata) -> EmbedView {
    EmbedView {
        author: Some("Now Playing:"@),
        title: Some(song_text(m)),
        color: Some(0x00ff00u32),
        fields: seq![("Duration"@, duration_text(secs_or_zero(m)), false)],
        thumbnail: None,
        url: None,
    }
}

/// The embed generated for each kind of request.
pub open spec fn embed_of(ctx: EmbedType) -> EmbedView {
    match ctx {
        EmbedType::Queue(queue) => if queue@.len() == 0 {
            empty_embed()
        } else {
            let m = queue@[0];
            let base = now_playing_base(m);
            let url = match m.source_url {
                Some(u) => u@,
                None => "none"@,
            };
            EmbedView { fields: base.fields.push(("URL"@, url, false)), ..base }
        },
        EmbedType::NowPlaying(m) => EmbedView {
            thumbnail: opt_text(m.thumbnail),
            url: opt_text(m.source_url),
            ..now_playing_base(m)
        },
    }
}

fn now_playing(m: &TrackMetadata) -> (e: Embed)
    ensures
        e@ == now_playing_base(*m),
{
    let mut e = Embed::new();
    e.author = Some("Now Playing:".to_string());
    e.title = Some(get_song(m));
    e.color = Some(0x00ff00u32);
    e.push_field("Duration".to_string(), duration_string(secs_or_zero_exec(m)), false);
    e
}

fn secs_or_zero_exec(m: &TrackMetadata) -> (s: u64)
    ensures
        s == secs_or_zero(*m),
{
    match m.duration_secs {
        Some(s) => s,
        None => 0,
    }
}

/// The embed for the queue (showing the track playing first) or for the
/// track that just started.
pub fn generate_embed(ctx: EmbedType) -> (e: Embed)
    ensures
        e@ == embed_of(ctx),
{
    match ctx {
        EmbedType::Queue(queue) => {
            if queue.len() == 0 {
                Embed::new()
            } else {
                let current = &queue[0];
                let mut e = now_playing(current);
                let url = match &current.source_url {
                    Some(u) => u.clone(),
                    None => "none".to_string(),
                };
                e.push_field("URL".to_string(), url, false);
                e
            }
        },
        EmbedType::NowPlaying(metadata) => {
            let mut e = now_playing(&metadata);
            match metadata.thumbnail {
                Some(t) => { e.thumbnail = Some(t); },
                None => {},
            }
            match metadata.source_url {
                Some(u) => { e.url = Some(u); },
                None => {},
            }
            e
        },
    }
}


/// A length split into minutes and seconds adds back up to the length, with
/// fewer than sixty seconds left over.
pub proof fn law_split_duration_recombines(secs: u64)
    ensures
        (secs / 60) * 60 + secs % 60 == secs,
        secs % 60 < 60,
{
}

/// The queue embed shows its first track as the "now playing" embed does:
/// same author, title, colour and duration field, with the source address
/// as a second field in place of the link and picture.
pub proof fn law_queue_embed_shows_first_track(queue: Vec<TrackMetadata>, m: TrackMetadata)
    requires
        queue@.len() > 0,
        queue@[0] == m,
    ensures
        embed_of(EmbedType::Queue(queue)).author == embed_of(EmbedType::NowPlaying(m)).author,
        embed_of(EmbedType::Queue(queue)).title == embed_of(EmbedType::NowPlaying(m)).title,
        embed_of(EmbedType::Queue(queue)).color == embed_of(EmbedType::NowPlaying(m)).color,
        embed_of(EmbedType::Queue(queue)).fields[0] == embed_of(EmbedType::NowPlaying(m)).fields[0],
        embed_of(EmbedType::Queue(queue)).fields.len() == 2,
        embed_of(EmbedType::NowPlaying(m)).fields.len() == 1,
{
}


/// The length is written with the minutes and seconds that add back up to
/// it: for any `m` and `sec < 60` with `m * 60 + sec` the length, the text
/// is `m`, a colon, then `sec`.
pub proof fn law_duration_text_minutes_seconds(secs: u64, m: nat, sec: nat)
    requires
        m * 60 + sec == secs,
        sec < 60,
    ensures
        duration_text(secs) == decimal(m) + ":"@ + decimal(sec),
{
    assert(m == secs / 60 && sec == secs % 60) by (nonlinear_arith)
        requires
            m * 60 + sec == secs,
            sec < 60,
    ;
}

/// The title shown is the track name if there is one, else the title if
/// there is one, else "Unknown Title"; the artist is the artist, else the
/// channel, else "Unknown Artist".
pub proof fn law_title_and_artist_choice(m: TrackMetadata)
    ensures
        m.track matches Some(t) ==> title_text(m) == t@,
        m.track is None ==> (m.title matches Some(t) ==> title_text(m) == t@),
        m.track is None && m.title is None ==> title_text(m) == "Unknown Title"@,
        m.artist matches Some(a) ==> artist_text(m) == a@,
        m.artist is None ==> (m.channel matches Some(c) ==> artist_text(m) == c@),
        m.artist is None && m.channel is None ==> artist_text(m) == "Unknown Artist"@,
        song_text(m) == title_text(m) + " by "@ + artist_text(m),
{
}

/// The "now playing" embed links the track's source address and shows its
/// picture, each when the track has one, independently of the other; it
/// has the author "Now Playing:", the song as title, green, and one
/// "Duration" field with the minutes and seconds of the length (zero when
/// unknown).
pub proof fn law_now_playing_embed(m: TrackMetadata)
    ensures
        ({
            let e = embed_of(EmbedType::NowPlaying(m));
            &&& match m.source_url {
                Some(u) => e.url == Some(u@),
                None => e.url is None,
            }
            &&& match m.thumbnail {
                Some(t) => e.thumbnail == Some(t@),
                None => e.thumbnail is None,
            }
            &&& e.author == Some("Now Playing:"@)
            &&& e.title == Some(song_text(m))
            &&& e.color == Some(0x00ff00u32)
            &&& e.fields.len() == 1
            &&& e.fields[0] == ("Duration"@, decimal((secs_or_zero(m) / 60) as nat) + ":"@
                + decimal((secs_or_zero(m) % 60) as nat), false)
        }),
        m.duration_secs is None ==> secs_or_zero(m) == 0,
        m.duration_secs matches Some(s) ==> secs_or_zero(m) == s,
{
}

/// The queue embed adds to the first track's "Duration" field a "URL"
/// field holding its source address, or "none" without one; it has no
/// link or picture. An empty queue gives an embed with nothing set.
pub proof fn law_queue_embed_url_field(queue: Vec<TrackMetadata>)
    ensures
        queue@.len() == 0 ==> embed_of(EmbedType::Queue(queue)) == empty_embed(),
        queue@.len() > 0 ==> ({
            let e = embed_of(EmbedType::Queue(queue));
            let m = queue@[0];
            &&& e.fields.len() == 2
            &&& e.fields[1] == ("URL"@, match m.source_url {
                Some(u) => u@,
                None => "none"@,
            }, false)
            &&& e.url is None
            &&& e.thumbnail is None
            &&& e.title == Some(song_text(m))
        }),
{
}

} // verus!
