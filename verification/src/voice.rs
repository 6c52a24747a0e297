//! What the bot does on voice events: announce a track that starts, and
//! leave the call after a run of idle ticks.

use vstd::prelude::*;
use crate::embed::Embed;
use crate::music::{EmbedType, TrackMetadata, embed_of, generate_embed};

verus! {

/// How a track is being played.
#[derive(Clone, Copy, Debug, PartialEq, Eq, Structural)]
pub enum PlayMode {
    Play,
    Pause,
    Stop,
    End,
}

/// One track of an event: how it plays and what it is.
pub struct TrackState {
    pub playing: PlayMode,
    pub metadata: TrackMetadata,
}

/// An event of the voice driver, as far as the handlers read it: a track
/// event with the tracks it concerns, or any other event.
pub enum VoiceEvent {
    Track(Vec<TrackState>),
    Other,
}

/// Announces each track that starts playing, in one channel.
pub struct TrackPlayNotifier {
    pub chan_id: u64,
}

impl TrackPlayNotifier {
    /// The embed to post for an event: for a track event, the "now playing"
    /// embed of its first track; for any other event, nothing.
    pub fn act(&self, event: VoiceEvent) -> (r: Option<Embed>)
        requires
            event matches VoiceEvent::Track(tracks) ==> tracks@.len() > 0,
        ensures
            match event {
                VoiceEvent::Track(tracks) => r matches Some(e)
                    && e@ == embed_of(EmbedType::NowPlaying(tracks@[0].metadata)),
                VoiceEvent::Other => r is None,
            },
    {
        match event {
            VoiceEvent::Track(tracks) => {
                let mut tracks = tracks;
                let first = tracks.remove(0);
                Some(generate_embed(EmbedType::NowPlaying(first.metadata)))
            },
            VoiceEvent::Other => None,
        }
    }
}

/// What the idle handler asks for after a tick.
#[derive(Clone, Copy, Debug, PartialEq, Eq, Structural)]
pub enum IdleAction {
    Stay,
    Leave,
}

/// Counts the ticks on which nothing plays, and asks to leave the call once
/// the count before a tick has reached `limit`.
#[derive(Clone, Copy, Debug, PartialEq, Eq, Structural)]
pub struct IdleHandler {
    pub limit: usize,
    pub count: usize,
}

/// A tick as the idle handler sees it.
pub enum IdleInput {
    NotTrack,
    Playing,
    Silent,
}

/// Some track of the list is playing.
pub open spec fn any_playing(tracks: Seq<TrackState>) -> bool {
    exists|i: int| 0 <= i < tracks.len() && (#[trigger] tracks[i]).playing == PlayMode::Play
}

/// How the idle handler sees an event.
pub open spec fn idle_input(event: VoiceEvent) -> IdleInput {
    match event {
        VoiceEvent::Track(tracks) => if any_playing(tracks@) {
            IdleInput::Playing
        } else {
            IdleInput::Silent
        },
        VoiceEvent::Other => IdleInput::NotTrack,
    }
}

/// One step of the idle handler: other events change nothing; a playing
/// track resets the count; a silent tick adds one to the count (wrapping
/// as a machine word does) and asks to leave when the count before it had
/// reached the limit.
pub open spec fn idle_step(h: IdleHandler, input: IdleInput) -> (IdleHandler, IdleAction) {
    match input {
        IdleInput::NotTrack => (h, IdleAction::Stay),
        IdleInput::Playing => (IdleHandler { count: 0, ..h }, IdleAction::Stay),
        IdleInput::Silent => (
            IdleHandler {
                count: if h.count == usize::MAX { 0 } else { (h.count + 1) as usize },
                ..h
            },
            if h.count >= h.limit { IdleAction::Leave } else { IdleAction::Stay },
        ),
    }
}

/// `n` silent ticks in a row: the handler after them and what each asked.
pub open spec fn silent_run(h: IdleHandler, n: nat) -> (IdleHandler, Seq<IdleAction>)
    decreases n,
{
    if n == 0 {
        (h, Seq::empty())
    } else {
        let (mid, actions) = silent_run(h, (n - 1) as nat);
        let (next, a) = idle_step(mid, IdleInput::Silent);
        (next, actions.push(a))
    }
}

fn any_track_playing(tracks: &Vec<TrackState>) -> (r: bool)
    ensures
        r == any_playing(tracks@),
{
    let n = tracks.len();
    let mut i: usize = 0;
    while i < n
        invariant
            n == tracks@.len(),
            i <= n,
            forall|j: int| 0 <= j < i ==> (#[trigger] tracks@[j]).playing != PlayMode::Play,
        decreases n - i,
    {
        if tracks[i].playing == PlayMode::Play {
            assert(tracks@[i as int].playing == PlayMode::Play);
            return true;
        }
        i = i + 1;
    }
    false
}

impl IdleHandler {
    /// A handler with the given limit that has counted nothing yet.
    pub fn new(limit: usize) -> (h: IdleHandler)
        ensures
            h == (IdleHandler { limit, count: 0 }),
    {
        IdleHandler { limit, count: 0 }
    }

    /// Takes one event and says whether to leave the call.
    pub fn act(&mut self, event: &VoiceEvent) -> (a: IdleAction)
        ensures
            (*final(self), a) == idle_step(*old(self), idle_input(*event)),
    {
        match event {
            VoiceEvent::Track(tracks) => {
                if any_track_playing(tracks) {
                    self.count = 0;
                    return IdleAction::Stay;
                }
                let before = self.count;
                self.count = before.wrapping_add(1);
                if before >= self.limit {
                    IdleAction::Leave
                } else {
                    IdleAction::Stay
                }
            },
            VoiceEvent::Other => IdleAction::Stay,
        }
    }
}


/// Over a run of silent ticks that does not wrap the count, the count grows
/// by one per tick, and the tick taken with count `c` before it asks to
/// leave exactly when `c` has reached the limit.
pub proof fn law_silent_ticks_count_up(h: IdleHandler, n: nat)
    requires
        h.count + n <= usize::MAX,
    ensures
        silent_run(h, n).0 == (IdleHandler { count: (h.count + n) as usize, ..h }),
        silent_run(h, n).1.len() == n,
        forall|i: int| 0 <= i < n ==> #[trigger] silent_run(h, n).1[i] == (
            if h.count + i >= h.limit { IdleAction::Leave } else { IdleAction::Stay }),
    decreases n,
{
    if n > 0 {
        law_silent_ticks_count_up(h, (n - 1) as nat);
    }
}

/// After a tick on which a track plays, the handler stays for `limit`
/// silent ticks and asks to leave on the next one.
pub proof fn law_leaves_after_limit_silent_ticks(h: IdleHandler)
    requires
        h.limit < usize::MAX,
    ensures
        ({
            let (reset, a) = idle_step(h, IdleInput::Playing);
            let (_, actions) = silent_run(reset, (h.limit + 1) as nat);
            &&& a == IdleAction::Stay
            &&& reset.count == 0
            &&& actions.len() == h.limit + 1
            &&& forall|i: int| 0 <= i < h.limit ==> #[trigger] actions[i] == IdleAction::Stay
            &&& actions[h.limit as int] == IdleAction::Leave
        }),
{
    let (reset, a) = idle_step(h, IdleInput::Playing);
    law_silent_ticks_count_up(reset, (h.limit + 1) as nat);
}

/// An event that is not a track event leaves the handler as it was.
pub proof fn law_other_events_change_nothing(h: IdleHandler)
    ensures
        idle_step(h, IdleInput::NotTrack) == (h, IdleAction::Stay),
{
}


/// A track event in which some track plays -- at any place in the list,
/// the first included -- resets the count and keeps the bot in the call.
pub proof fn law_playing_track_resets_count(h: IdleHandler, tracks: Vec<TrackState>, i: int)
    requires
        0 <= i < tracks@.len(),
        tracks@[i].playing == PlayMode::Play,
    ensures
        idle_step(h, idle_input(VoiceEvent::Track(tracks))) == (
            IdleHandler { limit: h.limit, count: 0 },
            IdleAction::Stay,
        ),
{
    assert(tracks@[i].playing == PlayMode::Play);
    assert(any_playing(tracks@));
}

/// A track event in which no track plays is a silent tick: the count goes
/// up by one, and the bot is asked to leave exactly when the count before
/// the tick had reached the limit.
pub proof fn law_silent_track_event_counts(h: IdleHandler, tracks: Vec<TrackState>)
    requires
        forall|i: int| 0 <= i < tracks@.len() ==> (#[trigger] tracks@[i]).playing != PlayMode::Play,
        h.count < usize::MAX,
    ensures
        idle_step(h, idle_input(VoiceEvent::Track(tracks))) == (
            IdleHandler { limit: h.limit, count: (h.count + 1) as usize },
            if h.count >= h.limit { IdleAction::Leave } else { IdleAction::Stay },
        ),
{
}

} // verus!
