use butler::join::{IDLE_LIMIT};
use butler::music::{generate_embed, EmbedType, TrackMetadata};
use butler::voice::{IdleAction, IdleHandler, PlayMode, TrackPlayNotifier, TrackState, VoiceEvent};

fn meta(title: &str) -> TrackMetadata {
    TrackMetadata {
        track: None,
        artist: None,
        title: Some(title.to_string()),
        channel: None,
        duration_secs: Some(90),
        source_url: None,
        thumbnail: None,
    }
}

fn tracks(modes: &[PlayMode]) -> VoiceEvent {
    VoiceEvent::Track(modes.iter().map(|m| TrackState { playing: *m, metadata: meta("t") }).collect())
}

#[test]
fn notifier_posts_first_track() {
    let n = TrackPlayNotifier { chan_id: 7 };
    let event = VoiceEvent::Track(vec![
        TrackState { playing: PlayMode::Play, metadata: meta("One") },
        TrackState { playing: PlayMode::Pause, metadata: meta("Two") },
    ]);
    let e = n.act(event).unwrap();
    assert_eq!(e, generate_embed(EmbedType::NowPlaying(meta("One"))));
    assert_eq!(e.title, Some("One by Unknown Artist".to_string()));
}

#[test]
fn notifier_ignores_other_events() {
    let n = TrackPlayNotifier { chan_id: 7 };
    assert_eq!(n.act(VoiceEvent::Other), None);
}

#[test]
fn idle_counts_silent_ticks_and_leaves_past_limit() {
    let mut h = IdleHandler::new(3);
    let silent = tracks(&[PlayMode::Pause, PlayMode::Stop]);
    assert_eq!(h.act(&silent), IdleAction::Stay);
    assert_eq!(h.act(&silent), IdleAction::Stay);
    assert_eq!(h.act(&silent), IdleAction::Stay);
    assert_eq!(h.count, 3);
    assert_eq!(h.act(&silent), IdleAction::Leave);
    assert_eq!(h.count, 4);
    assert_eq!(h.act(&silent), IdleAction::Leave);
}

#[test]
fn idle_playing_track_resets_count() {
    let mut h = IdleHandler { limit: 2, count: 5 };
    assert_eq!(h.act(&tracks(&[PlayMode::End, PlayMode::Play])), IdleAction::Stay);
    assert_eq!(h.count, 0);
    let silent = tracks(&[PlayMode::End]);
    assert_eq!(h.act(&silent), IdleAction::Stay);
    assert_eq!(h.act(&silent), IdleAction::Stay);
    assert_eq!(h.act(&silent), IdleAction::Leave);
}

#[test]
fn idle_other_events_change_nothing() {
    let mut h = IdleHandler { limit: 2, count: 5 };
    assert_eq!(h.act(&VoiceEvent::Other), IdleAction::Stay);
    assert_eq!(h, IdleHandler { limit: 2, count: 5 });
}

#[test]
fn idle_empty_track_list_is_silent() {
    let mut h = IdleHandler::new(0);
    assert_eq!(h.act(&VoiceEvent::Track(vec![])), IdleAction::Leave);
    assert_eq!(h.count, 1);
}

#[test]
fn idle_count_wraps_like_a_machine_word() {
    let mut h = IdleHandler { limit: 10, count: usize::MAX };
    assert_eq!(h.act(&tracks(&[PlayMode::Stop])), IdleAction::Leave);
    assert_eq!(h.count, 0);
}

#[test]
fn join_handler_leaves_after_ten_idle_minutes() {
    let mut h = IdleHandler::new(IDLE_LIMIT);
    assert_eq!(IDLE_LIMIT, 600);
    let silent = tracks(&[PlayMode::Pause]);
    for _ in 0..600 {
        assert_eq!(h.act(&silent), IdleAction::Stay);
    }
    assert_eq!(h.act(&silent), IdleAction::Leave);
}
