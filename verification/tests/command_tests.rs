use butler::embed::EmbedField;
use butler::error::ButlerError;
use butler::join::{join_finish, join_start, JoinAction, IDLE_FAREWELL, JOIN_FAILED, NOT_IN_VOICE};
use butler::league::{
    league_embed, league_step, league_url, same_lowercased, summoner_matches, summoner_url,
    LeagueAction, LeagueData, LeagueEvent, LeagueResult, LeagueStage, SummonerResult,
    LEAGUE_NOT_FOUND, MISSING_SUMMONER, SUMMONER_NOT_FOUND,
};
use butler::pause::{pause_failure, pause_outcome};
use butler::stonks::{date_label, quote_url, request_headers, stock_message, MISSING_TICKER};
use butler::voice::IdleHandler;

fn summoner() -> SummonerResult {
    SummonerResult { id: "abc123".to_string(), name: "Faker".to_string(), profile_icon_id: 6 }
}

fn solo() -> LeagueData {
    LeagueData {
        queue_type: "RANKED_SOLO_5x5".to_string(),
        tier: "CHALLENGER".to_string(),
        rank: "I".to_string(),
        league_points: 1234,
        wins: 100,
        losses: 50,
    }
}

fn field(name: &str, value: &str) -> EmbedField {
    EmbedField { name: name.to_string(), value: value.to_string(), inline: false }
}

#[test]
fn league_urls() {
    assert_eq!(
        summoner_url("Faker", "KEY"),
        "https://na1.api.riotgames.com/lol/summoner/v4/summoners/by-name/Faker?api_key=KEY"
    );
    assert_eq!(
        league_url("abc123", "KEY"),
        "https://na1.api.riotgames.com/lol/league/v4/entries/by-summoner/abc123?api_key=KEY"
    );
}

#[test]
fn summoner_names_match_ignoring_case() {
    assert!(summoner_matches("faker", "Faker"));
    assert!(summoner_matches("ÉCOLE", "école"));
    assert!(!summoner_matches("faker", "Fakerr"));
    assert!(same_lowercased(&"a".to_string(), &"a".to_string()));
    assert!(!same_lowercased(&"a".to_string(), &"A".to_string()));
}

#[test]
fn league_embed_fields() {
    let flex = LeagueData {
        queue_type: "RANKED_FLEX_SR".to_string(),
        tier: "GOLD".to_string(),
        rank: "IV".to_string(),
        league_points: 0,
        wins: 3,
        losses: 7,
    };
    let e = league_embed(&summoner(), &LeagueResult { league_result: vec![solo(), flex] });
    assert_eq!(e.title, Some("Faker's League Rank(s)".to_string()));
    assert_eq!(
        e.thumbnail,
        Some("http://ddragon.leagueoflegends.com/cdn/13.19.1/img/profileicon/6.png".to_string())
    );
    assert_eq!(
        e.fields,
        vec![
            field("RANKED SOLO 5x5", "CHALLENGER I"),
            field("STATS", "1234 LP\n100W 50L"),
            field("RANKED FLEX SR", "GOLD IV"),
            field("STATS", "0 LP\n3W 7L"),
        ]
    );
    assert_eq!(e.author, None);
    assert_eq!(e.color, None);
    assert_eq!(e.url, None);
}

#[test]
fn league_embed_without_standings() {
    let e = league_embed(&summoner(), &LeagueResult { league_result: vec![] });
    assert!(e.fields.is_empty());
}

#[test]
fn league_without_argument() {
    let (next, action) = league_step(LeagueStage::Start, LeagueEvent::Argument(None));
    assert!(matches!(next, LeagueStage::Done));
    assert!(matches!(action, LeagueAction::Say(m) if m == MISSING_SUMMONER));
}

#[test]
fn league_full_run() {
    let (stage, action) = league_step(LeagueStage::Start, LeagueEvent::Argument(Some("faker".to_string())));
    assert!(matches!(action, LeagueAction::FetchSummoner(ref n) if n == "faker"));
    let (stage, action) = league_step(stage, LeagueEvent::SummonerFound(Some(summoner())));
    assert!(matches!(action, LeagueAction::FetchLeague(ref id) if id == "abc123"));
    let league = LeagueResult { league_result: vec![solo()] };
    let (stage, action) = league_step(stage, LeagueEvent::LeagueFound(Some(league.clone())));
    assert!(matches!(stage, LeagueStage::Done));
    match action {
        LeagueAction::SendEmbed(e) => assert_eq!(e, league_embed(&summoner(), &league)),
        _ => panic!("expected an embed"),
    }
}

#[test]
fn league_summoner_missing_or_mismatched() {
    let looking = || LeagueStage::LookingUp { requested: "faker".to_string() };
    let (next, action) = league_step(looking(), LeagueEvent::SummonerFound(None));
    assert!(matches!(next, LeagueStage::Done));
    assert!(matches!(action, LeagueAction::Say(m) if m == SUMMONER_NOT_FOUND));
    let other = SummonerResult { id: "x".to_string(), name: "Someone".to_string(), profile_icon_id: 1 };
    let (next, action) = league_step(looking(), LeagueEvent::SummonerFound(Some(other)));
    assert!(matches!(next, LeagueStage::Done));
    assert!(matches!(action, LeagueAction::Finish));
}

#[test]
fn league_standings_missing() {
    let (next, action) =
        league_step(LeagueStage::Ranking { summoner: summoner() }, LeagueEvent::LeagueFound(None));
    assert!(matches!(next, LeagueStage::Done));
    assert!(matches!(action, LeagueAction::Say(m) if m == LEAGUE_NOT_FOUND));
}

#[test]
fn league_out_of_order_event_finishes() {
    let (next, action) = league_step(LeagueStage::Done, LeagueEvent::Argument(None));
    assert!(matches!(next, LeagueStage::Done));
    assert!(matches!(action, LeagueAction::Finish));
}

#[test]
fn join_needs_voice_channel() {
    assert!(matches!(join_start(None), JoinAction::Reply(m) if m == NOT_IN_VOICE));
    assert!(matches!(join_start(Some(42)), JoinAction::Connect(42)));
}

#[test]
fn join_announces_and_installs_handlers() {
    match join_finish(1234, 99, true) {
        JoinAction::Joined { announcement, notifier, idle } => {
            assert_eq!(announcement, "Joined <#1234>");
            assert_eq!(notifier.chan_id, 99);
            assert_eq!(idle, IdleHandler { limit: 600, count: 0 });
        }
        _ => panic!("expected a join"),
    }
    assert!(matches!(join_finish(1234, 99, false), JoinAction::Say(m) if m == JOIN_FAILED));
    assert_eq!(IDLE_FAREWELL, "The musical vibes have ceased so I must leave");
}

#[test]
fn pause_errors_in_order() {
    assert_eq!(pause_outcome(false, false, false), Err(ButlerError::log("Couldn't get songbird")));
    assert_eq!(pause_outcome(true, false, true), Err(ButlerError::log("No Call")));
    assert_eq!(pause_outcome(true, true, false), Err(ButlerError::user("No track playing")));
    assert_eq!(pause_outcome(true, true, true), Ok(()));
}

#[test]
fn pause_failure_texts() {
    assert_eq!(
        pause_failure("stopped"),
        ButlerError::user_and_log("Failed to pause :person_shrugging:", "Failed to pause: stopped")
    );
}

#[test]
fn stock_request() {
    assert_eq!(
        request_headers(),
        vec![("user-agent", "reqwest"), ("content-type", "application/json"), ("content-length", "0")]
    );
    assert_eq!(quote_url("aapl", "T0K"), "https://finnhub.io/api/v1/quote?symbol=AAPL&token=T0K");
    assert_eq!(quote_url("brk.b", "t"), "https://finnhub.io/api/v1/quote?symbol=BRK.B&token=t");
}

#[test]
fn stock_texts() {
    assert_eq!(date_label(2023, 10, 5), "2023-10-5");
    assert_eq!(date_label(-44, 3, 15), "-44-3-15");
    assert_eq!(
        stock_message("2023-10-5", "msft", "300.5", "310", "increase", "3.16"),
        "On 2023-10-5 the ticker MSFT had an open of $300.5 and a close of $310\nfor a increase of 3.16%"
    );
    assert_eq!(MISSING_TICKER, "Must provide a URL to a video or audio");
}
