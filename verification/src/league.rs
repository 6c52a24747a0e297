//! The `league` command: look a summoner up and post their ranks.

use vstd::prelude::*;
use crate::embed::{Embed, EmbedView, empty_embed};
use crate::text::{decimal, lowercase, push_decimal, replace_all, replace_char, to_lowercase};

verus! {

/// A summoner as the game's API describes one.
#[derive(Clone, Debug, PartialEq, Eq)]
pub struct SummonerResult {
    pub id: String,
    pub name: String,
    pub profile_icon_id: u32,
}

/// A summoner's standing in one ranked queue.
#[derive(Clone, Debug, PartialEq, Eq)]
pub struct LeagueData {
    pub queue_type: String,
    pub tier: String,
    pub rank: String,
    pub league_points: u32,
    pub wins: u32,
    pub losses: u32,
}

/// A summoner's standings in all ranked queues.
#[derive(Clone, Debug, PartialEq, Eq)]
pub struct LeagueResult {
    pub league_result: Vec<LeagueData>,
}

/// The reply when no summoner was given.
pub const MISSING_SUMMONER: &'static str = "Must provide a summoner value";

/// The reply when the summoner lookup gave nothing.
pub const SUMMONER_NOT_FOUND: &'static str = "Summoner not found";

/// The reply when the rank lookup gave nothing.
pub const LEAGUE_NOT_FOUND: &'static str = "League data not found";

/// The address that looks a summoner up by name.
pub open spec fn summoner_url_text(name: Seq<char>, api_key: Seq<char>) -> Seq<char> {
    "https://na1.api.riotgames.com/lol/summoner/v4/summoners/by-name/"@ + name + "?api_key="@
        + api_key
}

/// The address that looks a summoner's ranks up by summoner id.
pub open spec fn league_url_text(id: Seq<char>, api_key: Seq<char>) -> Seq<char> {
    "https://na1.api.riotgames.com/lol/league/v4/entries/by-summoner/"@ + id + "?api_key="@
        + api_key
}

/// The address that looks a summoner up by name.
pub fn summoner_url(name: &str, api_key: &str) -> (r: String)
    ensures
        r@ == summoner_url_text(name@, api_key@),
{
    let mut r = "https://na1.api.riotgames.com/lol/summoner/v4/summoners/by-name/".to_string();
    r.append(name);
    r.append("?api_key=");
    r.append(api_key);
    r
}

/// The address that looks a summoner's ranks up by summoner id.
pub fn league_url(id: &str, api_key: &str) -> (r: String)
    ensures
        r@ == league_url_text(id@, api_key@),
{
    let mut r = "https://na1.api.riotgames.com/lol/league/v4/entries/by-summoner/".to_string();
    r.append(id);
    r.append("?api_key=");
    r.append(api_key);
    r
}

/// Two names, each already lowercased, are the same.
pub fn same_lowercased(a: &String, b: &String) -> (r: bool)
    ensures
        r == (a@ == b@),
{
    a.eq(b)
}

/// The summoner found is the one asked for: the two names agree once both
/// are lowercased.
pub fn summoner_matches(requested: &str, found: &str) -> (r: bool)
    ensures
        r == (lowercase(requested@) == lowercase(found@)),
{
    let a = to_lowercase(requested);
    let b = to_lowercase(found);
    same_lowercased(&a, &b)
}

/// The two fields shown for one queue: its name with `_` written as a
/// space, with "<tier> <rank>"; then "STATS" with
/// "<points> LP\n<wins>W <losses>L".
pub open spec fn queue_fields(d: LeagueData) -> Seq<(Seq<char>, Seq<char>, bool)> {
    seq![
        (replace_all(d.queue_type@, '_', ' '), d.tier@ + " "@ + d.rank@, false),
        ("STATS"@, decimal(d.league_points as nat) + " LP\n"@ + decimal(d.wins as nat) + "W "@
            + decimal(d.losses as nat) + "L"@, false),
    ]
}

/// The fields for all queues, in order.
pub open spec fn league_fields(entries: Seq<LeagueData>) -> Seq<(Seq<char>, Seq<char>, bool)>
    decreases entries.len(),
{
    if entries.len() == 0 {
        Seq::empty()
    } else {
        league_fields(entries.drop_last()) + queue_fields(entries.last())
    }
}

/// "<name>'s League Rank(s)".
pub open spec fn rank_title(name: Seq<char>) -> Seq<char> {
    name + "'s League Rank(s)"@
}

/// The address of a profile icon's picture.
pub open spec fn icon_url(icon: u32) -> Seq<char> {
    "http://ddragon.leagueoflegends.com/cdn/13.19.1/img/profileicon/"@ + decimal(icon as nat)
        + ".png"@
}

/// The ranks embed: the summoner's name in the title, their icon as
/// thumbnail, and two fields per queue.
pub open spec fn rank_embed(s: SummonerResult, l: LeagueResult) -> EmbedView {
    EmbedView {
        title: Some(rank_title(s.name@)),
        thumbnail: Some(icon_url(s.profile_icon_id)),
        fields: league_fields(l.league_result@),
        ..empty_embed()
    }
}

fn stats_text(d: &LeagueData) -> (r: String)
    ensures
        r@ == queue_fields(*d)[1].1,
{
    let mut r = String::new();
    push_decimal(&mut r, d.league_points as u64);
    r.append(" LP\n");
    push_decimal(&mut r, d.wins as u64);
    r.append("W ");
    push_decimal(&mut r, d.losses as u64);
    r.append("L");
    assert(r@ =~= queue_fields(*d)[1].1);
    r
}

/// The ranks embed for a summoner and their standings.
pub fn league_embed(summoner: &SummonerResult, league: &LeagueResult) -> (e: Embed)
    ensures
        e@ == rank_embed(*summoner, *league),
{
    let mut e = Embed::new();
    let mut title = summoner.name.clone();
    title.append("'s League Rank(s)");
    e.title = Some(title);
    let mut icon = "http://ddragon.leagueoflegends.com/cdn/13.19.1/img/profileicon/".to_string();
    push_decimal(&mut icon, summoner.profile_icon_id as u64);
    icon.append(".png");
    e.thumbnail = Some(icon);
    let entries = &league.league_result;
    let n = entries.len();
    let mut i: usize = 0;
    assert(entries@.take(0) =~= Seq::<LeagueData>::empty());
    while i < n
        invariant
            n == entries@.len(),
            i <= n,
            e@ == (EmbedView { fields: league_fields(entries@.take(i as int)), ..rank_embed(*summoner, *league) }),
        decreases n - i,
    {
        let d = &entries[i];
        let queue = replace_char(d.queue_type.as_str(), '_', ' ');
        let mut tier = d.tier.clone();
        tier.append(" ");
        tier.append(d.rank.as_str());
        let ghost before = e@.fields;
        assert((queue@, tier@, false) == queue_fields(*d)[0]);
        e.push_field(queue, tier, false);
        e.push_field("STATS".to_string(), stats_text(d), false);
        assert(e@.fields =~= before + queue_fields(*d));
        assert(entries@.take(i as int + 1).drop_last() =~= entries@.take(i as int));
        assert(league_fields(entries@.take(i as int + 1))
            =~= league_fields(entries@.take(i as int)) + queue_fields(entries@[i as int]));
        i = i + 1;
    }
    assert(entries@.take(n as int) =~= entries@);
    e
}


/// Where the `league` command stands.
pub enum LeagueStage {
    /// Nothing read yet.
    Start,
    /// Waiting for the lookup of the summoner asked for.
    LookingUp { requested: String },
    /// Waiting for the standings of the summoner found.
    Ranking { summoner: SummonerResult },
    /// Nothing more to do.
    Done,
}

/// What the command learns next: its argument, or the answer to a lookup.
pub enum LeagueEvent {
    Argument(Option<String>),
    SummonerFound(Option<SummonerResult>),
    LeagueFound(Option<LeagueResult>),
}

/// What the command does next.
pub enum LeagueAction {
    /// Post this text in the channel and stop.
    Say(String),
    /// Look this summoner name up.
    FetchSummoner(String),
    /// Look the standings of this summoner id up.
    FetchLeague(String),
    /// Post this embed in the channel and stop.
    SendEmbed(Embed),
    /// Stop without posting.
    Finish,
}

/// One step of the `league` command: `next` and `action` are what follows
/// `event` in `stage`.
pub open spec fn league_step_spec(
    stage: LeagueStage,
    event: LeagueEvent,
    next: LeagueStage,
    action: LeagueAction,
) -> bool {
    match (stage, event) {
        (LeagueStage::Start, LeagueEvent::Argument(None)) => {
            &&& next is Done
            &&& action matches LeagueAction::Say(m) && m@ == MISSING_SUMMONER@
        },
        (LeagueStage::Start, LeagueEvent::Argument(Some(name))) => {
            &&& next == (LeagueStage::LookingUp { requested: name })
            &&& action matches LeagueAction::FetchSummoner(n) && n@ == name@
        },
        (LeagueStage::LookingUp { .. }, LeagueEvent::SummonerFound(None)) => {
            &&& next is Done
            &&& action matches LeagueAction::Say(m) && m@ == SUMMONER_NOT_FOUND@
        },
        (LeagueStage::LookingUp { requested }, LeagueEvent::SummonerFound(Some(s))) => {
            if lowercase(requested@) == lowercase(s.name@) {
                &&& next == (LeagueStage::Ranking { summoner: s })
                &&& action matches LeagueAction::FetchLeague(id) && id@ == s.id@
            } else {
                &&& next is Done
                &&& action is Finish
            }
        },
        (LeagueStage::Ranking { .. }, LeagueEvent::LeagueFound(None)) => {
            &&& next is Done
            &&& action matches LeagueAction::Say(m) && m@ == LEAGUE_NOT_FOUND@
        },
        (LeagueStage::Ranking { summoner }, LeagueEvent::LeagueFound(Some(l))) => {
            &&& next is Done
            &&& action matches LeagueAction::SendEmbed(e) && e@ == rank_embed(summoner, l)
        },
        _ => {
            &&& next is Done
            &&& action is Finish
        },
    }
}

/// One step of the `league` command: from where it stands and what it
/// learned, where it goes and what it does.
pub fn league_step(stage: LeagueStage, event: LeagueEvent) -> (r: (LeagueStage, LeagueAction))
    ensures
        league_step_spec(stage, event, r.0, r.1),
{
    match (stage, event) {
        (LeagueStage::Start, LeagueEvent::Argument(None)) => (
            LeagueStage::Done,
            LeagueAction::Say(MISSING_SUMMONER.to_string()),
        ),
        (LeagueStage::Start, LeagueEvent::Argument(Some(name))) => {
            let fetch = name.clone();
            (LeagueStage::LookingUp { requested: name }, LeagueAction::FetchSummoner(fetch))
        },
        (LeagueStage::LookingUp { .. }, LeagueEvent::SummonerFound(None)) => (
            LeagueStage::Done,
            LeagueAction::Say(SUMMONER_NOT_FOUND.to_string()),
        ),
        (LeagueStage::LookingUp { requested }, LeagueEvent::SummonerFound(Some(s))) => {
            if summoner_matches(requested.as_str(), s.name.as_str()) {
                let id = s.id.clone();
                (LeagueStage::Ranking { summoner: s }, LeagueAction::FetchLeague(id))
            } else {
                (LeagueStage::Done, LeagueAction::Finish)
            }
        },
        (LeagueStage::Ranking { .. }, LeagueEvent::LeagueFound(None)) => (
            LeagueStage::Done,
            LeagueAction::Say(LEAGUE_NOT_FOUND.to_string()),
        ),
        (LeagueStage::Ranking { summoner }, LeagueEvent::LeagueFound(Some(l))) => {
            let e = league_embed(&summoner, &l);
            (LeagueStage::Done, LeagueAction::SendEmbed(e))
        },
        _ => (LeagueStage::Done, LeagueAction::Finish),
    }
}


/// The ranks embed has two fields for each queue, the queue's own first and
/// its "STATS" second, in the order of the standings.
pub proof fn law_two_fields_per_queue(entries: Seq<LeagueData>)
    ensures
        league_fields(entries).len() == 2 * entries.len(),
        forall|i: int| 0 <= i < entries.len() ==> {
            &&& #[trigger] league_fields(entries)[2 * i] == queue_fields(entries[i])[0]
            &&& league_fields(entries)[2 * i + 1] == queue_fields(entries[i])[1]
        },
    decreases entries.len(),
{
    if entries.len() > 0 {
        let init = entries.drop_last();
        law_two_fields_per_queue(init);
        assert forall|i: int| 0 <= i < entries.len() implies {
            &&& #[trigger] league_fields(entries)[2 * i] == queue_fields(entries[i])[0]
            &&& league_fields(entries)[2 * i + 1] == queue_fields(entries[i])[1]
        } by {
            if i < entries.len() - 1 {
                assert(entries[i] == init[i]);
            }
        }
    }
}


/// A summoner found under exactly the name asked for is taken on: the
/// command goes on to fetch the ranks of that summoner's id.
pub proof fn law_same_name_fetches_ranks(
    requested: String,
    s: SummonerResult,
    next: LeagueStage,
    action: LeagueAction,
)
    requires
        requested@ == s.name@,
        league_step_spec(LeagueStage::LookingUp { requested }, LeagueEvent::SummonerFound(Some(s)), next, action),
    ensures
        next == (LeagueStage::Ranking { summoner: s }),
        action matches LeagueAction::FetchLeague(id) && id@ == s.id@,
{
}

/// What the command does with a summoner found depends on the name asked
/// for only up to case: two requests with the same lowercase form lead to
/// the same stage and the same kind of action.
pub proof fn law_found_summoner_ignores_case(
    r1: String,
    r2: String,
    s: SummonerResult,
    n1: LeagueStage,
    a1: LeagueAction,
    n2: LeagueStage,
    a2: LeagueAction,
)
    requires
        lowercase(r1@) == lowercase(r2@),
        league_step_spec(LeagueStage::LookingUp { requested: r1 }, LeagueEvent::SummonerFound(Some(s)), n1, a1),
        league_step_spec(LeagueStage::LookingUp { requested: r2 }, LeagueEvent::SummonerFound(Some(s)), n2, a2),
    ensures
        n1 == n2,
        (a1 is FetchLeague) == (a2 is FetchLeague),
        (a1 is Finish) == (a2 is Finish),
{
}

/// A summoner found under a name that differs from the one asked for even
/// ignoring case ends the command without a post.
pub proof fn law_other_name_finishes(
    requested: String,
    s: SummonerResult,
    next: LeagueStage,
    action: LeagueAction,
)
    requires
        lowercase(requested@) != lowercase(s.name@),
        league_step_spec(LeagueStage::LookingUp { requested }, LeagueEvent::SummonerFound(Some(s)), next, action),
    ensures
        next is Done,
        action is Finish,
{
}

/// Once the standings arrive, the embed posted has the summoner's name in
/// its title, their icon as picture, and two fields for every queue, in
/// order: the queue's name with `_` as space with "<tier> <rank>", then
/// "STATS" with "<points> LP\n<wins>W <losses>L".
pub proof fn law_ranks_embed_has_every_queue(
    summoner: SummonerResult,
    l: LeagueResult,
    next: LeagueStage,
    action: LeagueAction,
)
    requires
        league_step_spec(LeagueStage::Ranking { summoner }, LeagueEvent::LeagueFound(Some(l)), next, action),
    ensures
        next is Done,
        action matches LeagueAction::SendEmbed(e) && ({
            let entries = l.league_result@;
            &&& e@.title == Some(summoner.name@ + "'s League Rank(s)"@)
            &&& e@.thumbnail == Some("http://ddragon.leagueoflegends.com/cdn/13.19.1/img/profileicon/"@
                + decimal(summoner.profile_icon_id as nat) + ".png"@)
            &&& e@.author is None
            &&& e@.color is None
            &&& e@.url is None
            &&& e@.fields.len() == 2 * entries.len()
            &&& forall|i: int| 0 <= i < entries.len() ==> {
                &&& #[trigger] e@.fields[2 * i] == (replace_all(entries[i].queue_type@, '_', ' '),
                    entries[i].tier@ + " "@ + entries[i].rank@, false)
                &&& e@.fields[2 * i + 1] == ("STATS"@, decimal(entries[i].league_points as nat)
                    + " LP\n"@ + decimal(entries[i].wins as nat) + "W "@ + decimal(entries[i].losses as nat)
                    + "L"@, false)
            }
        }),
{
    law_two_fields_per_queue(l.league_result@);
}


/// The other steps: without a name the command says so; with one it looks
/// that very name up; a failed lookup of the summoner or of the ranks is
/// reported; any event out of turn ends the command.
pub proof fn law_league_other_steps(
    stage: LeagueStage,
    event: LeagueEvent,
    next: LeagueStage,
    action: LeagueAction,
)
    requires
        league_step_spec(stage, event, next, action),
    ensures
        (stage is Start && (event matches LeagueEvent::Argument(None))) ==> (next is Done
            && (action matches LeagueAction::Say(m) && m@ == "Must provide a summoner value"@)),
        stage is Start ==> (event matches LeagueEvent::Argument(Some(name)) ==> (next == (LeagueStage::LookingUp { requested: name })
            && (action matches LeagueAction::FetchSummoner(n) && n@ == name@))),
        (stage is LookingUp && (event matches LeagueEvent::SummonerFound(None))) ==> (next is Done
            && (action matches LeagueAction::Say(m) && m@ == "Summoner not found"@)),
        (stage is Ranking && (event matches LeagueEvent::LeagueFound(None))) ==> (next is Done
            && (action matches LeagueAction::Say(m) && m@ == "League data not found"@)),
        (stage is Done || (stage is Start && !(event is Argument)) || (stage is LookingUp
            && !(event is SummonerFound)) || (stage is Ranking && !(event is LeagueFound))) ==> (next is Done
            && action is Finish),
{
    reveal_strlit("Must provide a summoner value");
    reveal_strlit("Summoner not found");
    reveal_strlit("League data not found");
}

} // verus!
