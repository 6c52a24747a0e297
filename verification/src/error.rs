//! The bot's error value and its exchange with the command framework's
//! failure reasons.

use vstd::prelude::*;

verus! {

/// An error of a command: a text for the user who ran it, a text for the
/// log, or both.
#[derive(Clone, Debug, PartialEq, Eq)]
pub enum ButlerError {
    User(String),
    Log(String),
    UserAndLog { user: String, log: String },
}

/// A `ButlerError` with its texts taken as character sequences.
pub enum ButlerErrorView {
    User(Seq<char>),
    Log(Seq<char>),
    UserAndLog(Seq<char>, Seq<char>),
}

impl View for ButlerError {
    type V = ButlerErrorView;

    open spec fn view(&self) -> ButlerErrorView {
        match self {
            ButlerError::User(s) => ButlerErrorView::User(s@),
            ButlerError::Log(s) => ButlerErrorView::Log(s@),
            ButlerError::UserAndLog { user, log } => ButlerErrorView::UserAndLog(user@, log@),
        }
    }
}

/// Why a framework command failed, as the command framework reports it.
#[derive(Clone, Debug, PartialEq, Eq)]
pub enum Reason {
    Unknown,
    User(String),
    Log(String),
    UserAndLog { user: String, log: String },
}

/// The text of an error as it is displayed.
pub open spec fn display_text(e: ButlerErrorView) -> Seq<char> {
    match e {
        ButlerErrorView::User(s) => "user: "@ + s,
        ButlerErrorView::Log(s) => "log: "@ + s,
        ButlerErrorView::UserAndLog(user, log) => "user: "@ + user + ", log: "@ + log,
    }
}

/// The text that goes back to the user who ran the command, if any.
pub open spec fn user_text(e: ButlerErrorView) -> Option<Seq<char>> {
    match e {
        ButlerErrorView::User(s) => Some(s),
        ButlerErrorView::Log(_) => None,
        ButlerErrorView::UserAndLog(user, _) => Some(user),
    }
}

/// The text that goes to the log, if any.
pub open spec fn log_text(e: ButlerErrorView) -> Option<Seq<char>> {
    match e {
        ButlerErrorView::User(_) => None,
        ButlerErrorView::Log(s) => Some(s),
        ButlerErrorView::UserAndLog(_, log) => Some(log),
    }
}

/// The framework reason that an error becomes: the same variant, with the
/// same texts.
pub open spec fn reason_of_error(e: ButlerError) -> Reason {
    match e {
        ButlerError::User(s) => Reason::User(s),
        ButlerError::Log(s) => Reason::Log(s),
        ButlerError::UserAndLog { user, log } => Reason::UserAndLog { user, log },
    }
}

/// `e` is the error that the framework reason `r` becomes: the same variant
/// with the same texts, and a log entry "Unknown reason" for an unknown one.
pub open spec fn is_error_of_reason(r: Reason, e: ButlerError) -> bool {
    match r {
        Reason::Unknown => e@ == ButlerErrorView::Log("Unknown reason"@),
        Reason::User(s) => e == ButlerError::User(s),
        Reason::Log(s) => e == ButlerError::Log(s),
        Reason::UserAndLog { user, log } => e == (ButlerError::UserAndLog { user, log }),
    }
}

impl ButlerError {
    /// An error whose text goes to the user.
    pub fn user(s: &str) -> (r: ButlerError)
        ensures
            r@ == ButlerErrorView::User(s@),
    {
        ButlerError::User(s.to_string())
    }

    /// An error whose text goes to the log.
    pub fn log(s: &str) -> (r: ButlerError)
        ensures
            r@ == ButlerErrorView::Log(s@),
    {
        ButlerError::Log(s.to_string())
    }

    /// An error with one text for the user and one for the log.
    pub fn user_and_log(user: &str, log: &str) -> (r: ButlerError)
        ensures
            r@ == ButlerErrorView::UserAndLog(user@, log@),
    {
        ButlerError::UserAndLog { user: user.to_string(), log: log.to_string() }
    }

    /// The error that a framework reason becomes.
    pub fn from(r: Reason) -> (e: ButlerError)
        ensures
            is_error_of_reason(r, e),
    {
        match r {
            Reason::Log(s) => ButlerError::Log(s),
            Reason::User(s) => ButlerError::User(s),
            Reason::UserAndLog { user, log } => ButlerError::UserAndLog { user, log },
            Reason::Unknown => ButlerError::Log("Unknown reason".to_owned()),
        }
    }
}

impl ButlerError {
    /// The text of the error as it is displayed: `user: ..`, `log: ..`, or
    /// `user: .., log: ..`.
    pub fn to_display_string(&self) -> (r: String)
        ensures
            r@ == display_text(self@),
    {
        match self {
            ButlerError::User(s) => {
                let mut r = "user: ".to_string();
                r.append(s.as_str());
                r
            },
            ButlerError::Log(s) => {
                let mut r = "log: ".to_string();
                r.append(s.as_str());
                r
            },
            ButlerError::UserAndLog { user, log } => {
                let mut r = "user: ".to_string();
                r.append(user.as_str());
                r.append(", log: ");
                r.append(log.as_str());
                r
            },
        }
    }

    /// The text that goes back to the user who ran the command, if any.
    pub fn user_message(&self) -> (r: Option<&str>)
        ensures
            match user_text(self@) {
                Some(t) => r matches Some(m) && m@ == t,
                None => r is None,
            },
    {
        match self {
            ButlerError::User(s) => Some(s.as_str()),
            ButlerError::Log(_) => None,
            ButlerError::UserAndLog { user, .. } => Some(user.as_str()),
        }
    }

    /// The text that goes to the log, if any.
    pub fn log_message(&self) -> (r: Option<&str>)
        ensures
            match log_text(self@) {
                Some(t) => r matches Some(m) && m@ == t,
                None => r is None,
            },
    {
        match self {
            ButlerError::User(_) => None,
            ButlerError::Log(s) => Some(s.as_str()),
            ButlerError::UserAndLog { log, .. } => Some(log.as_str()),
        }
    }
}

/// An error handed to the framework and taken back is the error it was.
pub proof fn law_error_reason_roundtrip(e: ButlerError, back: ButlerError)
    requires
        is_error_of_reason(reason_of_error(e), back),
    ensures
        back == e,
{
}

/// A known framework reason taken in as an error and handed back is the
/// reason it was.
pub proof fn law_reason_error_roundtrip(r: Reason, e: ButlerError)
    requires
        r !is Unknown,
        is_error_of_reason(r, e),
    ensures
        reason_of_error(e) == r,
{
}

/// Every error has something to say: a text for the user, for the log, or
/// both.
pub proof fn law_error_is_reported(e: ButlerErrorView)
    ensures
        user_text(e) is Some || log_text(e) is Some,
{
}

impl From<ButlerError> for Reason {
    fn from(s: ButlerError) -> (r: Reason) {
        match s {
            ButlerError::Log(s) => Reason::Log(s),
            ButlerError::User(s) => Reason::User(s),
            ButlerError::UserAndLog { user, log } => Reason::UserAndLog { user, log },
        }
    }
}

impl vstd::std_specs::convert::FromSpecImpl<ButlerError> for Reason {
    open spec fn obeys_from_spec() -> bool {
        true
    }

    open spec fn from_spec(v: ButlerError) -> Reason {
        reason_of_error(v)
    }
}


/// An error is displayed as `user: <text>`, `log: <text>` or
/// `user: <text>, log: <text>`; the user gets the user text and the log the
/// log text; an unknown framework reason becomes the log text
/// "Unknown reason".
pub proof fn law_error_texts(user: Seq<char>, log: Seq<char>, e: ButlerError)
    ensures
        display_text(ButlerErrorView::User(user)) == "user: "@ + user,
        display_text(ButlerErrorView::Log(log)) == "log: "@ + log,
        display_text(ButlerErrorView::UserAndLog(user, log)) == "user: "@ + user + ", log: "@ + log,
        user_text(ButlerErrorView::User(user)) == Some(user) && log_text(ButlerErrorView::User(user)) is None,
        user_text(ButlerErrorView::Log(log)) is None && log_text(ButlerErrorView::Log(log)) == Some(log),
        user_text(ButlerErrorView::UserAndLog(user, log)) == Some(user)
            && log_text(ButlerErrorView::UserAndLog(user, log)) == Some(log),
        is_error_of_reason(Reason::Unknown, e) <==> e@ == ButlerErrorView::Log("Unknown reason"@),
{
}

} // verus!
