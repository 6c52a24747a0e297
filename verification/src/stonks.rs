//! The `stock` command: the quote request and the message about the result.

use vstd::prelude::*;
use crate::text::{ascii_upper, decimal, push_char, push_decimal, to_ascii_uppercase};

verus! {

/// The reply when no ticker was given.
pub const MISSING_TICKER: &'static str = "Must provide a URL to a video or audio";

/// The headers sent with a quote request, as (name, value) pairs.
pub open spec fn request_headers_spec() -> Seq<(Seq<char>, Seq<char>)> {
    seq![
        ("user-agent"@, "reqwest"@),
        ("content-type"@, "application/json"@),
        ("content-length"@, "0"@),
    ]
}

/// The headers sent with a quote request, as (name, value) pairs.
pub fn request_headers() -> (r: Vec<(&'static str, &'static str)>)
    ensures
        r@.len() == request_headers_spec().len(),
        forall|i: int| 0 <= i < r@.len() ==> (#[trigger] r@[i]).0@ == request_headers_spec()[i].0
            && r@[i].1@ == request_headers_spec()[i].1,
{
    let mut r: Vec<(&'static str, &'static str)> = Vec::new();
    r.push(("user-agent", "reqwest"));
    r.push(("content-type", "application/json"));
    r.push(("content-length", "0"));
    r
}

/// The address of the quote of a ticker (written in upper case).
pub open spec fn quote_url_text(ticker: Seq<char>, token: Seq<char>) -> Seq<char> {
    "https://finnhub.io/api/v1/quote?symbol="@ + ascii_upper(ticker) + "&token="@ + token
}

/// The address of the quote of a ticker (written in upper case).
pub fn quote_url(ticker: &str, token: &str) -> (r: String)
    ensures
        r@ == quote_url_text(ticker@, token@),
{
    let mut r = "https://finnhub.io/api/v1/quote?symbol=".to_string();
    let upper = to_ascii_uppercase(ticker);
    r.append(upper.as_str());
    r.append("&token=");
    r.append(token);
    r
}

/// A signed integer in decimal, with `-` before a negative one.
pub open spec fn signed_decimal(v: int) -> Seq<char> {
    if v < 0 {
        seq!['-'] + decimal((-v) as nat)
    } else {
        decimal(v as nat)
    }
}

/// "<year>-<month>-<day>", each number in plain decimal.
pub open spec fn date_text(year: i32, month: u32, day: u32) -> Seq<char> {
    signed_decimal(year as int) + "-"@ + decimal(month as nat) + "-"@ + decimal(day as nat)
}

/// "<year>-<month>-<day>", each number in plain decimal.
pub fn date_label(year: i32, month: u32, day: u32) -> (r: String)
    ensures
        r@ == date_text(year, month, day),
{
    let mut r = String::new();
    if year < 0 {
        push_char(&mut r, '-');
        let magnitude: i64 = -(year as i64);
        push_decimal(&mut r, magnitude as u64);
    } else {
        push_decimal(&mut r, year as u64);
    }
    r.append("-");
    push_decimal(&mut r, month as u64);
    r.append("-");
    push_decimal(&mut r, day as u64);
    assert(r@ =~= date_text(year, month, day));
    r
}

/// The message about a quote, given the day, the ticker as asked, the
/// opening and closing prices, the direction ("increase" or "decrease")
/// and the change in percent, the numbers already written out.
pub open spec fn stock_message_text(
    date: Seq<char>,
    ticker: Seq<char>,
    open: Seq<char>,
    close: Seq<char>,
    direction: Seq<char>,
    percent: Seq<char>,
) -> Seq<char> {
    "On "@ + date + " the ticker "@ + ascii_upper(ticker) + " had an open of $"@ + open
        + " and a close of $"@ + close + "\nfor a "@ + direction + " of "@ + percent + "%"@
}

/// The message about a quote.
pub fn stock_message(
    date: &str,
    ticker: &str,
    open: &str,
    close: &str,
    direction: &str,
    percent: &str,
) -> (r: String)
    ensures
        r@ == stock_message_text(date@, ticker@, open@, close@, direction@, percent@),
{
    let mut r = "On ".to_string();
    r.append(date);
    r.append(" the ticker ");
    let upper = to_ascii_uppercase(ticker);
    r.append(upper.as_str());
    r.append(" had an open of $");
    r.append(open);
    r.append(" and a close of $");
    r.append(close);
    r.append("\nfor a ");
    r.append(direction);
    r.append(" of ");
    r.append(percent);
    r.append("%");
    r
}


/// The day is written year, month and day in decimal, joined by `-`, with
/// a leading `-` for a year before zero; the quote address carries the
/// ticker in ASCII upper case then the token.
pub proof fn law_stock_texts(year: i32, month: u32, day: u32, ticker: Seq<char>, token: Seq<char>)
    ensures
        year >= 0 ==> date_text(year, month, day) == decimal(year as nat) + "-"@ + decimal(month as nat)
            + "-"@ + decimal(day as nat),
        year < 0 ==> date_text(year, month, day) == seq!['-'] + decimal((-(year as int)) as nat) + "-"@
            + decimal(month as nat) + "-"@ + decimal(day as nat),
        quote_url_text(ticker, token) == "https://finnhub.io/api/v1/quote?symbol="@ + ascii_upper(ticker)
            + "&token="@ + token,
{
}

} // verus!
