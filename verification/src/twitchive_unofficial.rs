//! A client of a Nitter front end: its configuration, its errors, the
//! address of a user's timeline page, and the fields read off a tweet of
//! that page.

use crate::text::{append_decimal, decimal, parse_u64, parse_u64_spec};
use crate::tweetchive_core::rabbitmq::Timestamp;
use vstd::prelude::*;
use vstd::string::*;

verus! {

#[verifier::external_type_specification]
#[verifier::external_body]
pub struct ExReqwestError(reqwest::Error);

/// The number of the HTTP status that `reqwest::Error::status` reports for
/// an error (the status of the response it came from), if it has one.
pub uninterp spec fn error_status_code(e: reqwest::Error) -> Option<u16>;

/// Calls `reqwest::Error::status`, which hands back the status stored in the
/// error when it was made from a response, and takes its number with
/// `StatusCode::as_u16`. The result depends on the error alone and is named
/// `error_status_code`; a `StatusCode` can only hold a number in
/// `100..=999`.
#[verifier::external_body]
fn error_status_number(e: &reqwest::Error) -> (r: Option<u16>)
    ensures
        r == error_status_code(*e),
        r matches Some(c) ==> 100 <= c <= 999,
{
    match e.status() {
        Some(sc) => Some(sc.as_u16()),
        None => None,
    }
}

/// Where the Nitter front end is.
#[derive(Clone, Debug)]
pub struct Config {
    pub nitter_address: String,
}

/// What can go wrong while scraping.
#[derive(Clone, Debug)]
pub enum TwitterApiError {
    RateLimit,
    Unauthorized,
    UnknownError,
    Proxy,
    HttpError(u16),
    Scrape(String),
}

/// The error for an HTTP failure with the given status, if it has one:
/// `HttpError` with that status, `UnknownError` without one.
pub open spec fn status_error(status: Option<u16>) -> TwitterApiError {
    match status {
        Some(code) => TwitterApiError::HttpError(code),
        None => TwitterApiError::UnknownError,
    }
}

/// A failed HTTP exchange becomes `HttpError` with the status of the
/// response it came from, or `UnknownError` when it came from none.
impl From<reqwest::Error> for TwitterApiError {
    fn from(e: reqwest::Error) -> (r: TwitterApiError)
        ensures
            r == status_error(error_status_code(e)),
    {
        TwitterApiError::from_status(error_status_number(&e))
    }
}

impl vstd::std_specs::convert::FromSpecImpl<reqwest::Error> for TwitterApiError {
    open spec fn obeys_from_spec() -> bool {
        true
    }

    open spec fn from_spec(e: reqwest::Error) -> TwitterApiError {
        status_error(error_status_code(e))
    }
}

impl TwitterApiError {
    /// The error for an HTTP failure: the status when the failure has one,
    /// `UnknownError` otherwise.
    pub fn from_status(status: Option<u16>) -> (r: TwitterApiError)
        ensures
            r == status_error(status),
    {
        match status {
            Some(code) => TwitterApiError::HttpError(code),
            None => TwitterApiError::UnknownError,
        }
    }

    /// The message of the error.
    pub open spec fn message(self) -> Seq<char> {
        match self {
            TwitterApiError::RateLimit => "Hit the Twitter Ratelimit"@,
            TwitterApiError::Unauthorized => "Unauthorized"@,
            TwitterApiError::UnknownError => "idk"@,
            TwitterApiError::Proxy => "ProxyErr"@,
            TwitterApiError::HttpError(code) => "HTTP Error "@ + decimal(code as nat),
            TwitterApiError::Scrape(what) => "Error while scraping: "@ + what@,
        }
    }

    /// The message of the error, as shown to people.
    pub fn to_string(&self) -> (s: String)
        ensures
            s@ == self.message(),
    {
        match self {
            TwitterApiError::RateLimit => String::from_str("Hit the Twitter Ratelimit"),
            TwitterApiError::Unauthorized => String::from_str("Unauthorized"),
            TwitterApiError::UnknownError => String::from_str("idk"),
            TwitterApiError::Proxy => String::from_str("ProxyErr"),
            TwitterApiError::HttpError(code) => {
                let mut s = String::from_str("HTTP Error ");
                append_decimal(&mut s, *code as u64);
                s
            },
            TwitterApiError::Scrape(what) => {
                let mut s = String::from_str("Error while scraping: ");
                s.append(what.as_str());
                s
            },
        }
    }
}

/// The address of a user's timeline page, with replies, at the given
/// pagination cursor.
pub open spec fn timeline_address(nitter: Seq<char>, username: Seq<char>, cursor: Option<Seq<char>>) -> Seq<
    char,
> {
    match cursor {
        Some(c) => nitter + "/"@ + username + "/with_replies/?cursor="@ + c,
        None => nitter + "/"@ + username + "/with_replies"@,
    }
}

/// The address of `username`'s timeline page at the pagination cursor, or
/// of its first page.
pub fn user_timeline_url(config: &Config, username: &str, pagination: Option<&str>) -> (u: String)
    ensures
        u@ == timeline_address(
            config.nitter_address@,
            username@,
            match pagination {
                Some(c) => Some(c@),
                None => None,
            },
        ),
{
    let mut u = config.nitter_address.clone();
    u.append("/");
    u.append(username);
    match pagination {
        Some(cursor) => {
            u.append("/with_replies/?cursor=");
            u.append(cursor);
        },
        None => {
            u.append("/with_replies");
        },
    }
    u
}

/// The format of a tweet's date on the timeline page.
pub const TWEETDATE_STR: &'static str = "%b %e, %Y · %R%p UTC";

/// The format of an account's join date on its profile page.
pub const JOINDATE_STR: &'static str = "%R %p - %e %b %Y";

/// The instant that `NaiveDateTime::parse_from_str` reads from `s` in
/// format `fmt`, taken as UTC: seconds since the epoch and nanoseconds.
pub uninterp spec fn parsed_datetime(s: Seq<char>, fmt: Seq<char>) -> Option<(i64, u32)>;

/// Calls `chrono::NaiveDateTime::parse_from_str`. Its result depends on the
/// two strings alone and is named `parsed_datetime`; the nanoseconds of a
/// parsed time are below 2 000 000 000 (a leap second reaches past 10^9).
#[verifier::external_body]
fn parse_datetime(s: &str, fmt: &str) -> (r: Option<(i64, u32)>)
    ensures
        r == parsed_datetime(s@, fmt@),
        r matches Some(t) ==> t.1 < 2_000_000_000,
{
    match chrono::NaiveDateTime::parse_from_str(s, fmt) {
        Ok(dt) => Some((dt.and_utc().timestamp(), dt.and_utc().timestamp_subsec_nanos())),
        Err(_) => None,
    }
}

/// What is read off one tweet of a timeline page: the `href` of its link,
/// whether it is pinned, the HTML of its content, the text of its first
/// statistic, and the `title` of its date.
pub struct TweetMarkup {
    pub link: Option<String>,
    pub pinned: bool,
    pub content: Option<String>,
    pub stat_text: Option<String>,
    pub date_title: Option<String>,
}

/// The fields of a tweet on a timeline page.
pub struct ParsedTweet {
    pub link: Option<String>,
    pub pinned: bool,
    pub content: Option<String>,
    pub replies: u64,
    pub retweets: u64,
    pub quotes: u64,
    pub likes: u64,
    pub date: Option<Timestamp>,
}

/// A statistic read from its text: the number it spells, or 0 when there
/// is no text or the text is no number.
pub open spec fn stat_value(text: Option<Seq<char>>) -> u64 {
    match text {
        Some(t) => match parse_u64_spec(t) {
            Some(v) => v,
            None => 0,
        },
        None => 0,
    }
}

/// The date of a tweet read from the `title` of its date element.
pub open spec fn tweet_date(title: Option<Seq<char>>) -> Option<Timestamp> {
    match title {
        Some(t) => match parsed_datetime(t, TWEETDATE_STR@) {
            Some(p) => Some(Timestamp { secs: p.0, nanos: p.1 }),
            None => None,
        },
        None => None,
    }
}

/// Reads the fields of a tweet off its markup. Every statistic is read from
/// the text of the first statistic element, so replies, retweets, quotes
/// and likes carry the same number.
pub fn parse_tweet(tweet: TweetMarkup) -> (p: ParsedTweet)
    ensures
        p.link == tweet.link,
        p.pinned == tweet.pinned,
        p.content == tweet.content,
        p.replies == stat_value(
            match tweet.stat_text {
                Some(t) => Some(t@),
                None => None,
            },
        ),
        p.retweets == p.replies,
        p.quotes == p.replies,
        p.likes == p.replies,
        p.date == tweet_date(
            match tweet.date_title {
                Some(t) => Some(t@),
                None => None,
            },
        ),
{
    let TweetMarkup { link, pinned, content, stat_text, date_title } = tweet;
    let stat = match &stat_text {
        Some(t) => match parse_u64(t.as_str()) {
            Some(v) => v,
            None => 0,
        },
        None => 0,
    };
    let date = match &date_title {
        Some(t) => match parse_datetime(t.as_str(), TWEETDATE_STR) {
            Some(parsed) => Some(Timestamp { secs: parsed.0, nanos: parsed.1 }),
            None => None,
        },
        None => None,
    };
    ParsedTweet {
        link,
        pinned,
        content,
        replies: stat,
        retweets: stat,
        quotes: stat,
        likes: stat,
        date,
    }
}

/// The CSS selector of the tweets of a timeline page.
pub const TIMELINE_TWEETS_SELECTOR: &'static str = "timeline-item";

/// The CSS selector of a tweet's link.
pub const TWEET_LINK_SELECTOR: &'static str = "tweet-link";

/// The CSS selector of a tweet's statistics.
pub const TWEET_STATS_SELECTOR: &'static str = "tweet-stats";

/// The CSS selector of a tweet's content.
pub const TWEET_CONTENT_SELECTOR: &'static str = "tweet-content media-body";

/// The CSS selector of the mark of a pinned tweet.
pub const TWEET_PINNED_SELECTOR: &'static str = "pinned";

/// The CSS selector of a tweet's date.
pub const TWEET_DATE_SELECTOR: &'static str = "tweet-date";

/// The HTML of each element of the document `page` that the CSS selector
/// `css` matches, in document order (none when `css` is no selector).
pub uninterp spec fn selected_html(page: Seq<char>, css: Seq<char>) -> Seq<Seq<char>>;

/// Parses `page` with `scraper::Html::parse_document`, selects with
/// `Selector::parse(css)` and writes each match back with `ElementRef::html`.
/// `scraper` is built with its `deterministic` feature, so an element keeps
/// its attributes in source order and is written back the same way each
/// time: the result depends on the two strings alone and is named
/// `selected_html`.
#[verifier::external_body]
fn select_html(page: &str, css: &str) -> (r: Vec<String>)
    ensures
        r@.map_values(|h: String| h@) == selected_html(page@, css@),
{
    let doc = scraper::Html::parse_document(page);
    let mut out = Vec::new();
    if let Ok(sel) = scraper::Selector::parse(css) {
        for element in doc.select(&sel) {
            out.push(element.html());
        }
    }
    out
}

/// The attribute `attr` of the first element of the fragment `html` that
/// `css` matches, if there is such an element with such an attribute.
pub uninterp spec fn first_match_attr(html: Seq<char>, css: Seq<char>, attr: Seq<char>) -> Option<Seq<char>>;

/// Parses `html` with `Html::parse_fragment`, takes the first match of
/// `Selector::parse(css)` and reads its attribute with `Element::attr`. The
/// result depends on the three strings alone and is named `first_match_attr`.
#[verifier::external_body]
fn select_first_attr(html: &str, css: &str, attr: &str) -> (r: Option<String>)
    ensures
        r matches Some(a) ==> first_match_attr(html@, css@, attr@) == Some(a@),
        r is None ==> first_match_attr(html@, css@, attr@) is None,
{
    let frag = scraper::Html::parse_fragment(html);
    let sel = scraper::Selector::parse(css).ok()?;
    let first = frag.select(&sel).next()?;
    first.value().attr(attr).map(String::from)
}

/// Whether `css` matches an element of the fragment `html`.
pub uninterp spec fn has_match(html: Seq<char>, css: Seq<char>) -> bool;

/// Parses `html` with `Html::parse_fragment` and asks whether
/// `Selector::parse(css)` selects anything. The answer depends on the two
/// strings alone and is named `has_match`.
#[verifier::external_body]
fn select_any(html: &str, css: &str) -> (b: bool)
    ensures
        b == has_match(html@, css@),
{
    let frag = scraper::Html::parse_fragment(html);
    match scraper::Selector::parse(css) {
        Ok(sel) => frag.select(&sel).next().is_some(),
        Err(_) => false,
    }
}

/// The inner HTML of the first element of the fragment `html` that `css`
/// matches, if there is one.
pub uninterp spec fn first_match_inner_html(html: Seq<char>, css: Seq<char>) -> Option<Seq<char>>;

/// Parses `html` with `Html::parse_fragment` and writes the inner HTML of
/// the first match of `Selector::parse(css)` with `ElementRef::inner_html`.
/// With `scraper`'s `deterministic` feature, attributes keep their source
/// order, so the result depends on the two strings alone and is named
/// `first_match_inner_html`.
#[verifier::external_body]
fn select_first_inner_html(html: &str, css: &str) -> (r: Option<String>)
    ensures
        r matches Some(h) ==> first_match_inner_html(html@, css@) == Some(h@),
        r is None ==> first_match_inner_html(html@, css@) is None,
{
    let frag = scraper::Html::parse_fragment(html);
    let sel = scraper::Selector::parse(css).ok()?;
    let first = frag.select(&sel).next()?;
    Some(first.inner_html())
}

/// The text of the first child of the first element of the fragment `html`
/// that `css` matches, if that child is text.
pub uninterp spec fn first_match_child_text(html: Seq<char>, css: Seq<char>) -> Option<Seq<char>>;

/// Parses `html` with `Html::parse_fragment`, takes the first match of
/// `Selector::parse(css)` and reads its first child as text with
/// `Node::as_text`. The result depends on the two strings alone and is
/// named `first_match_child_text`.
#[verifier::external_body]
fn select_first_child_text(html: &str, css: &str) -> (r: Option<String>)
    ensures
        r matches Some(t) ==> first_match_child_text(html@, css@) == Some(t@),
        r is None ==> first_match_child_text(html@, css@) is None,
{
    let frag = scraper::Html::parse_fragment(html);
    let sel = scraper::Selector::parse(css).ok()?;
    let child = frag.select(&sel).next()?.first_child()?;
    let text = child.value().as_text()?;
    Some(text.text.to_string())
}

/// The attribute `attr` of the first child of the first element of the
/// fragment `html` that `css` matches, if that child is an element with
/// such an attribute.
pub uninterp spec fn first_match_child_attr(html: Seq<char>, css: Seq<char>, attr: Seq<char>) -> Option<Seq<char>>;

/// Parses `html` with `Html::parse_fragment`, takes the first match of
/// `Selector::parse(css)`, its first child as an element with
/// `Node::as_element`, and reads its attribute with `Element::attr`. The
/// result depends on the three strings alone and is named
/// `first_match_child_attr`.
#[verifier::external_body]
fn select_first_child_attr(html: &str, css: &str, attr: &str) -> (r: Option<String>)
    ensures
        r matches Some(a) ==> first_match_child_attr(html@, css@, attr@) == Some(a@),
        r is None ==> first_match_child_attr(html@, css@, attr@) is None,
{
    let frag = scraper::Html::parse_fragment(html);
    let sel = scraper::Selector::parse(css).ok()?;
    let child = frag.select(&sel).next()?.first_child()?;
    child.value().as_element()?.attr(attr).map(String::from)
}

/// The characters of an optional string.
pub open spec fn opt_chars(o: Option<String>) -> Option<Seq<char>> {
    match o {
        Some(t) => Some(t@),
        None => None,
    }
}

/// The markup of one tweet element of a timeline page, written as `item`:
/// the `href` of its link, whether it has a pinned mark, the inner HTML of
/// its content, the text of its statistics, and the `title` of its date.
pub open spec fn item_markup_fields(m: TweetMarkup, item: Seq<char>) -> bool {
    &&& opt_chars(m.link) == first_match_attr(item, TWEET_LINK_SELECTOR@, "href"@)
    &&& m.pinned == has_match(item, TWEET_PINNED_SELECTOR@)
    &&& opt_chars(m.content) == first_match_inner_html(item, TWEET_CONTENT_SELECTOR@)
    &&& opt_chars(m.stat_text) == first_match_child_text(item, TWEET_STATS_SELECTOR@)
    &&& opt_chars(m.date_title) == first_match_child_attr(item, TWEET_DATE_SELECTOR@, "title"@)
}

/// Reads the markup of one tweet element of a timeline page.
pub fn tweet_markup(item: &str) -> (m: TweetMarkup)
    ensures
        item_markup_fields(m, item@),
{
    TweetMarkup {
        link: select_first_attr(item, TWEET_LINK_SELECTOR, "href"),
        pinned: select_any(item, TWEET_PINNED_SELECTOR),
        content: select_first_inner_html(item, TWEET_CONTENT_SELECTOR),
        stat_text: select_first_child_text(item, TWEET_STATS_SELECTOR),
        date_title: select_first_child_attr(item, TWEET_DATE_SELECTOR, "title"),
    }
}

/// The fields of a tweet read off the tweet element written as `item`.
pub open spec fn parsed_from_item(p: ParsedTweet, item: Seq<char>) -> bool {
    &&& opt_chars(p.link) == first_match_attr(item, TWEET_LINK_SELECTOR@, "href"@)
    &&& p.pinned == has_match(item, TWEET_PINNED_SELECTOR@)
    &&& opt_chars(p.content) == first_match_inner_html(item, TWEET_CONTENT_SELECTOR@)
    &&& p.replies == stat_value(first_match_child_text(item, TWEET_STATS_SELECTOR@))
    &&& p.retweets == p.replies
    &&& p.quotes == p.replies
    &&& p.likes == p.replies
    &&& p.date == tweet_date(first_match_child_attr(item, TWEET_DATE_SELECTOR@, "title"@))
}

/// The tweets of a timeline page: one for each tweet element of the page,
/// in order, with the fields read off that element.
pub fn timeline_page_tweets(page: &str) -> (r: Vec<ParsedTweet>)
    ensures
        r@.len() == selected_html(page@, TIMELINE_TWEETS_SELECTOR@).len(),
        forall|i: int|
            0 <= i < r@.len() ==> parsed_from_item(
                #[trigger] r@[i],
                selected_html(page@, TIMELINE_TWEETS_SELECTOR@)[i],
            ),
{
    let items = select_html(page, TIMELINE_TWEETS_SELECTOR);
    let ghost found = selected_html(page@, TIMELINE_TWEETS_SELECTOR@);
    let mut out: Vec<ParsedTweet> = Vec::new();
    let mut i: usize = 0;
    while i < items.len()
        invariant
            items@.map_values(|h: String| h@) == found,
            i <= items@.len(),
            out@.len() == i,
            forall|j: int| 0 <= j < i ==> parsed_from_item(#[trigger] out@[j], found[j]),
        decreases items@.len() - i,
    {
        let m = tweet_markup(items[i].as_str());
        let p = parse_tweet(m);
        proof {
            assert(found[i as int] == items@[i as int]@);
        }
        out.push(p);
        i = i + 1;
    }
    out
}

} // verus!
