use tweetchive::tweetchive_core::rabbitmq::{
    MediaType, Timestamp, MEDIA_ARCHIVED_QUEUE, REGISTRATION_QUEUE, REQUEST_QUEUE,
    TWEETS_ARCHIVED_QUEUE, USER_ARCHIVED_QUEUE,
};
use tweetchive::twitchive_unofficial::{
    parse_tweet, timeline_page_tweets, tweet_markup, user_timeline_url, Config, TweetMarkup,
    TwitterApiError, TWEETDATE_STR,
};

#[test]
fn media_type_names() {
    assert_eq!(MediaType::Picture.to_string(), "Picture");
    assert_eq!(MediaType::Gif.to_string(), "Gif");
    assert_eq!(MediaType::Video.to_string(), "Video");
}

#[test]
fn queue_names() {
    assert_eq!(REGISTRATION_QUEUE, "register_me");
    assert_eq!(REQUEST_QUEUE, "request");
    assert_eq!(USER_ARCHIVED_QUEUE, "user_archived");
    assert_eq!(TWEETS_ARCHIVED_QUEUE, "tweets_archived");
    assert_eq!(MEDIA_ARCHIVED_QUEUE, "media_archived");
}

#[test]
fn twitter_error_messages() {
    assert_eq!(TwitterApiError::RateLimit.to_string(), "Hit the Twitter Ratelimit");
    assert_eq!(TwitterApiError::Unauthorized.to_string(), "Unauthorized");
    assert_eq!(TwitterApiError::UnknownError.to_string(), "idk");
    assert_eq!(TwitterApiError::Proxy.to_string(), "ProxyErr");
    assert_eq!(TwitterApiError::HttpError(503).to_string(), "HTTP Error 503");
    assert_eq!(
        TwitterApiError::Scrape(String::from("no timeline")).to_string(),
        "Error while scraping: no timeline"
    );
}

#[test]
fn twitter_error_from_status() {
    assert!(matches!(TwitterApiError::from_status(Some(429)), TwitterApiError::HttpError(429)));
    assert!(matches!(TwitterApiError::from_status(None), TwitterApiError::UnknownError));
}

#[test]
fn twitter_error_from_request_failure_without_status() {
    let err = reqwest::Client::new().get("not a url").build().unwrap_err();
    assert!(err.status().is_none());
    assert!(matches!(TwitterApiError::from(err), TwitterApiError::UnknownError));
}

#[test]
fn twitter_error_from_failed_status() {
    let answer = http::Response::builder().status(503).body("").unwrap();
    let err = reqwest::Response::from(answer).error_for_status().unwrap_err();
    assert!(matches!(TwitterApiError::from(err), TwitterApiError::HttpError(503)));
    let answer = http::Response::builder().status(404).body("").unwrap();
    let err = reqwest::Response::from(answer).error_for_status().unwrap_err();
    assert_eq!(TwitterApiError::from(err).to_string(), "HTTP Error 404");
}

#[test]
fn timeline_addresses() {
    let config = Config { nitter_address: String::from("https://nitter.net") };
    assert_eq!(
        user_timeline_url(&config, "jack", None),
        "https://nitter.net/jack/with_replies"
    );
    assert_eq!(
        user_timeline_url(&config, "jack", Some("DAABCgAB")),
        "https://nitter.net/jack/with_replies/?cursor=DAABCgAB"
    );
}

#[test]
fn tweet_date_format() {
    assert_eq!(TWEETDATE_STR, "%b %e, %Y · %R%p UTC");
}

#[test]
fn parse_tweet_reads_fields() {
    let markup = TweetMarkup {
        link: Some(String::from("/jack/status/20#m")),
        pinned: true,
        content: Some(String::from("just setting up my twttr")),
        stat_text: Some(String::from("42")),
        date_title: Some(String::from("Jan 15, 2023 · 15:04PM UTC")),
    };
    let p = parse_tweet(markup);
    assert_eq!(p.link.as_deref(), Some("/jack/status/20#m"));
    assert!(p.pinned);
    assert_eq!(p.content.as_deref(), Some("just setting up my twttr"));
    assert_eq!(p.replies, 42);
    assert_eq!(p.retweets, 42);
    assert_eq!(p.quotes, 42);
    assert_eq!(p.likes, 42);
    assert_eq!(p.date, Some(Timestamp { secs: 1673795040, nanos: 0 }));
}

#[test]
fn parse_tweet_defaults() {
    let markup = TweetMarkup {
        link: None,
        pinned: false,
        content: None,
        stat_text: Some(String::from("1,234")),
        date_title: Some(String::from("yesterday")),
    };
    let p = parse_tweet(markup);
    assert!(p.link.is_none());
    assert!(!p.pinned);
    assert_eq!(p.replies, 0);
    assert_eq!(p.likes, 0);
    assert_eq!(p.date, None);
    let empty = TweetMarkup {
        link: None,
        pinned: false,
        content: None,
        stat_text: None,
        date_title: None,
    };
    let q = parse_tweet(empty);
    assert_eq!(q.quotes, 0);
    assert_eq!(q.date, None);
}

const PAGE: &str = "<html><body><div>\
<timeline-item><tweet-link href=\"/jack/status/20#m\"></tweet-link><pinned></pinned>\
<tweet-content><media-body>just <b>setting</b> up</media-body></tweet-content>\
<tweet-stats>42</tweet-stats>\
<tweet-date><a title=\"Jan 15, 2023 · 15:04PM UTC\">Jan 15</a></tweet-date></timeline-item>\
<timeline-item><p>plain</p></timeline-item>\
</div></body></html>";

#[test]
fn tweet_markup_reads_an_element() {
    let item = "<timeline-item><tweet-link href=\"/a/status/1\"></tweet-link>\
<tweet-stats>7</tweet-stats></timeline-item>";
    let m = tweet_markup(item);
    assert_eq!(m.link.as_deref(), Some("/a/status/1"));
    assert!(!m.pinned);
    assert!(m.content.is_none());
    assert_eq!(m.stat_text.as_deref(), Some("7"));
    assert!(m.date_title.is_none());
}

#[test]
fn timeline_page_gives_one_tweet_per_item() {
    let tweets = timeline_page_tweets(PAGE);
    assert_eq!(tweets.len(), 2);
    let first = &tweets[0];
    assert_eq!(first.link.as_deref(), Some("/jack/status/20#m"));
    assert!(first.pinned);
    assert_eq!(first.content.as_deref(), Some("just <b>setting</b> up"));
    assert_eq!(first.replies, 42);
    assert_eq!(first.likes, 42);
    assert_eq!(first.date, Some(Timestamp { secs: 1673795040, nanos: 0 }));
    let second = &tweets[1];
    assert!(second.link.is_none());
    assert!(!second.pinned);
    assert!(second.content.is_none());
    assert_eq!(second.replies, 0);
    assert_eq!(second.date, None);
    assert!(timeline_page_tweets("<html><body>nothing</body></html>").is_empty());
}

#[test]
fn content_keeps_attribute_order() {
    let page = "<html><body><timeline-item><tweet-content><media-body>\
<a href=\"/u\" title=\"t\" rel=\"r\" class=\"c\">x</a></media-body></tweet-content>\
</timeline-item></body></html>";
    for _ in 0..5 {
        let tweets = timeline_page_tweets(page);
        assert_eq!(
            tweets[0].content.as_deref(),
            Some("<a href=\"/u\" title=\"t\" rel=\"r\" class=\"c\">x</a>")
        );
    }
}
