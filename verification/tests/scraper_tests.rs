use tweetchive::tweetchive_core::rabbitmq::{ArchivalRequest, ArchivalType, MediaType, Timestamp};
use tweetchive::tweetchive_scraper::browser::{
    Login, LoginAction, LoginEvent, LoginStage, LOGIN_PAUSE_MILLIS, LOGIN_SELECT, NEXT_SELECT,
    PASSWORD_SELECT, TWITTER_HOME, TWITTER_LOGIN, USERNAME_SELECT,
};
use tweetchive::tweetchive_scraper::config::{Account, Proxy};
use tweetchive::tweetchive_scraper::crawl::{quote_search_query, CrawledTweet, CrawledUser, MediaRef, Thread};
use tweetchive::tweetchive_scraper::health::{status, UNAUTHORIZED};
use tweetchive::tweetchive_scraper::listen::{listen_action, Delivery, ListenAction};
use tweetchive::tweetchive_scraper::media::{
    image_content_type, upload_outcome, upload_path, video_download_outcome, video_file_name,
    video_file_stem, video_output_template,
};
use tweetchive::tweetchive_scraper::media_archive::{
    classify_media, media_type_of, MediaAction, MediaArchive, MediaEvent, MediaKind, MediaStage,
};
use tweetchive::tweetchive_scraper::pools::choose_account;
use tweetchive::tweetchive_scraper::thread_crawl::{CrawlAction, CrawlEvent, ThreadArchive, ThreadStage};
use tweetchive::tweetchive_scraper::user_crawl::{Profile, UserAction, UserArchive, UserEvent, UserStage};

fn account(proxy: Option<&str>) -> Account {
    Account {
        username: String::from("alice"),
        password: String::from("hunter2"),
        assigned_proxy: proxy.map(|ip| Proxy {
            ip: String::from(ip),
            username: String::from("p"),
            password: String::from("q"),
        }),
    }
}

fn media(key: &str, kind: &str, url: &str) -> MediaRef {
    MediaRef { key: String::from(key), kind: String::from(kind), url: String::from(url) }
}

fn tweet(id: u64, quoting: Option<u64>, payload: &'static str) -> CrawledTweet<&'static str> {
    CrawledTweet { id, quoting, media: Vec::new(), payload }
}

fn user(id: u64, payload: &'static str) -> CrawledUser<&'static str> {
    CrawledUser { id, payload }
}

fn thread(
    tweets: Vec<CrawledTweet<&'static str>>,
    users: Vec<CrawledUser<&'static str>>,
) -> Thread<&'static str, &'static str> {
    Thread { tweets, users }
}

fn expect_str(a: LoginAction, want: &str) -> String {
    match a {
        LoginAction::Goto(s)
        | LoginAction::WaitForUrl(s)
        | LoginAction::Find(s)
        | LoginAction::FindAll(s)
        | LoginAction::TypeIntoFound(s)
        | LoginAction::WaitForElement(s) => {
            assert_eq!(s, want);
            s
        }
        _ => panic!("unexpected login action"),
    }
}

#[test]
fn login_walks_through_the_form() {
    let (mut login, first) = Login::new(&account(None));
    assert!(matches!(first, LoginAction::Connect(None)));
    assert_eq!(login.stage, LoginStage::Connect);
    assert!(matches!(login.step(LoginEvent::Done), LoginAction::DeleteCookies));
    expect_str(login.step(LoginEvent::Done), TWITTER_LOGIN);
    expect_str(login.step(LoginEvent::Done), TWITTER_LOGIN);
    expect_str(login.step(LoginEvent::Done), USERNAME_SELECT);
    assert!(matches!(login.step(LoginEvent::Done), LoginAction::ClickFound));
    expect_str(login.step(LoginEvent::Done), "alice");
    expect_str(login.step(LoginEvent::Done), NEXT_SELECT);
    assert!(matches!(login.step(LoginEvent::FoundMany(3)), LoginAction::ClickFoundAt(2)));
    expect_str(login.step(LoginEvent::Done), PASSWORD_SELECT);
    assert!(matches!(login.step(LoginEvent::Done), LoginAction::ClickFound));
    expect_str(login.step(LoginEvent::Done), "hunter2");
    assert!(matches!(login.step(LoginEvent::Done), LoginAction::Sleep(LOGIN_PAUSE_MILLIS)));
    expect_str(login.step(LoginEvent::Done), LOGIN_SELECT);
    assert!(matches!(login.step(LoginEvent::Done), LoginAction::ClickFound));
    expect_str(login.step(LoginEvent::Done), TWITTER_HOME);
    assert!(matches!(login.step(LoginEvent::Done), LoginAction::GetCookies));
    let cookies = vec![(String::from("auth_token"), String::from("abc"))];
    assert!(matches!(login.step(LoginEvent::Cookies(cookies.clone())), LoginAction::DeleteCookies));
    assert!(matches!(login.step(LoginEvent::Done), LoginAction::Finish));
    assert_eq!(login.stage, LoginStage::Finished);
    assert!(matches!(login.step(LoginEvent::Done), LoginAction::Finish));
    assert_eq!(login.into_cookies(), cookies);
}

#[test]
fn login_through_a_proxy() {
    let (mut login, first) = Login::new(&account(Some("10.0.0.1")));
    match first {
        LoginAction::LookUpProxy(ip) => assert_eq!(ip, "10.0.0.1"),
        _ => panic!("expected a proxy lookup"),
    }
    match login.step(LoginEvent::ProxyFound(Some(String::from("PROXY 10.0.0.1:8080")))) {
        LoginAction::Connect(Some(pac)) => assert_eq!(pac, "PROXY 10.0.0.1:8080"),
        _ => panic!("expected a connection through the proxy"),
    }
    assert_eq!(login.stage, LoginStage::Connect);
}

#[test]
fn login_fails_without_proxy_answer() {
    let (mut login, _) = Login::new(&account(Some("10.0.0.1")));
    match login.step(LoginEvent::ProxyFound(None)) {
        LoginAction::Abort(Some(m)) => assert_eq!(m, "no proxy"),
        _ => panic!("expected an abort"),
    }
    assert_eq!(login.stage, LoginStage::Failed);
    assert!(matches!(login.step(LoginEvent::Done), LoginAction::Abort(None)));
}

#[test]
fn login_fails_without_next_button() {
    let (mut login, _) = Login::new(&account(None));
    for _ in 0..7 {
        login.step(LoginEvent::Done);
    }
    assert_eq!(login.stage, LoginStage::FindNext);
    match login.step(LoginEvent::FoundMany(0)) {
        LoginAction::Abort(Some(m)) => assert_eq!(m, "no next button"),
        _ => panic!("expected an abort"),
    }
    assert_eq!(login.stage, LoginStage::Failed);
}

#[test]
fn login_fails_on_an_unexpected_event() {
    let (mut login, _) = Login::new(&account(None));
    assert!(matches!(login.step(LoginEvent::Cookies(Vec::new())), LoginAction::Abort(None)));
    assert_eq!(login.stage, LoginStage::Failed);
}

#[test]
fn health_check_needs_the_secret() {
    assert_eq!(status(Some("s3cret"), "s3cret"), Ok(()));
    assert_eq!(status(Some("guess"), "s3cret"), Err(UNAUTHORIZED));
    assert_eq!(status(None, "s3cret"), Err(401));
    assert_eq!(status(Some(""), ""), Ok(()));
}

#[test]
fn listen_decides_per_delivery() {
    let user_req = ArchivalRequest {
        archival_id: 9,
        arc_type: ArchivalType::User { user: String::from("783214") },
    };
    assert_eq!(
        listen_action(Delivery::Request(user_req)),
        ListenAction::ArchiveUser { archival_id: 9, user: 783214 }
    );
    let thread_req = ArchivalRequest { archival_id: 3, arc_type: ArchivalType::TweetThread { tweet_id: 20 } };
    assert_eq!(
        listen_action(Delivery::Request(thread_req)),
        ListenAction::ArchiveTweetThread { archival_id: 3, tweet_id: 20 }
    );
    let handle_req = ArchivalRequest {
        archival_id: 4,
        arc_type: ArchivalType::User { user: String::from("jack") },
    };
    assert_eq!(listen_action(Delivery::Request(handle_req)), ListenAction::Skip);
    assert_eq!(listen_action(Delivery::Missing), ListenAction::Skip);
    assert_eq!(listen_action(Delivery::Broken), ListenAction::Skip);
    assert_eq!(listen_action(Delivery::Undecodable), ListenAction::Skip);
}

#[test]
fn choosing_an_account() {
    let mut rng = nanorand::WyRand::new_seed(7);
    let accounts = vec![account(None), account(None), account(Some("1.2.3.4"))];
    for _ in 0..20 {
        let i = choose_account(&accounts, &mut rng).unwrap();
        assert!(i < 3);
    }
    assert_eq!(choose_account(&Vec::new(), &mut rng), Err(String::from("There must be more than 1 account")));
}

#[test]
fn video_file_names_use_seahash() {
    let url = "https://video.twimg.com/ext_tw_video/1/pu/vid/720x1280/a.mp4";
    let stem = seahash::hash(url.as_bytes()).to_string();
    assert_eq!(video_file_stem(url), stem);
    assert_eq!(video_output_template(url), format!("-o {stem}.%(ext)s"));
    assert_eq!(video_file_name(url), format!("{stem}.mkv"));
    assert_ne!(video_file_stem(url), video_file_stem("https://example.com/b.mp4"));
}

#[test]
fn download_and_upload_outcomes() {
    assert_eq!(video_download_outcome(true), Ok(String::from("video/x-matroska")));
    assert_eq!(video_download_outcome(false), Err(String::from("Playlist Not Supported.")));
    assert_eq!(image_content_type(Some(String::from("image/png"))), "image/png");
    assert_eq!(image_content_type(None), "image/jpeg");
    assert_eq!(upload_path("3_1234"), "/3_1234");
    assert_eq!(upload_outcome("3_1234", 200), Ok(()));
    assert_eq!(upload_outcome("3_1234", 403), Err(String::from("Uploading file 3_1234: 403")));
}

#[test]
fn media_classification() {
    assert_eq!(classify_media("video"), MediaKind::Animated);
    assert_eq!(classify_media("animated_gif"), MediaKind::Animated);
    assert_eq!(classify_media("picture"), MediaKind::Still);
    assert_eq!(classify_media("image/png"), MediaKind::Still);
    assert_eq!(classify_media("audio"), MediaKind::Unknown);
    assert_eq!(media_type_of("video"), MediaType::Video);
    assert_eq!(media_type_of("animated_gif"), MediaType::Gif);
    assert_eq!(media_type_of("image"), MediaType::Gif);
}

#[test]
fn media_archive_stores_each_attachment_once() {
    let when = Timestamp { secs: 1_700_000_000, nanos: 5 };
    let queue = vec![
        media("a", "Video", "u1"),
        media("b", "Image", "u2"),
        media("c", "Sticker", "u3"),
        media("a", "video", "u4"),
    ];
    let (mut archive, first) = MediaArchive::new(77, queue);
    match first {
        MediaAction::DownloadVideo { url } => assert_eq!(url, "u1"),
        _ => panic!("expected a video download"),
    }
    match archive.step(MediaEvent::Downloaded(Some(String::from("video/x-matroska")))) {
        MediaAction::Upload { key, content_type } => {
            assert_eq!(key, "a");
            assert_eq!(content_type, "video/x-matroska");
        }
        _ => panic!("expected an upload"),
    }
    match archive.step(MediaEvent::Uploaded { stored: true, retrieved: when }) {
        MediaAction::DownloadImage { url } => assert_eq!(url, "u2"),
        _ => panic!("expected an image download"),
    }
    match archive.step(MediaEvent::Uploaded { stored: true, retrieved: when }) {
        MediaAction::DownloadImage { url } => assert_eq!(url, "u2"),
        _ => panic!("expected the open download again"),
    }
    assert!(matches!(archive.step(MediaEvent::Downloaded(None)), MediaAction::Finish));
    assert_eq!(archive.stage, MediaStage::Finished);
    let records = archive.into_records();
    assert_eq!(records.len(), 1);
    assert_eq!(records[0].archival_id, 77);
    assert_eq!(records[0].media_id, "a");
    assert_eq!(records[0].media_type, MediaType::Video);
    assert_eq!(records[0].content_type, "video/x-matroska");
    assert_eq!(records[0].retrieved, when);
}

#[test]
fn media_archive_retries_an_attachment_that_was_not_stored() {
    let when = Timestamp { secs: 1, nanos: 0 };
    let queue = vec![media("k", "PICTURE", "u1"), media("k", "picture", "u2")];
    let (mut archive, first) = MediaArchive::new(1, queue);
    assert!(matches!(first, MediaAction::DownloadImage { .. }));
    archive.step(MediaEvent::Downloaded(Some(String::from("image/jpeg"))));
    match archive.step(MediaEvent::Uploaded { stored: false, retrieved: when }) {
        MediaAction::DownloadImage { url } => assert_eq!(url, "u2"),
        _ => panic!("expected the second copy to be fetched"),
    }
    archive.step(MediaEvent::Downloaded(Some(String::from("image/jpeg"))));
    assert!(matches!(archive.step(MediaEvent::Uploaded { stored: true, retrieved: when }), MediaAction::Finish));
    let records = archive.into_records();
    assert_eq!(records.len(), 1);
    assert_eq!(records[0].media_type, MediaType::Gif);
    assert_eq!(records[0].content_type, "image/jpeg");
}

#[test]
fn media_archive_of_nothing_finishes() {
    let (archive, first) = MediaArchive::new(1, Vec::new());
    assert!(matches!(first, MediaAction::Finish));
    assert!(archive.into_records().is_empty());
}

#[test]
fn quote_search_text() {
    assert_eq!(quote_search_query(1234), "quoted_tweet_id:1234");
}

#[test]
fn thread_crawl_collects_quotes() {
    let (mut crawl, first) = ThreadArchive::<&'static str, &'static str>::new(10);
    assert!(matches!(first, CrawlAction::FetchThread(10)));
    let mut t10 = tweet(10, None, "p10");
    t10.media.push(media("m10", "photo", "x"));
    let root = thread(vec![t10, tweet(11, Some(5), "p11")], vec![user(1, "u1")]);
    assert!(matches!(crawl.step(CrawlEvent::Fetched(Some(root))), CrawlAction::SearchQuotes(10)));
    match crawl.step(CrawlEvent::Searched(Some(vec![20]))) {
        CrawlAction::FetchThreads(ids) => assert_eq!(ids, vec![20]),
        _ => panic!("expected the quoting threads to be fetched"),
    }
    let quoting = thread(vec![tweet(20, Some(10), "p20")], vec![user(2, "u2")]);
    assert!(matches!(crawl.step(CrawlEvent::FetchedAll(vec![Some(quoting), None])), CrawlAction::FetchThread(5)));
    let quoted = thread(vec![tweet(5, None, "p5")], vec![user(3, "u3")]);
    assert!(matches!(crawl.step(CrawlEvent::Fetched(Some(quoted))), CrawlAction::SearchQuotes(11)));
    assert!(matches!(crawl.step(CrawlEvent::Searched(None)), CrawlAction::Finish));
    assert_eq!(crawl.stage, ThreadStage::Finished);
    let (tweets, found_media, users) = crawl.harvest();
    assert_eq!(tweets, vec!["p20", "p10", "p5"]);
    assert_eq!(found_media.len(), 1);
    assert_eq!(found_media[0].key, "m10");
    assert_eq!(users, vec!["u2", "u3", "u1"]);
}

#[test]
fn thread_crawl_keeps_the_last_copy_of_a_tweet() {
    let (mut crawl, _) = ThreadArchive::<&'static str, &'static str>::new(1);
    let root = thread(vec![tweet(1, None, "first")], vec![user(9, "old"), user(9, "new")]);
    crawl.step(CrawlEvent::Fetched(Some(root)));
    crawl.step(CrawlEvent::Searched(Some(vec![2])));
    let again = thread(vec![tweet(1, None, "copy")], Vec::new());
    assert!(matches!(crawl.step(CrawlEvent::FetchedAll(vec![Some(again)])), CrawlAction::Finish));
    let (tweets, _, users) = crawl.harvest();
    assert_eq!(tweets, vec!["first"]);
    assert_eq!(users, vec!["new"]);
}

#[test]
fn thread_crawl_fails_when_the_thread_is_missing() {
    let (mut crawl, _) = ThreadArchive::<&'static str, &'static str>::new(1);
    assert!(matches!(crawl.step(CrawlEvent::Fetched(None)), CrawlAction::Abort));
    assert_eq!(crawl.stage, ThreadStage::Failed);
    assert!(matches!(crawl.step(CrawlEvent::Searched(None)), CrawlAction::Abort));
}

#[test]
fn user_crawl_walks_profile_follows_and_timeline() {
    let (mut crawl, first) = UserArchive::<&'static str, &'static str>::new(1);
    assert!(matches!(first, UserAction::FetchProfile(1)));
    let profile = Profile { pinned: Some(50), handle: String::from("jack"), payload: "jack" };
    assert!(matches!(crawl.step(UserEvent::ProfileFetched(Some(profile))), UserAction::FetchFollows(1)));
    match crawl.step(UserEvent::FollowsFetched(Some((vec!["f1"], vec!["g1", "g2"])))) {
        UserAction::FetchTimeline(h) => assert_eq!(h, "jack"),
        _ => panic!("expected the timeline to be fetched"),
    }
    let timeline = thread(vec![tweet(100, None, "p100")], vec![user(1, "jack-seen")]);
    assert!(matches!(crawl.step(UserEvent::TimelineFetched(Some(timeline))), UserAction::FetchThread(50)));
    let pinned = thread(vec![tweet(50, None, "p50")], vec![user(5, "u5")]);
    assert!(matches!(crawl.step(UserEvent::Fetched(Some(pinned))), UserAction::FetchThread(100)));
    let conversation = thread(vec![tweet(100, None, "p100"), tweet(101, Some(7), "p101")], Vec::new());
    assert!(matches!(crawl.step(UserEvent::Fetched(Some(conversation))), UserAction::SearchQuotes(100)));
    match crawl.step(UserEvent::Searched(Some(Vec::new()))) {
        UserAction::FetchThreads(ids) => assert!(ids.is_empty()),
        _ => panic!("expected the quoting threads to be fetched"),
    }
    assert!(matches!(crawl.step(UserEvent::FetchedAll(Vec::new())), UserAction::SearchQuotes(101)));
    assert!(matches!(crawl.step(UserEvent::Searched(Some(vec![300]))), UserAction::FetchThreads(_)));
    let quoting = thread(vec![tweet(300, Some(101), "p300")], vec![user(3, "u3")]);
    assert!(matches!(crawl.step(UserEvent::FetchedAll(vec![Some(quoting)])), UserAction::FetchThread(7)));
    let quoted = thread(vec![tweet(7, None, "p7")], Vec::new());
    assert!(matches!(crawl.step(UserEvent::Fetched(Some(quoted))), UserAction::FetchThread(50)));
    assert!(matches!(crawl.step(UserEvent::Fetched(None)), UserAction::Finish));
    assert_eq!(crawl.stage, UserStage::Finished);
    let (account, tweets, _, users, followers, following) = crawl.harvest();
    assert_eq!(account, "jack");
    assert_eq!(tweets, vec!["p100", "p300", "p7", "p101"]);
    assert_eq!(users, vec!["u5", "u3", "jack-seen"]);
    assert_eq!(followers, vec!["f1"]);
    assert_eq!(following, vec!["g1", "g2"]);
}

#[test]
fn user_crawl_fails_without_profile() {
    let (mut crawl, _) = UserArchive::<&'static str, &'static str>::new(1);
    assert!(matches!(crawl.step(UserEvent::ProfileFetched(None)), UserAction::Abort));
    assert_eq!(crawl.stage, UserStage::Failed);
}
