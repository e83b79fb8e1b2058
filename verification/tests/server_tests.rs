use argon2::{Argon2, PasswordHasher};
use tweetchive::tweetchive_core::rabbitmq::Timestamp;
use tweetchive::tweetchive_server::api::{
    account_search_item, handle_search_items, path_tweet_id, read_tweet_reference, resolve_snapshot_tag,
    search_plan, timeline_api_req_url, timeline_of_user, tweet_api_req_url, tweet_search_item,
    user_api_req_url, HandleRecord, SearchPlan, SnapshotChoice, SnapshotTag, BAD_REQUEST,
};
use tweetchive::tweetchive_server::auth::{
    check_token, format_token, issue_token, parse_token, register_decision, token_login,
    AuthenticatedUser, GithubUser, Registration, TokenCheck, TokenLogin, TokenRecord,
};
use tweetchive::tweetchive_server::queries::{
    first_document_id, thread_query, timeline_query, tweet_query, ViewQuery, TIMELINE_PAGE_SIZE,
};
use tweetchive::tweetchive_server::search_page::{classify_search, SearchInput};
use tweetchive::tweetchive_server::snapshot::{snapshot_response, SnapshotRecord, SnapshotStatus};
use tweetchive::tweetchive_server::views::{
    basic_info_by_handle, basic_info_by_id, latest_replies_of_tweet, latest_tweets_of_conversation,
    latest_tweets_of_user, user_by_handle, BASIC_INFO_BY_HANDLE_MAP, BASIC_INFO_BY_ID_MAP,
    LATEST_REPLIES_OF_TWEET_MAP, LATEST_TWEETS_OF_CONVERSATION_MAP, LATEST_TWEETS_OF_USER_MAP,
    USER_BY_HANDLE_MAP,
};

#[test]
fn api_request_urls() {
    assert_eq!(timeline_api_req_url(42), "api/timeline/42");
    assert_eq!(tweet_api_req_url(7), "api/status/7/latest");
    assert_eq!(user_api_req_url(9), "api/user/9/latest");
    assert_eq!(user_api_req_url(u64::MAX), "api/user/18446744073709551615/latest");
}

#[test]
fn api_request_urls_name_their_subject() {
    assert_ne!(user_api_req_url(1), user_api_req_url(11));
    assert_ne!(tweet_api_req_url(12), tweet_api_req_url(1));
    assert_ne!(timeline_api_req_url(0), timeline_api_req_url(10));
}

#[test]
fn timeline_view_of_a_user() {
    let v = timeline_of_user(5);
    assert_eq!(v.map, "function (doc) { if (doc.poster == 5) { emit(doc) } } ");
    assert!(v.reduce.is_none());
}

#[test]
fn design_document_views() {
    assert_eq!(latest_tweets_of_user().map, LATEST_TWEETS_OF_USER_MAP);
    assert_eq!(latest_tweets_of_conversation().map, LATEST_TWEETS_OF_CONVERSATION_MAP);
    assert_eq!(latest_replies_of_tweet().map, LATEST_REPLIES_OF_TWEET_MAP);
    assert_eq!(user_by_handle().map, USER_BY_HANDLE_MAP);
    assert_eq!(basic_info_by_id().map, BASIC_INFO_BY_ID_MAP);
    assert_eq!(basic_info_by_handle().map, BASIC_INFO_BY_HANDLE_MAP);
    assert!(latest_tweets_of_user().reduce.is_none());
    assert!(basic_info_by_handle().reduce.is_none());
    assert!(LATEST_TWEETS_OF_USER_MAP.contains("emit(doc.author"));
}

#[test]
fn tweet_references() {
    assert_eq!(
        read_tweet_reference("https://twitter.com/jack/status/20"),
        Some((20, String::from("20")))
    );
    assert_eq!(
        read_tweet_reference("https://twitter.com/jack/status/20/photo/1"),
        Some((20, String::from("20")))
    );
    assert_eq!(read_tweet_reference("https://twitter.com/jack"), None);
    assert_eq!(read_tweet_reference("https://twitter.com/jack/status/abc"), None);
    assert_eq!(read_tweet_reference("not a url"), None);
}

#[test]
fn tweet_references_in_paths() {
    assert_eq!(path_tweet_id("/jack/status/20"), Some((20, String::from("20"))));
    assert_eq!(path_tweet_id("/jack/status/+20/"), Some((20, String::from("+20"))));
    assert_eq!(path_tweet_id("/jack"), None);
    assert_eq!(path_tweet_id("jack/status/20"), None);
    assert_eq!(path_tweet_id(""), None);
}

#[test]
fn search_plans() {
    assert!(matches!(
        search_plan(Some(String::from("jac")), Some(String::from("5")), None),
        SearchPlan::ByHandle(h) if h == "jac"
    ));
    assert!(matches!(search_plan(None, Some(String::from("12")), None), SearchPlan::ByUserId(12)));
    assert!(matches!(search_plan(None, Some(String::from("twelve")), None), SearchPlan::BadRequest));
    assert!(matches!(
        search_plan(None, None, Some(String::from("https://twitter.com/a/status/99"))),
        SearchPlan::ByTweet { tweet_id: 99, document } if document == "99"
    ));
    assert!(matches!(
        search_plan(None, None, Some(String::from("https://twitter.com/a"))),
        SearchPlan::BadRequest
    ));
    assert!(matches!(search_plan(None, None, None), SearchPlan::BadRequest));
}

#[test]
fn search_items() {
    let snapshot: u128 = 0x123e4567_e89b_12d3_a456_426614174000;
    let item = account_search_item(9, String::from("jack"), snapshot);
    assert_eq!(item.item_id, 9);
    assert_eq!(
        item.additional_info,
        vec![
            (String::from("handle"), String::from("jack")),
            (String::from("snapshot"), String::from("123e4567-e89b-12d3-a456-426614174000")),
        ]
    );
    assert_eq!(item.pointer, "api/user/9/latest");
    let t = tweet_search_item(20, 10);
    assert_eq!(t.item_id, 20);
    assert_eq!(t.additional_info, vec![(String::from("conversation"), String::from("10"))]);
    assert_eq!(t.pointer, "api/status/20/latest");
}

#[test]
fn handle_search_keeps_record_order() {
    let records = vec![
        HandleRecord { user_id: 2, handle: String::from("b"), snapshot: 1 },
        HandleRecord { user_id: 1, handle: String::from("a"), snapshot: 2 },
    ];
    let items = handle_search_items(records);
    assert_eq!(items.len(), 2);
    assert_eq!(items[0].item_id, 2);
    assert_eq!(items[0].additional_info[0].1, "b");
    assert_eq!(items[0].additional_info[1].1, "00000000-0000-0000-0000-000000000001");
    assert_eq!(items[1].item_id, 1);
    assert_eq!(items[1].pointer, "api/user/1/latest");
    assert!(handle_search_items(Vec::new()).is_empty());
}

#[test]
fn snapshot_tags() {
    assert_eq!(resolve_snapshot_tag(SnapshotTag::Uuid(5)), Ok(SnapshotChoice::Exact(5)));
    assert_eq!(
        resolve_snapshot_tag(SnapshotTag::Text(String::from("latest"))),
        Ok(SnapshotChoice::Latest)
    );
    assert_eq!(resolve_snapshot_tag(SnapshotTag::Text(String::from("Latest"))), Err(BAD_REQUEST));
    assert_eq!(resolve_snapshot_tag(SnapshotTag::Text(String::new())), Err(400));
}

#[test]
fn tokens_are_id_dot_base64() {
    assert_eq!(format_token(5, b"abc"), "5.YWJj");
    assert_eq!(format_token(-3, b""), "-3.");
    assert_eq!(format_token(12, &[0xfb, 0xff]), "12.+/8=");
}

#[test]
fn token_round_trip() {
    let secret: Vec<u8> = (0u8..=40).collect();
    for user in [0i64, 7, -1, i64::MAX, i64::MIN] {
        let t = format_token(user, &secret);
        assert_eq!(parse_token(&t), Some((user, secret.clone())));
    }
}

#[test]
fn malformed_tokens() {
    assert_eq!(parse_token("5.YWJj"), Some((5, b"abc".to_vec())));
    assert_eq!(parse_token("5.YWJj.more"), Some((5, b"abc".to_vec())));
    assert_eq!(parse_token("x.YWJj"), None);
    assert_eq!(parse_token("5"), None);
    assert_eq!(parse_token("5.!!"), None);
    assert_eq!(parse_token(""), None);
}

#[test]
fn checking_tokens() {
    let phc = Argon2::default()
        .hash_password(b"secret", "c29tZXNhbHRzb21lc2FsdA")
        .unwrap()
        .to_string();
    let record = TokenRecord { phc, user: 4 };
    assert_eq!(check_token(4, b"secret", &record), TokenCheck::Verified(4));
    assert_eq!(check_token(4, b"guess", &record), TokenCheck::Rejected);
    assert_eq!(check_token(5, b"secret", &record), TokenCheck::WrongUser);
    let broken = TokenRecord { phc: String::from("not a hash"), user: 4 };
    assert_eq!(check_token(4, b"secret", &broken), TokenCheck::Rejected);
}

#[test]
fn issued_tokens_log_their_user_in() {
    let secret: Vec<u8> = (1u8..=64).collect();
    let issued = issue_token(42, &secret, "c29tZXNhbHRzb21lc2FsdA").unwrap();
    assert!(issued.phc.starts_with("$argon2id$"));
    let (user, presented) = parse_token(&issued.token).unwrap();
    assert_eq!(user, 42);
    assert_eq!(presented, secret);
    let record = TokenRecord { phc: issued.phc, user: 42 };
    assert_eq!(check_token(user, &presented, &record), TokenCheck::Verified(42));
    assert_eq!(check_token(user, b"forged", &record), TokenCheck::Rejected);
    assert!(issue_token(42, &secret, "!").is_none());
}

#[test]
fn logging_in_with_a_token() {
    let salt = "c29tZXNhbHRzb21lc2FsdA";
    let right = issue_token(4, b"secret", salt).unwrap().phc;
    let wrong = issue_token(4, b"other", salt).unwrap().phc;
    let record = |phc: &str, user: i64| TokenRecord { phc: String::from(phc), user };
    let all = vec![record(&right, 9), record(&wrong, 4), record(&right, 4)];
    assert_eq!(token_login(4, b"secret", &all), TokenLogin::LoggedIn(4));
    assert_eq!(token_login(4, b"secret", &vec![record(&wrong, 4)]), TokenLogin::Refused);
    assert_eq!(token_login(4, b"secret", &vec![record(&right, 9)]), TokenLogin::Unknown);
    assert_eq!(token_login(4, b"secret", &Vec::new()), TokenLogin::Unknown);
}

fn github(login: &str, avatar: &str, email: &str) -> GithubUser {
    GithubUser {
        login: String::from(login),
        id: 77,
        node_id: String::from("MDQ6VXNlcjc3"),
        avatar_url: String::from(avatar),
        email: String::from(email),
    }
}

#[test]
fn registering_new_users() {
    let admins = vec![String::from("root")];
    match register_decision(github("root", "a.png", "r@x"), None, &admins) {
        Registration::Insert(u) => {
            assert_eq!(u.id, 77);
            assert_eq!(u.github_name, "root");
            assert_eq!(u.email, "r@x");
            assert_eq!(u.profile_picture, "a.png");
            assert!(u.is_admin);
        }
        _ => panic!("expected an insert"),
    }
    match register_decision(github("guest", "g.png", "g@x"), None, &admins) {
        Registration::Insert(u) => assert!(!u.is_admin),
        _ => panic!("expected an insert"),
    }
}

#[test]
fn registering_known_users() {
    let stored = AuthenticatedUser {
        id: 77,
        github_name: String::from("old-name"),
        email: String::from("r@x"),
        is_admin: true,
        profile_picture: String::from("a.png"),
    };
    match register_decision(github("root", "a.png", "r@x"), Some(stored.clone()), &Vec::new()) {
        Registration::Keep(u) => {
            assert_eq!(u.github_name, "old-name");
            assert!(u.is_admin);
        }
        _ => panic!("expected the user to be kept"),
    }
    match register_decision(github("root", "b.png", "r@x"), Some(stored), &Vec::new()) {
        Registration::Update(u) => {
            assert_eq!(u.id, 77);
            assert_eq!(u.github_name, "old-name");
            assert_eq!(u.profile_picture, "b.png");
            assert_eq!(u.email, "r@x");
            assert!(u.is_admin);
        }
        _ => panic!("expected an update"),
    }
}

#[test]
fn snapshot_answers() {
    let start = Timestamp { secs: 100, nanos: 0 };
    let end = Timestamp { secs: 200, nanos: 1 };
    let record = SnapshotRecord {
        start,
        finish: Some(end),
        init_args: String::from("user=jack"),
        started_by: String::from("root"),
        priority: 3,
    };
    let r = snapshot_response(11, record);
    assert_eq!(r.snapshot, 11);
    assert_eq!(r.init, start);
    assert_eq!(r.args, "user=jack");
    assert_eq!(r.status, SnapshotStatus::Ended(end));
    assert_eq!(r.started_by, "root");
    assert_eq!(r.priority, 3);
    let ongoing = SnapshotRecord {
        start,
        finish: None,
        init_args: String::new(),
        started_by: String::new(),
        priority: -1,
    };
    assert_eq!(snapshot_response(12, ongoing).status, SnapshotStatus::Ongoing);
}

#[test]
fn view_queries() {
    assert_eq!(TIMELINE_PAGE_SIZE, 30);
    assert_eq!(timeline_query(7, None), ViewQuery { key: 7, skip: None, limit: Some(30) });
    assert_eq!(timeline_query(7, Some(2)), ViewQuery { key: 7, skip: Some(60), limit: Some(30) });
    assert_eq!(
        timeline_query(1, Some(u32::MAX)),
        ViewQuery { key: 1, skip: Some(30 * u32::MAX as u64), limit: Some(30) }
    );
    assert_eq!(thread_query(9), ViewQuery { key: 9, skip: None, limit: None });
    assert_eq!(tweet_query(20), ViewQuery { key: 20, skip: None, limit: None });
}

#[test]
fn first_document_of_a_lookup() {
    assert_eq!(first_document_id(Vec::new()), None);
    assert_eq!(first_document_id(vec![None, Some(String::from("b"))]), None);
    assert_eq!(
        first_document_id(vec![Some(String::from("a")), Some(String::from("b"))]),
        Some(String::from("a"))
    );
}

#[test]
fn search_box_input() {
    assert!(matches!(
        classify_search("https://twitter.com/jack/status/20"),
        SearchInput::Redirect(p) if p == "/jack/status/20"
    ));
    assert!(matches!(classify_search("12345"), SearchInput::Id(12345)));
    assert!(matches!(classify_search("hello"), SearchInput::Unknown));
}
