//! The crawl behind a user archival request.
//!
//! The account is fetched, then its followers and the accounts it follows,
//! then its timeline; a failure of any of these ends the crawl. The thread
//! of its pinned tweet, if any, is fetched next: its tweets join the end of
//! the timeline and its accounts are merged; a failure passes over it.
//! Then, for each tweet of the timeline, its thread is fetched (a failure
//! passes over it), and each tweet of that thread is taken in turn: the
//! tweets quoting it are searched (a failed search passes over the tweet);
//! the threads of the quoting tweets are fetched and merged, failed
//! fetches adding nothing; the thread of the tweet it quotes is fetched and
//! merged (a failure passes over the tweet); then the tweet is stored.
//! Last, the accounts that came with the timeline are merged.

use crate::id_map::IdMap;
use crate::tweetchive_scraper::crawl::{
    absorb_threads, absorb_tweets, absorb_users, add_threads, add_tweets, add_users, harvest_tweets,
    harvest_users, keyed_by_id, lemma_add_threads_keeps, lemma_add_threads_keyed, lemma_add_threads_stores,
    lemma_add_tweets_keeps, lemma_add_tweets_keyed, lemma_add_users_keeps, media_of,
    CrawledTweet, CrawledUser, MediaRef, Thread,
};
use vstd::prelude::*;

verus! {

/// Where a user crawl stands.
#[derive(Clone, Copy, Debug, PartialEq, Eq, Structural)]
pub enum UserStage {
    Profile,
    Follows,
    Timeline,
    Pinned,
    TimelineThread,
    QuoteSearch,
    QuoteThreads,
    QuotedThread,
    Finished,
    Failed,
}

/// What is read of the archived account itself.
pub struct Profile<U> {
    pub pinned: Option<u64>,
    pub handle: String,
    pub payload: U,
}

/// What the caller reports back for each request (`None` when it failed).
pub enum UserEvent<T, U> {
    ProfileFetched(Option<Profile<U>>),
    FollowsFetched(Option<(Vec<U>, Vec<U>)>),
    TimelineFetched(Option<Thread<T, U>>),
    Fetched(Option<Thread<T, U>>),
    Searched(Option<Vec<u64>>),
    FetchedAll(Vec<Option<Thread<T, U>>>),
}

/// What the caller is asked to do next.
pub enum UserAction {
    FetchProfile(u64),
    FetchFollows(u64),
    FetchTimeline(String),
    FetchThread(u64),
    SearchQuotes(u64),
    FetchThreads(Vec<u64>),
    Finish,
    Abort,
}

pub enum UserActionView {
    FetchProfile(u64),
    FetchFollows(u64),
    FetchTimeline(Seq<char>),
    FetchThread(u64),
    SearchQuotes(u64),
    FetchThreads(Seq<u64>),
    Finish,
    Abort,
}

impl UserAction {
    pub open spec fn view(&self) -> UserActionView {
        match self {
            UserAction::FetchProfile(id) => UserActionView::FetchProfile(*id),
            UserAction::FetchFollows(id) => UserActionView::FetchFollows(*id),
            UserAction::FetchTimeline(handle) => UserActionView::FetchTimeline(handle@),
            UserAction::FetchThread(id) => UserActionView::FetchThread(*id),
            UserAction::SearchQuotes(id) => UserActionView::SearchQuotes(*id),
            UserAction::FetchThreads(ids) => UserActionView::FetchThreads(ids@),
            UserAction::Finish => UserActionView::Finish,
            UserAction::Abort => UserActionView::Abort,
        }
    }
}

/// A user crawl between two steps.
pub struct UserArchive<T, U> {
    pub user_id: u64,
    pub stage: UserStage,
    pub profile: Option<U>,
    pub pinned: Option<u64>,
    pub handle: String,
    pub followers: Vec<U>,
    pub following: Vec<U>,
    pub timeline: Vec<CrawledTweet<T>>,
    pub timeline_users: Vec<CrawledUser<U>>,
    pub thread: Vec<CrawledTweet<T>>,
    pub current: Option<CrawledTweet<T>>,
    pub tweets: IdMap<CrawledTweet<T>>,
    pub users: IdMap<U>,
}

/// A user crawl as the specification sees it.
pub struct UserState<T, U> {
    pub user_id: u64,
    pub stage: UserStage,
    pub profile: Option<U>,
    pub pinned: Option<u64>,
    pub handle: Seq<char>,
    pub followers: Seq<U>,
    pub following: Seq<U>,
    pub timeline: Seq<CrawledTweet<T>>,
    pub timeline_users: Seq<CrawledUser<U>>,
    pub thread: Seq<CrawledTweet<T>>,
    pub current: Option<CrawledTweet<T>>,
    pub tweets: Map<u64, CrawledTweet<T>>,
    pub users: Map<u64, U>,
}

/// The crawl that has just been asked for the account `user_id`.
pub open spec fn user_start<T, U>(user_id: u64) -> UserState<T, U> {
    UserState {
        user_id,
        stage: UserStage::Profile,
        profile: None,
        pinned: None,
        handle: Seq::empty(),
        followers: Seq::empty(),
        following: Seq::empty(),
        timeline: Seq::empty(),
        timeline_users: Seq::empty(),
        thread: Seq::empty(),
        current: None,
        tweets: Map::empty(),
        users: Map::empty(),
    }
}

pub open spec fn user_failed<T, U>(s: UserState<T, U>) -> (UserState<T, U>, UserActionView) {
    (UserState { stage: UserStage::Failed, ..s }, UserActionView::Abort)
}

/// Takes up the next tweet of the timeline, or completes the crawl when
/// none is left.
pub open spec fn next_timeline_tweet<T, U>(s: UserState<T, U>) -> (UserState<T, U>, UserActionView) {
    if s.timeline.len() == 0 {
        (
            UserState {
                stage: UserStage::Finished,
                thread: Seq::empty(),
                current: None,
                timeline_users: Seq::empty(),
                users: add_users(s.users, s.timeline_users),
                ..s
            },
            UserActionView::Finish,
        )
    } else {
        let t = s.timeline[0];
        (
            UserState {
                stage: UserStage::TimelineThread,
                timeline: s.timeline.drop_first(),
                thread: Seq::empty(),
                current: None,
                ..s
            },
            UserActionView::FetchThread(t.id),
        )
    }
}

/// Takes up the next tweet of the thread at hand, or the next tweet of the
/// timeline when the thread is done.
pub open spec fn next_thread_tweet<T, U>(s: UserState<T, U>) -> (UserState<T, U>, UserActionView) {
    if s.thread.len() == 0 {
        next_timeline_tweet(s)
    } else {
        let t = s.thread[0];
        (
            UserState {
                stage: UserStage::QuoteSearch,
                thread: s.thread.drop_first(),
                current: Some(t),
                ..s
            },
            UserActionView::SearchQuotes(t.id),
        )
    }
}

/// Stores the tweet in hand and moves on.
pub open spec fn store_current<T, U>(s: UserState<T, U>) -> (UserState<T, U>, UserActionView) {
    let c = s.current.unwrap();
    next_thread_tweet(UserState { tweets: s.tweets.insert(c.id, c), current: None, ..s })
}

/// One step of a user crawl on a reported event. An event that does not
/// answer the open request ends the crawl as failed.
pub open spec fn user_step<T, U>(s: UserState<T, U>, e: UserEvent<T, U>) -> (
    UserState<T, U>,
    UserActionView,
) {
    match s.stage {
        UserStage::Profile => match e {
            UserEvent::ProfileFetched(Some(p)) => (
                UserState {
                    stage: UserStage::Follows,
                    profile: Some(p.payload),
                    pinned: p.pinned,
                    handle: p.handle@,
                    ..s
                },
                UserActionView::FetchFollows(s.user_id),
            ),
            _ => user_failed(s),
        },
        UserStage::Follows => match e {
            UserEvent::FollowsFetched(Some(f)) => (
                UserState {
                    stage: UserStage::Timeline,
                    followers: f.0@,
                    following: f.1@,
                    ..s
                },
                UserActionView::FetchTimeline(s.handle),
            ),
            _ => user_failed(s),
        },
        UserStage::Timeline => match e {
            UserEvent::TimelineFetched(Some(th)) => {
                let s2 = UserState { timeline: th.tweets@, timeline_users: th.users@, ..s };
                match s.pinned {
                    Some(p) => (
                        UserState { stage: UserStage::Pinned, ..s2 },
                        UserActionView::FetchThread(p),
                    ),
                    None => next_timeline_tweet(s2),
                }
            },
            _ => user_failed(s),
        },
        UserStage::Pinned => match e {
            UserEvent::Fetched(Some(th)) => next_timeline_tweet(
                UserState {
                    timeline: s.timeline + th.tweets@,
                    users: add_users(s.users, th.users@),
                    ..s
                },
            ),
            UserEvent::Fetched(None) => next_timeline_tweet(s),
            _ => user_failed(s),
        },
        UserStage::TimelineThread => match e {
            UserEvent::Fetched(Some(th)) => next_thread_tweet(UserState { thread: th.tweets@, ..s }),
            UserEvent::Fetched(None) => next_timeline_tweet(s),
            _ => user_failed(s),
        },
        UserStage::QuoteSearch => match e {
            UserEvent::Searched(None) => next_thread_tweet(UserState { current: None, ..s }),
            UserEvent::Searched(Some(ids)) => (
                UserState { stage: UserStage::QuoteThreads, ..s },
                UserActionView::FetchThreads(ids@),
            ),
            _ => user_failed(s),
        },
        UserStage::QuoteThreads => match e {
            UserEvent::FetchedAll(rs) => {
                let (t, u) = add_threads(s.tweets, s.users, rs@);
                let s2 = UserState { tweets: t, users: u, ..s };
                match s.current.unwrap().quoting {
                    Some(q) => (
                        UserState { stage: UserStage::QuotedThread, ..s2 },
                        UserActionView::FetchThread(q),
                    ),
                    None => store_current(s2),
                }
            },
            _ => user_failed(s),
        },
        UserStage::QuotedThread => match e {
            UserEvent::Fetched(Some(th)) => store_current(
                UserState {
                    tweets: add_tweets(s.tweets, th.tweets@),
                    users: add_users(s.users, th.users@),
                    ..s
                },
            ),
            UserEvent::Fetched(None) => next_thread_tweet(UserState { current: None, ..s }),
            _ => user_failed(s),
        },
        UserStage::Finished => (s, UserActionView::Finish),
        UserStage::Failed => (s, UserActionView::Abort),
    }
}

/// The stages in which a tweet of a thread is in hand.
pub open spec fn holds_tweet(stage: UserStage) -> bool {
    stage == UserStage::QuoteSearch || stage == UserStage::QuoteThreads || stage
        == UserStage::QuotedThread
}

/// Tweets are stored under their ids, a tweet is in hand exactly while one
/// is worked on, and the account is known once it was fetched.
pub open spec fn user_state_ok<T, U>(s: UserState<T, U>) -> bool {
    &&& keyed_by_id(s.tweets)
    &&& holds_tweet(s.stage) ==> s.current is Some
    &&& (s.stage != UserStage::Profile && s.stage != UserStage::Failed) ==> s.profile is Some
}

/// The tweets worked through the timeline stages, and then within the
/// thread at hand, for the progress measure.
pub open spec fn user_outer_left<T, U>(s: UserState<T, U>) -> nat {
    s.timeline.len() + if s.stage == UserStage::TimelineThread {
        1nat
    } else {
        0nat
    }
}

pub open spec fn user_inner_left<T, U>(s: UserState<T, U>) -> nat {
    let per_stage: nat = match s.stage {
        UserStage::QuoteSearch => 3,
        UserStage::QuoteThreads => 2,
        UserStage::QuotedThread => 1,
        _ => 0,
    };
    3 * s.thread.len() + per_stage
}

/// The crawl is working through the timeline.
pub open spec fn in_timeline(stage: UserStage) -> bool {
    stage == UserStage::TimelineThread || holds_tweet(stage)
}

proof fn lemma_next_timeline_tweet<T, U>(s: UserState<T, U>)
    requires
        keyed_by_id(s.tweets),
        s.profile is Some,
    ensures
        user_state_ok(next_timeline_tweet(s).0),
        next_timeline_tweet(s).0.stage == UserStage::Finished || (next_timeline_tweet(s).0.stage
            == UserStage::TimelineThread && user_outer_left(next_timeline_tweet(s).0)
            == s.timeline.len() && user_inner_left(next_timeline_tweet(s).0) == 0),
        next_timeline_tweet(s).0.user_id == s.user_id,
        next_timeline_tweet(s).0.profile == s.profile,
{
}

proof fn lemma_next_thread_tweet<T, U>(s: UserState<T, U>)
    requires
        keyed_by_id(s.tweets),
        s.profile is Some,
    ensures
        user_state_ok(next_thread_tweet(s).0),
        next_thread_tweet(s).0.user_id == s.user_id,
        next_thread_tweet(s).0.profile == s.profile,
        next_thread_tweet(s).0.stage == UserStage::Finished || (next_thread_tweet(s).0.stage
            == UserStage::TimelineThread && user_outer_left(next_thread_tweet(s).0)
            == s.timeline.len() && user_inner_left(next_thread_tweet(s).0) == 0) || (
        next_thread_tweet(s).0.stage == UserStage::QuoteSearch && user_outer_left(
            next_thread_tweet(s).0,
        ) == s.timeline.len() && user_inner_left(next_thread_tweet(s).0) == 3 * s.thread.len()),
{
    if s.thread.len() == 0 {
        lemma_next_timeline_tweet(s);
    }
}

/// Every step keeps tweets under their own ids, a tweet in hand while one
/// is worked on, and the account once fetched.
pub proof fn lemma_user_step_ok<T, U>(s: UserState<T, U>, e: UserEvent<T, U>)
    requires
        user_state_ok(s),
    ensures
        user_state_ok(user_step(s, e).0),
        user_step(s, e).0.user_id == s.user_id,
{
    match s.stage {
        UserStage::Timeline => {
            if let UserEvent::TimelineFetched(Some(th)) = e {
                lemma_next_timeline_tweet(
                    UserState { timeline: th.tweets@, timeline_users: th.users@, ..s },
                );
            }
        },
        UserStage::Pinned => {
            match e {
                UserEvent::Fetched(Some(th)) => {
                    lemma_next_timeline_tweet(
                        UserState {
                            timeline: s.timeline + th.tweets@,
                            users: add_users(s.users, th.users@),
                            ..s
                        },
                    );
                },
                UserEvent::Fetched(None) => {
                    lemma_next_timeline_tweet(s);
                },
                _ => {},
            }
        },
        UserStage::TimelineThread => {
            match e {
                UserEvent::Fetched(Some(th)) => {
                    lemma_next_thread_tweet(UserState { thread: th.tweets@, ..s });
                },
                UserEvent::Fetched(None) => {
                    lemma_next_timeline_tweet(s);
                },
                _ => {},
            }
        },
        UserStage::QuoteSearch => {
            if let UserEvent::Searched(None) = e {
                lemma_next_thread_tweet(UserState { current: None, ..s });
            }
        },
        UserStage::QuoteThreads => {
            if let UserEvent::FetchedAll(rs) = e {
                lemma_add_threads_keyed(s.tweets, s.users, rs@);
                let (t, u) = add_threads(s.tweets, s.users, rs@);
                let c = s.current.unwrap();
                lemma_next_thread_tweet(
                    UserState { tweets: t.insert(c.id, c), users: u, current: None, ..s },
                );
            }
        },
        UserStage::QuotedThread => {
            match e {
                UserEvent::Fetched(Some(th)) => {
                    lemma_add_tweets_keyed(s.tweets, th.tweets@);
                    let c = s.current.unwrap();
                    lemma_next_thread_tweet(
                        UserState {
                            tweets: add_tweets(s.tweets, th.tweets@).insert(c.id, c),
                            users: add_users(s.users, th.users@),
                            current: None,
                            ..s
                        },
                    );
                },
                UserEvent::Fetched(None) => {
                    lemma_next_thread_tweet(UserState { current: None, ..s });
                },
                _ => {},
            }
        },
        _ => {},
    }
}

/// How many of the stages before the timeline are still ahead.
pub open spec fn stages_before_timeline(stage: UserStage) -> nat {
    match stage {
        UserStage::Profile => 4,
        UserStage::Follows => 3,
        UserStage::Timeline => 2,
        UserStage::Pinned => 1,
        _ => 0,
    }
}

/// Before the timeline, each step of a user crawl ends it, takes up the
/// timeline, or moves to a later stage, whatever the event.
pub proof fn lemma_user_step_advances<T, U>(s: UserState<T, U>, e: UserEvent<T, U>)
    requires
        user_state_ok(s),
        stages_before_timeline(s.stage) > 0,
    ensures
        ({
            let n = user_step(s, e).0;
            ||| n.stage == UserStage::Finished
            ||| n.stage == UserStage::Failed
            ||| in_timeline(n.stage)
            ||| stages_before_timeline(n.stage) < stages_before_timeline(s.stage)
        }),
{
    match s.stage {
        UserStage::Timeline => {
            if let UserEvent::TimelineFetched(Some(th)) = e {
                lemma_next_timeline_tweet(
                    UserState { timeline: th.tweets@, timeline_users: th.users@, ..s },
                );
            }
        },
        UserStage::Pinned => {
            match e {
                UserEvent::Fetched(Some(th)) => {
                    lemma_next_timeline_tweet(
                        UserState {
                            timeline: s.timeline + th.tweets@,
                            users: add_users(s.users, th.users@),
                            ..s
                        },
                    );
                },
                UserEvent::Fetched(None) => {
                    lemma_next_timeline_tweet(s);
                },
                _ => {},
            }
        },
        _ => {},
    }
}

/// A user crawl always ends once it works through the timeline: each step
/// either ends it, leaves fewer timeline tweets to take up, or leaves as
/// many and less work on the thread at hand.
pub proof fn lemma_user_step_progress<T, U>(s: UserState<T, U>, e: UserEvent<T, U>)
    requires
        user_state_ok(s),
        in_timeline(s.stage),
    ensures
        ({
            let n = user_step(s, e).0;
            ||| n.stage == UserStage::Finished
            ||| n.stage == UserStage::Failed
            ||| (in_timeline(n.stage) && user_outer_left(n) < user_outer_left(s))
            ||| (in_timeline(n.stage) && user_outer_left(n) == user_outer_left(s) && user_inner_left(n)
                < user_inner_left(s))
        }),
{
    match s.stage {
        UserStage::TimelineThread => {
            match e {
                UserEvent::Fetched(Some(th)) => {
                    lemma_next_thread_tweet(UserState { thread: th.tweets@, ..s });
                },
                UserEvent::Fetched(None) => {
                    lemma_next_timeline_tweet(s);
                },
                _ => {},
            }
        },
        UserStage::QuoteSearch => {
            if let UserEvent::Searched(None) = e {
                lemma_next_thread_tweet(UserState { current: None, ..s });
            }
        },
        UserStage::QuoteThreads => {
            if let UserEvent::FetchedAll(rs) = e {
                lemma_add_threads_keyed(s.tweets, s.users, rs@);
                let (t, u) = add_threads(s.tweets, s.users, rs@);
                let c = s.current.unwrap();
                lemma_next_thread_tweet(
                    UserState { tweets: t.insert(c.id, c), users: u, current: None, ..s },
                );
            }
        },
        UserStage::QuotedThread => {
            match e {
                UserEvent::Fetched(Some(th)) => {
                    lemma_add_tweets_keyed(s.tweets, th.tweets@);
                    let c = s.current.unwrap();
                    lemma_next_thread_tweet(
                        UserState {
                            tweets: add_tweets(s.tweets, th.tweets@).insert(c.id, c),
                            users: add_users(s.users, th.users@),
                            current: None,
                            ..s
                        },
                    );
                },
                UserEvent::Fetched(None) => {
                    lemma_next_thread_tweet(UserState { current: None, ..s });
                },
                _ => {},
            }
        },
        _ => {},
    }
}

proof fn lemma_next_thread_tweet_keeps<T, U>(s: UserState<T, U>)
    ensures
        next_thread_tweet(s).0.tweets == s.tweets,
        forall|k: u64| s.users.contains_key(k) ==> #[trigger] next_thread_tweet(s).0.users.contains_key(k),
        next_timeline_tweet(s).0.tweets == s.tweets,
        forall|k: u64| s.users.contains_key(k) ==> #[trigger] next_timeline_tweet(s).0.users.contains_key(k),
{
    lemma_add_users_keeps(s.users, s.timeline_users);
    assert forall|k: u64| s.users.contains_key(k) implies #[trigger] next_timeline_tweet(s).0.users.contains_key(k) by {
        if s.timeline.len() == 0 {
            assert(next_timeline_tweet(s).0.users == add_users(s.users, s.timeline_users));
        }
    }
}

/// A user crawl never loses what it stored: every tweet id and every
/// account id stored before a step is still stored after it.
pub proof fn lemma_user_step_keeps<T, U>(s: UserState<T, U>, e: UserEvent<T, U>)
    ensures
        forall|k: u64| s.tweets.contains_key(k) ==> #[trigger] user_step(s, e).0.tweets.contains_key(k),
        forall|k: u64| s.users.contains_key(k) ==> #[trigger] user_step(s, e).0.users.contains_key(k),
{
    match s.stage {
        UserStage::Timeline => {
            if let UserEvent::TimelineFetched(Some(th)) = e {
                lemma_next_thread_tweet_keeps(UserState { timeline: th.tweets@, timeline_users: th.users@, ..s });
            }
        },
        UserStage::Pinned => {
            match e {
                UserEvent::Fetched(Some(th)) => {
                    lemma_add_users_keeps(s.users, th.users@);
                    lemma_next_thread_tweet_keeps(
                        UserState {
                            timeline: s.timeline + th.tweets@,
                            users: add_users(s.users, th.users@),
                            ..s
                        },
                    );
                },
                UserEvent::Fetched(None) => {
                    lemma_next_thread_tweet_keeps(s);
                },
                _ => {},
            }
        },
        UserStage::TimelineThread => {
            match e {
                UserEvent::Fetched(Some(th)) => {
                    lemma_next_thread_tweet_keeps(UserState { thread: th.tweets@, ..s });
                },
                UserEvent::Fetched(None) => {
                    lemma_next_thread_tweet_keeps(s);
                },
                _ => {},
            }
        },
        UserStage::QuoteSearch => {
            if let UserEvent::Searched(None) = e {
                lemma_next_thread_tweet_keeps(UserState { current: None, ..s });
            }
        },
        UserStage::QuoteThreads => {
            if let UserEvent::FetchedAll(rs) = e {
                lemma_add_threads_keeps(s.tweets, s.users, rs@);
                let (t, u) = add_threads(s.tweets, s.users, rs@);
                let c = s.current.unwrap();
                lemma_next_thread_tweet_keeps(UserState { tweets: t.insert(c.id, c), users: u, current: None, ..s });
            }
        },
        UserStage::QuotedThread => {
            match e {
                UserEvent::Fetched(Some(th)) => {
                    lemma_add_tweets_keeps(s.tweets, th.tweets@);
                    lemma_add_users_keeps(s.users, th.users@);
                    let c = s.current.unwrap();
                    lemma_next_thread_tweet_keeps(
                        UserState {
                            tweets: add_tweets(s.tweets, th.tweets@).insert(c.id, c),
                            users: add_users(s.users, th.users@),
                            current: None,
                            ..s
                        },
                    );
                },
                UserEvent::Fetched(None) => {
                    lemma_next_thread_tweet_keeps(UserState { current: None, ..s });
                },
                _ => {},
            }
        },
        _ => {},
    }
}

/// Fetching the thread a tweet quotes stores everything it delivered: the
/// tweet in hand under its id, every tweet of the quoted thread, and every
/// account that came with it.
pub proof fn lemma_quoted_thread_stored<T, U>(s: UserState<T, U>, th: Thread<T, U>)
    requires
        s.stage == UserStage::QuotedThread,
    ensures
        ({
            let n = user_step(s, UserEvent::Fetched(Some(th))).0;
            let c = s.current.unwrap();
            &&& n.tweets.contains_key(c.id)
            &&& n.tweets[c.id] == c
            &&& forall|i: int| 0 <= i < th.tweets@.len() ==> n.tweets.contains_key(#[trigger] th.tweets@[i].id)
            &&& forall|i: int| 0 <= i < th.users@.len() ==> n.users.contains_key(#[trigger] th.users@[i].id)
        }),
{
    lemma_add_tweets_keeps(s.tweets, th.tweets@);
    lemma_add_users_keeps(s.users, th.users@);
    let c = s.current.unwrap();
    let pre = UserState {
        tweets: add_tweets(s.tweets, th.tweets@).insert(c.id, c),
        users: add_users(s.users, th.users@),
        current: None,
        ..s
    };
    lemma_next_thread_tweet_keeps(pre);
}

/// Fetching the pinned tweet's thread adds its tweets after the timeline's
/// and stores its accounts; the crawl then takes up the first timeline
/// tweet, or finishes when there is none.
pub proof fn lemma_pinned_thread_stored<T, U>(s: UserState<T, U>, th: Thread<T, U>)
    requires
        s.stage == UserStage::Pinned,
    ensures
        ({
            let (n, a) = user_step(s, UserEvent::Fetched(Some(th)));
            let all = s.timeline + th.tweets@;
            &&& forall|i: int| 0 <= i < th.users@.len() ==> n.users.contains_key(#[trigger] th.users@[i].id)
            &&& forall|k: u64| s.users.contains_key(k) ==> #[trigger] n.users.contains_key(k)
            &&& all.len() == 0 ==> n.stage == UserStage::Finished && a == UserActionView::Finish
            &&& all.len() > 0 ==> n.stage == UserStage::TimelineThread && a == UserActionView::FetchThread(
                all[0].id,
            ) && n.timeline == all.drop_first()
        }),
{
    lemma_add_users_keeps(s.users, th.users@);
    lemma_next_thread_tweet_keeps(
        UserState { timeline: s.timeline + th.tweets@, users: add_users(s.users, th.users@), ..s },
    );
}

/// A successful quote search always goes on with the tweet in hand,
/// whatever ids it found, none included: the crawl asks for their threads,
/// and once they are answered it stores the tweets and accounts of every
/// quoting thread it got, and then stores the tweet in hand, or first asks
/// for the thread it quotes.
pub proof fn lemma_user_quote_search_success<T, U>(
    s: UserState<T, U>,
    ids: Vec<u64>,
    rs: Vec<Option<Thread<T, U>>>,
)
    requires
        user_state_ok(s),
        s.stage == UserStage::QuoteSearch,
    ensures
        ({
            let (s1, a1) = user_step(s, UserEvent::Searched(Some(ids)));
            let (s2, a2) = user_step(s1, UserEvent::FetchedAll(rs));
            let c = s.current.unwrap();
            &&& s1.stage == UserStage::QuoteThreads
            &&& a1 == UserActionView::FetchThreads(ids@)
            &&& (c.quoting is None ==> s2.tweets.contains_key(c.id) && s2.tweets[c.id] == c)
            &&& (c.quoting matches Some(q) ==> s2.stage == UserStage::QuotedThread && a2
                == UserActionView::FetchThread(q) && s2.current == Some(c))
            &&& forall|j: int, i: int|
                0 <= j < rs@.len() && rs@[j] is Some && 0 <= i < rs@[j].unwrap().tweets@.len()
                    ==> s2.tweets.contains_key(#[trigger] rs@[j].unwrap().tweets@[i].id)
            &&& forall|j: int, i: int|
                0 <= j < rs@.len() && rs@[j] is Some && 0 <= i < rs@[j].unwrap().users@.len()
                    ==> s2.users.contains_key(#[trigger] rs@[j].unwrap().users@[i].id)
        }),
{
    let (s1, a1) = user_step(s, UserEvent::Searched(Some(ids)));
    lemma_add_threads_stores(s1.tweets, s1.users, rs@);
    let (t, u) = add_threads(s1.tweets, s1.users, rs@);
    let c = s1.current.unwrap();
    let pre = UserState { tweets: t.insert(c.id, c), users: u, current: None, ..s1 };
    lemma_next_thread_tweet_keeps(pre);
    let (s2, a2) = user_step(s1, UserEvent::FetchedAll(rs));
    assert forall|j: int, i: int|
        0 <= j < rs@.len() && rs@[j] is Some && 0 <= i < rs@[j].unwrap().tweets@.len()
            implies s2.tweets.contains_key(#[trigger] rs@[j].unwrap().tweets@[i].id) by {
        assert(t.contains_key(rs@[j].unwrap().tweets@[i].id));
        assert(pre.tweets.contains_key(rs@[j].unwrap().tweets@[i].id));
    }
    if c.quoting is None {
        assert(s2 == next_thread_tweet(pre).0);
        assert(s2.tweets == pre.tweets);
        assert forall|j: int, i: int|
            0 <= j < rs@.len() && rs@[j] is Some && 0 <= i < rs@[j].unwrap().users@.len()
                implies s2.users.contains_key(#[trigger] rs@[j].unwrap().users@[i].id) by {
            assert(pre.users.contains_key(rs@[j].unwrap().users@[i].id));
        }
    } else {
        assert(s2.tweets == t);
        assert(s2.users == u);
    }
}

impl<T, U> UserArchive<T, U> {
    pub open spec fn state(&self) -> UserState<T, U> {
        UserState {
            user_id: self.user_id,
            stage: self.stage,
            profile: self.profile,
            pinned: self.pinned,
            handle: self.handle@,
            followers: self.followers@,
            following: self.following@,
            timeline: self.timeline@,
            timeline_users: self.timeline_users@,
            thread: self.thread@,
            current: self.current,
            tweets: self.tweets@,
            users: self.users@,
        }
    }

    pub open spec fn wf(&self) -> bool {
        &&& self.tweets.wf()
        &&& self.users.wf()
        &&& user_state_ok(self.state())
    }

    /// Starts the crawl of account `user_id`; its first request is the
    /// fetch of the account.
    pub fn new(user_id: u64) -> (r: (UserArchive<T, U>, UserAction))
        ensures
            r.0.wf(),
            r.0.state() == user_start::<T, U>(user_id),
            r.1@ == UserActionView::FetchProfile(user_id),
    {
        let a = UserArchive {
            user_id,
            stage: UserStage::Profile,
            profile: None,
            pinned: None,
            handle: String::new(),
            followers: Vec::new(),
            following: Vec::new(),
            timeline: Vec::new(),
            timeline_users: Vec::new(),
            thread: Vec::new(),
            current: None,
            tweets: IdMap::new(),
            users: IdMap::new(),
        };
        assert(a.state() =~= user_start::<T, U>(user_id));
        (a, UserAction::FetchProfile(user_id))
    }

    fn fail(&mut self) -> (a: UserAction)
        ensures
            final(self).tweets == old(self).tweets,
            final(self).users == old(self).users,
            (final(self).state(), a@) == user_failed(old(self).state()),
    {
        self.stage = UserStage::Failed;
        UserAction::Abort
    }

    fn next_timeline(&mut self) -> (a: UserAction)
        requires
            old(self).tweets.wf(),
            old(self).users.wf(),
        ensures
            final(self).tweets.wf(),
            final(self).users.wf(),
            (final(self).state(), a@) == next_timeline_tweet(old(self).state()),
    {
        self.thread = Vec::new();
        self.current = None;
        if self.timeline.len() == 0 {
            let mut pending: Vec<CrawledUser<U>> = Vec::new();
            std::mem::swap(&mut pending, &mut self.timeline_users);
            absorb_users(&mut self.users, pending);
            self.stage = UserStage::Finished;
            return UserAction::Finish;
        }
        let t = self.timeline.remove(0);
        self.stage = UserStage::TimelineThread;
        UserAction::FetchThread(t.id)
    }

    fn next_in_thread(&mut self) -> (a: UserAction)
        requires
            old(self).tweets.wf(),
            old(self).users.wf(),
        ensures
            final(self).tweets.wf(),
            final(self).users.wf(),
            (final(self).state(), a@) == next_thread_tweet(old(self).state()),
    {
        if self.thread.len() == 0 {
            return self.next_timeline();
        }
        let t = self.thread.remove(0);
        let id = t.id;
        self.current = Some(t);
        self.stage = UserStage::QuoteSearch;
        UserAction::SearchQuotes(id)
    }

    fn store(&mut self) -> (a: UserAction)
        requires
            old(self).tweets.wf(),
            old(self).users.wf(),
            old(self).current is Some,
        ensures
            final(self).tweets.wf(),
            final(self).users.wf(),
            (final(self).state(), a@) == store_current(old(self).state()),
    {
        let c = self.current.take().unwrap();
        self.tweets.insert(c.id, c);
        self.next_in_thread()
    }

    /// Takes in what became of the open request and says what to do next.
    pub fn step(&mut self, e: UserEvent<T, U>) -> (a: UserAction)
        requires
            old(self).wf(),
        ensures
            final(self).wf(),
            (final(self).state(), a@) == user_step(old(self).state(), e),
    {
        proof {
            lemma_user_step_ok(self.state(), e);
        }
        match self.stage {
            UserStage::Profile => match e {
                UserEvent::ProfileFetched(Some(p)) => {
                    let Profile { pinned, handle, payload } = p;
                    self.profile = Some(payload);
                    self.pinned = pinned;
                    self.handle = handle;
                    self.stage = UserStage::Follows;
                    UserAction::FetchFollows(self.user_id)
                },
                _ => self.fail(),
            },
            UserStage::Follows => match e {
                UserEvent::FollowsFetched(Some(f)) => {
                    let (followers, following) = f;
                    self.followers = followers;
                    self.following = following;
                    self.stage = UserStage::Timeline;
                    UserAction::FetchTimeline(self.handle.clone())
                },
                _ => self.fail(),
            },
            UserStage::Timeline => match e {
                UserEvent::TimelineFetched(Some(th)) => {
                    let Thread { tweets, users } = th;
                    self.timeline = tweets;
                    self.timeline_users = users;
                    match self.pinned {
                        Some(p) => {
                            self.stage = UserStage::Pinned;
                            UserAction::FetchThread(p)
                        },
                        None => self.next_timeline(),
                    }
                },
                _ => self.fail(),
            },
            UserStage::Pinned => match e {
                UserEvent::Fetched(Some(th)) => {
                    let Thread { mut tweets, users } = th;
                    self.timeline.append(&mut tweets);
                    absorb_users(&mut self.users, users);
                    self.next_timeline()
                },
                UserEvent::Fetched(None) => self.next_timeline(),
                _ => self.fail(),
            },
            UserStage::TimelineThread => match e {
                UserEvent::Fetched(Some(th)) => {
                    let Thread { tweets, users } = th;
                    self.thread = tweets;
                    self.next_in_thread()
                },
                UserEvent::Fetched(None) => self.next_timeline(),
                _ => self.fail(),
            },
            UserStage::QuoteSearch => match e {
                UserEvent::Searched(None) => {
                    self.current = None;
                    self.next_in_thread()
                },
                UserEvent::Searched(Some(ids)) => {
                    self.stage = UserStage::QuoteThreads;
                    UserAction::FetchThreads(ids)
                },
                _ => self.fail(),
            },
            UserStage::QuoteThreads => match e {
                UserEvent::FetchedAll(rs) => {
                    absorb_threads(&mut self.tweets, &mut self.users, rs);
                    match self.current.as_ref().unwrap().quoting {
                        Some(q) => {
                            self.stage = UserStage::QuotedThread;
                            UserAction::FetchThread(q)
                        },
                        None => self.store(),
                    }
                },
                _ => self.fail(),
            },
            UserStage::QuotedThread => match e {
                UserEvent::Fetched(Some(th)) => {
                    let Thread { tweets, users } = th;
                    absorb_tweets(&mut self.tweets, tweets);
                    absorb_users(&mut self.users, users);
                    self.store()
                },
                UserEvent::Fetched(None) => {
                    self.current = None;
                    self.next_in_thread()
                },
                _ => self.fail(),
            },
            UserStage::Finished => UserAction::Finish,
            UserStage::Failed => UserAction::Abort,
        }
    }

    /// What a completed crawl found: the account, the stored tweets in the
    /// order their ids were first stored with all their attachments, the
    /// other accounts in the same order, the followers and the accounts
    /// followed.
    pub fn harvest(self) -> (r: (U, Vec<T>, Vec<MediaRef>, Vec<U>, Vec<U>, Vec<U>))
        requires
            self.wf(),
            self.stage == UserStage::Finished,
        ensures
            Some(r.0) == self.profile,
            r.1@ == self.tweets.ids().map_values(|k: u64| self.tweets@[k].payload),
            r.2@ == media_of(self.tweets.ids().map_values(|k: u64| self.tweets@[k])),
            r.3@ == self.users.ids().map_values(|k: u64| self.users@[k]),
            r.4@ == self.followers@,
            r.5@ == self.following@,
    {
        let UserArchive { profile, tweets, users, followers, following, .. } = self;
        let (ts, media) = harvest_tweets(tweets);
        let us = harvest_users(users);
        (profile.unwrap(), ts, media, us, followers, following)
    }
}

} // verus!
