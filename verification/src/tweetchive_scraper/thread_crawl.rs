//! The crawl behind a thread archival request.
//!
//! The thread of the requested tweet is fetched; a failure ends the crawl.
//! Then each tweet of that thread is taken in turn: the thread of the tweet
//! it quotes is fetched and merged (a failure ends the crawl); the tweets
//! quoting it are searched, and a failed search passes over the tweet
//! without storing it; the threads of the quoting tweets are fetched and
//! merged, failed fetches adding nothing; then the tweet itself is stored.
//! Last, the accounts of the requested thread are merged.

use crate::id_map::IdMap;
use crate::tweetchive_scraper::crawl::{
    absorb_threads, absorb_tweets, absorb_users, add_threads, add_tweets, add_users, harvest_tweets,
    harvest_users, keyed_by_id, lemma_add_threads_keeps, lemma_add_threads_keyed, lemma_add_threads_stores,
    lemma_add_tweets_keeps, lemma_add_tweets_keyed, lemma_add_users_keeps, media_of,
    CrawledTweet, CrawledUser, MediaRef, Thread,
};
use vstd::prelude::*;

verus! {

/// Where a thread crawl stands.
#[derive(Clone, Copy, Debug, PartialEq, Eq, Structural)]
pub enum ThreadStage {
    Start,
    QuotedThread,
    QuoteSearch,
    QuoteThreads,
    Finished,
    Failed,
}

/// What the caller reports back: a fetched thread (`None` when the fetch
/// failed), the ids found by a quote search (`None` when it failed), or the
/// threads fetched for those ids, in their order.
pub enum CrawlEvent<T, U> {
    Fetched(Option<Thread<T, U>>),
    Searched(Option<Vec<u64>>),
    FetchedAll(Vec<Option<Thread<T, U>>>),
}

/// What the caller is asked to do next: fetch the thread of a tweet,
/// search the tweets quoting a tweet, fetch the threads of several tweets,
/// or stop because the crawl is complete or has failed.
pub enum CrawlAction {
    FetchThread(u64),
    SearchQuotes(u64),
    FetchThreads(Vec<u64>),
    Finish,
    Abort,
}

pub enum CrawlActionView {
    FetchThread(u64),
    SearchQuotes(u64),
    FetchThreads(Seq<u64>),
    Finish,
    Abort,
}

impl CrawlAction {
    pub open spec fn view(&self) -> CrawlActionView {
        match self {
            CrawlAction::FetchThread(id) => CrawlActionView::FetchThread(*id),
            CrawlAction::SearchQuotes(id) => CrawlActionView::SearchQuotes(*id),
            CrawlAction::FetchThreads(ids) => CrawlActionView::FetchThreads(ids@),
            CrawlAction::Finish => CrawlActionView::Finish,
            CrawlAction::Abort => CrawlActionView::Abort,
        }
    }
}

/// A thread crawl between two steps.
pub struct ThreadArchive<T, U> {
    pub root: u64,
    pub stage: ThreadStage,
    pub queue: Vec<CrawledTweet<T>>,
    pub current: Option<CrawledTweet<T>>,
    pub root_users: Vec<CrawledUser<U>>,
    pub tweets: IdMap<CrawledTweet<T>>,
    pub users: IdMap<U>,
}

/// A thread crawl as the specification sees it.
pub struct ThreadState<T, U> {
    pub root: u64,
    pub stage: ThreadStage,
    pub queue: Seq<CrawledTweet<T>>,
    pub current: Option<CrawledTweet<T>>,
    pub root_users: Seq<CrawledUser<U>>,
    pub tweets: Map<u64, CrawledTweet<T>>,
    pub users: Map<u64, U>,
}

/// The crawl that has just been asked for the thread of `root`.
pub open spec fn thread_start<T, U>(root: u64) -> ThreadState<T, U> {
    ThreadState {
        root,
        stage: ThreadStage::Start,
        queue: Seq::empty(),
        current: None,
        root_users: Seq::empty(),
        tweets: Map::empty(),
        users: Map::empty(),
    }
}

pub open spec fn thread_failed<T, U>(s: ThreadState<T, U>) -> (ThreadState<T, U>, CrawlActionView) {
    (ThreadState { stage: ThreadStage::Failed, ..s }, CrawlActionView::Abort)
}

/// Takes up the next tweet of the requested thread, or completes the crawl
/// when none is left.
pub open spec fn next_root_tweet<T, U>(s: ThreadState<T, U>) -> (ThreadState<T, U>, CrawlActionView) {
    if s.queue.len() == 0 {
        (
            ThreadState {
                stage: ThreadStage::Finished,
                current: None,
                root_users: Seq::empty(),
                users: add_users(s.users, s.root_users),
                ..s
            },
            CrawlActionView::Finish,
        )
    } else {
        let t = s.queue[0];
        let s2 = ThreadState { queue: s.queue.drop_first(), current: Some(t), ..s };
        match t.quoting {
            Some(q) => (
                ThreadState { stage: ThreadStage::QuotedThread, ..s2 },
                CrawlActionView::FetchThread(q),
            ),
            None => (
                ThreadState { stage: ThreadStage::QuoteSearch, ..s2 },
                CrawlActionView::SearchQuotes(t.id),
            ),
        }
    }
}

/// One step of a thread crawl on a reported event. An event that does not
/// answer the open request ends the crawl as failed.
pub open spec fn thread_step<T, U>(s: ThreadState<T, U>, e: CrawlEvent<T, U>) -> (
    ThreadState<T, U>,
    CrawlActionView,
) {
    match s.stage {
        ThreadStage::Start => match e {
            CrawlEvent::Fetched(Some(th)) => next_root_tweet(
                ThreadState { queue: th.tweets@, root_users: th.users@, ..s },
            ),
            _ => thread_failed(s),
        },
        ThreadStage::QuotedThread => match e {
            CrawlEvent::Fetched(Some(th)) => (
                ThreadState {
                    stage: ThreadStage::QuoteSearch,
                    tweets: add_tweets(s.tweets, th.tweets@),
                    users: add_users(s.users, th.users@),
                    ..s
                },
                CrawlActionView::SearchQuotes(s.current.unwrap().id),
            ),
            _ => thread_failed(s),
        },
        ThreadStage::QuoteSearch => match e {
            CrawlEvent::Searched(None) => next_root_tweet(ThreadState { current: None, ..s }),
            CrawlEvent::Searched(Some(ids)) => (
                ThreadState { stage: ThreadStage::QuoteThreads, ..s },
                CrawlActionView::FetchThreads(ids@),
            ),
            _ => thread_failed(s),
        },
        ThreadStage::QuoteThreads => match e {
            CrawlEvent::FetchedAll(rs) => {
                let (t, u) = add_threads(s.tweets, s.users, rs@);
                let c = s.current.unwrap();
                next_root_tweet(
                    ThreadState { tweets: t.insert(c.id, c), users: u, current: None, ..s },
                )
            },
            _ => thread_failed(s),
        },
        ThreadStage::Finished => (s, CrawlActionView::Finish),
        ThreadStage::Failed => (s, CrawlActionView::Abort),
    }
}

/// The stages in which a tweet of the requested thread is in hand.
pub open spec fn holds_tweet(stage: ThreadStage) -> bool {
    stage == ThreadStage::QuotedThread || stage == ThreadStage::QuoteSearch || stage
        == ThreadStage::QuoteThreads
}

/// Tweets are stored under their ids, and a tweet is in hand exactly while
/// one is being worked on.
pub open spec fn thread_state_ok<T, U>(s: ThreadState<T, U>) -> bool {
    &&& keyed_by_id(s.tweets)
    &&& holds_tweet(s.stage) ==> s.current is Some
}

/// How much work a crawl has left at most, counted in events.
pub open spec fn thread_work_left<T, U>(s: ThreadState<T, U>) -> nat {
    let per_stage: nat = match s.stage {
        ThreadStage::Start => 1,
        ThreadStage::QuotedThread => 3,
        ThreadStage::QuoteSearch => 2,
        ThreadStage::QuoteThreads => 1,
        ThreadStage::Finished => 0,
        ThreadStage::Failed => 0,
    };
    3 * s.queue.len() + per_stage
}

pub proof fn lemma_next_root_tweet<T, U>(s: ThreadState<T, U>)
    requires
        keyed_by_id(s.tweets),
    ensures
        thread_state_ok(next_root_tweet(s).0),
        next_root_tweet(s).0.root == s.root,
        next_root_tweet(s).0.tweets == s.tweets,
        thread_work_left(next_root_tweet(s).0) <= 3 * s.queue.len(),
{
}

/// Every step keeps tweets under their own ids and a tweet in hand while
/// one is worked on.
pub proof fn lemma_thread_step_ok<T, U>(s: ThreadState<T, U>, e: CrawlEvent<T, U>)
    requires
        thread_state_ok(s),
    ensures
        thread_state_ok(thread_step(s, e).0),
        thread_step(s, e).0.root == s.root,
{
    match s.stage {
        ThreadStage::Start => {
            if let CrawlEvent::Fetched(Some(th)) = e {
                lemma_next_root_tweet(ThreadState { queue: th.tweets@, root_users: th.users@, ..s });
            }
        },
        ThreadStage::QuotedThread => {
            if let CrawlEvent::Fetched(Some(th)) = e {
                lemma_add_tweets_keyed(s.tweets, th.tweets@);
            }
        },
        ThreadStage::QuoteSearch => {
            if let CrawlEvent::Searched(None) = e {
                lemma_next_root_tweet(ThreadState { current: None, ..s });
            }
        },
        ThreadStage::QuoteThreads => {
            if let CrawlEvent::FetchedAll(rs) = e {
                lemma_add_threads_keyed(s.tweets, s.users, rs@);
                let (t, u) = add_threads(s.tweets, s.users, rs@);
                let c = s.current.unwrap();
                lemma_next_root_tweet(
                    ThreadState { tweets: t.insert(c.id, c), users: u, current: None, ..s },
                );
            }
        },
        _ => {},
    }
}

/// Once the requested thread is in, a thread crawl has at most three
/// events left per tweet of that thread.
pub proof fn lemma_thread_start_bound<T, U>(s: ThreadState<T, U>, e: CrawlEvent<T, U>)
    requires
        thread_state_ok(s),
        s.stage == ThreadStage::Start,
    ensures
        e matches CrawlEvent::Fetched(Some(th)) ==> thread_work_left(thread_step(s, e).0) <= 3
            * th.tweets@.len(),
        !(e matches CrawlEvent::Fetched(Some(_))) ==> thread_step(s, e).0.stage == ThreadStage::Failed,
{
    if let CrawlEvent::Fetched(Some(th)) = e {
        lemma_next_root_tweet(ThreadState { queue: th.tweets@, root_users: th.users@, ..s });
    }
}

/// A thread crawl always ends: past its first step, every step of a crawl
/// that has not ended leaves it less work, whatever the event.
pub proof fn lemma_thread_step_progress<T, U>(s: ThreadState<T, U>, e: CrawlEvent<T, U>)
    requires
        thread_state_ok(s),
        s.stage != ThreadStage::Start,
        s.stage != ThreadStage::Finished,
        s.stage != ThreadStage::Failed,
    ensures
        thread_work_left(thread_step(s, e).0) < thread_work_left(s) || thread_step(s, e).0.stage
            == ThreadStage::Failed,
{
    match s.stage {
        ThreadStage::QuoteSearch => {
            if let CrawlEvent::Searched(None) = e {
                lemma_next_root_tweet(ThreadState { current: None, ..s });
            }
        },
        ThreadStage::QuoteThreads => {
            if let CrawlEvent::FetchedAll(rs) = e {
                lemma_add_threads_keyed(s.tweets, s.users, rs@);
                let (t, u) = add_threads(s.tweets, s.users, rs@);
                let c = s.current.unwrap();
                lemma_next_root_tweet(
                    ThreadState { tweets: t.insert(c.id, c), users: u, current: None, ..s },
                );
            }
        },
        _ => {},
    }
}

/// A successful quote search always leads to the tweet in hand being
/// stored: whatever ids the search found, none included, the crawl asks for
/// their threads, and once they are answered the tweet is stored under its
/// id, together with the tweets and accounts of every quoting thread that
/// was fetched, and no tweet or account stored before is lost.
pub proof fn lemma_quote_search_stores_tweet<T, U>(
    s: ThreadState<T, U>,
    ids: Vec<u64>,
    rs: Vec<Option<Thread<T, U>>>,
)
    requires
        thread_state_ok(s),
        s.stage == ThreadStage::QuoteSearch,
    ensures
        ({
            let (s1, a1) = thread_step(s, CrawlEvent::Searched(Some(ids)));
            let s2 = thread_step(s1, CrawlEvent::FetchedAll(rs)).0;
            let t = s.current.unwrap();
            &&& s1.stage == ThreadStage::QuoteThreads
            &&& a1 == CrawlActionView::FetchThreads(ids@)
            &&& s2.tweets.contains_key(t.id)
            &&& s2.tweets[t.id] == t
            &&& forall|k: u64| s.tweets.contains_key(k) ==> #[trigger] s2.tweets.contains_key(k)
            &&& forall|k: u64| s.users.contains_key(k) ==> #[trigger] s2.users.contains_key(k)
            &&& forall|j: int, i: int|
                0 <= j < rs@.len() && rs@[j] is Some && 0 <= i < rs@[j].unwrap().tweets@.len()
                    ==> s2.tweets.contains_key(#[trigger] rs@[j].unwrap().tweets@[i].id)
            &&& forall|j: int, i: int|
                0 <= j < rs@.len() && rs@[j] is Some && 0 <= i < rs@[j].unwrap().users@.len()
                    ==> s2.users.contains_key(#[trigger] rs@[j].unwrap().users@[i].id)
        }),
{
    let (s1, a1) = thread_step(s, CrawlEvent::Searched(Some(ids)));
    lemma_add_threads_keeps(s1.tweets, s1.users, rs@);
    lemma_add_threads_stores(s1.tweets, s1.users, rs@);
    lemma_add_threads_keyed(s1.tweets, s1.users, rs@);
    let (t, u) = add_threads(s1.tweets, s1.users, rs@);
    let c = s1.current.unwrap();
    let pre = ThreadState { tweets: t.insert(c.id, c), users: u, current: None, ..s1 };
    lemma_next_root_tweet(pre);
    lemma_add_users_keeps(pre.users, pre.root_users);
    let s2 = next_root_tweet(pre).0;
    assert(s2.tweets == pre.tweets);
    assert forall|k: u64| pre.users.contains_key(k) implies #[trigger] s2.users.contains_key(k) by {
        if pre.queue.len() == 0 {
            assert(s2.users == add_users(pre.users, pre.root_users));
        }
    }
}

/// Fetching the thread a tweet of the requested thread quotes stores every
/// tweet and every account of it, keeps what was stored, and goes on to
/// search for the tweets quoting the tweet in hand.
pub proof fn lemma_quoted_thread_stored<T, U>(s: ThreadState<T, U>, th: Thread<T, U>)
    requires
        s.stage == ThreadStage::QuotedThread,
    ensures
        ({
            let (n, a) = thread_step(s, CrawlEvent::Fetched(Some(th)));
            &&& n.stage == ThreadStage::QuoteSearch
            &&& a == CrawlActionView::SearchQuotes(s.current.unwrap().id)
            &&& n.current == s.current
            &&& forall|i: int| 0 <= i < th.tweets@.len() ==> n.tweets.contains_key(#[trigger] th.tweets@[i].id)
            &&& forall|i: int| 0 <= i < th.users@.len() ==> n.users.contains_key(#[trigger] th.users@[i].id)
            &&& forall|k: u64| s.tweets.contains_key(k) ==> #[trigger] n.tweets.contains_key(k)
            &&& forall|k: u64| s.users.contains_key(k) ==> #[trigger] n.users.contains_key(k)
        }),
{
    lemma_add_tweets_keeps(s.tweets, th.tweets@);
    lemma_add_users_keeps(s.users, th.users@);
}

impl<T, U> ThreadArchive<T, U> {
    pub open spec fn state(&self) -> ThreadState<T, U> {
        ThreadState {
            root: self.root,
            stage: self.stage,
            queue: self.queue@,
            current: self.current,
            root_users: self.root_users@,
            tweets: self.tweets@,
            users: self.users@,
        }
    }

    pub open spec fn wf(&self) -> bool {
        &&& self.tweets.wf()
        &&& self.users.wf()
        &&& thread_state_ok(self.state())
    }

    /// Starts the crawl of the thread of tweet `root`; its first request is
    /// the fetch of that thread.
    pub fn new(root: u64) -> (r: (ThreadArchive<T, U>, CrawlAction))
        ensures
            r.0.wf(),
            r.0.state() == thread_start::<T, U>(root),
            r.1@ == CrawlActionView::FetchThread(root),
    {
        let a = ThreadArchive {
            root,
            stage: ThreadStage::Start,
            queue: Vec::new(),
            current: None,
            root_users: Vec::new(),
            tweets: IdMap::new(),
            users: IdMap::new(),
        };
        assert(a.state() =~= thread_start::<T, U>(root));
        (a, CrawlAction::FetchThread(root))
    }

    fn advance(&mut self) -> (a: CrawlAction)
        requires
            old(self).tweets.wf(),
            old(self).users.wf(),
        ensures
            final(self).tweets.wf(),
            final(self).users.wf(),
            (final(self).state(), a@) == next_root_tweet(old(self).state()),
    {
        if self.queue.len() == 0 {
            let mut pending: Vec<CrawledUser<U>> = Vec::new();
            std::mem::swap(&mut pending, &mut self.root_users);
            absorb_users(&mut self.users, pending);
            self.stage = ThreadStage::Finished;
            self.current = None;
            proof {
                assert(self.root_users@ =~= Seq::<CrawledUser<U>>::empty());
            }
            return CrawlAction::Finish;
        }
        let t = self.queue.remove(0);
        let id = t.id;
        let quoting = t.quoting;
        self.current = Some(t);
        match quoting {
            Some(q) => {
                self.stage = ThreadStage::QuotedThread;
                CrawlAction::FetchThread(q)
            },
            None => {
                self.stage = ThreadStage::QuoteSearch;
                CrawlAction::SearchQuotes(id)
            },
        }
    }

    fn fail(&mut self) -> (a: CrawlAction)
        ensures
            final(self).tweets == old(self).tweets,
            final(self).users == old(self).users,
            (final(self).state(), a@) == thread_failed(old(self).state()),
    {
        self.stage = ThreadStage::Failed;
        CrawlAction::Abort
    }

    /// Takes in what became of the open request and says what to do next.
    pub fn step(&mut self, e: CrawlEvent<T, U>) -> (a: CrawlAction)
        requires
            old(self).wf(),
        ensures
            final(self).wf(),
            (final(self).state(), a@) == thread_step(old(self).state(), e),
    {
        proof {
            lemma_thread_step_ok(self.state(), e);
        }
        match self.stage {
            ThreadStage::Start => match e {
                CrawlEvent::Fetched(Some(th)) => {
                    let ghost s0 = self.state();
                    let Thread { tweets, users } = th;
                    self.queue = tweets;
                    self.root_users = users;
                    assert(self.state() == ThreadState { queue: th.tweets@, root_users: th.users@, ..s0 });
                    self.advance()
                },
                _ => self.fail(),
            },
            ThreadStage::QuotedThread => match e {
                CrawlEvent::Fetched(Some(th)) => {
                    let Thread { tweets, users } = th;
                    absorb_tweets(&mut self.tweets, tweets);
                    absorb_users(&mut self.users, users);
                    self.stage = ThreadStage::QuoteSearch;
                    let id = self.current.as_ref().unwrap().id;
                    CrawlAction::SearchQuotes(id)
                },
                _ => self.fail(),
            },
            ThreadStage::QuoteSearch => match e {
                CrawlEvent::Searched(None) => {
                    self.current = None;
                    self.advance()
                },
                CrawlEvent::Searched(Some(ids)) => {
                    self.stage = ThreadStage::QuoteThreads;
                    CrawlAction::FetchThreads(ids)
                },
                _ => self.fail(),
            },
            ThreadStage::QuoteThreads => match e {
                CrawlEvent::FetchedAll(rs) => {
                    absorb_threads(&mut self.tweets, &mut self.users, rs);
                    let c = self.current.take().unwrap();
                    self.tweets.insert(c.id, c);
                    self.advance()
                },
                _ => self.fail(),
            },
            ThreadStage::Finished => CrawlAction::Finish,
            ThreadStage::Failed => CrawlAction::Abort,
        }
    }

    /// What the crawl stored: the tweets in the order their ids were first
    /// stored with all their attachments, and the accounts in the same order.
    pub fn harvest(self) -> (r: (Vec<T>, Vec<MediaRef>, Vec<U>))
        requires
            self.wf(),
        ensures
            r.0@ == self.tweets.ids().map_values(|k: u64| self.tweets@[k].payload),
            r.1@ == media_of(self.tweets.ids().map_values(|k: u64| self.tweets@[k])),
            r.2@ == self.users.ids().map_values(|k: u64| self.users@[k]),
    {
        let ThreadArchive { tweets, users, .. } = self;
        let (ts, media) = harvest_tweets(tweets);
        let us = harvest_users(users);
        (ts, media, us)
    }
}

} // verus!
