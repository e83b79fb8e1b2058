//! What a crawl sees of tweets and users, and how fetched threads are
//! merged into an archive: a later tweet or user under an id replaces the
//! earlier one.

use crate::id_map::IdMap;
use crate::text::{append_decimal, decimal};
use vstd::prelude::*;
use vstd::string::*;

verus! {

/// A media attachment of a tweet: its key, its declared type, and where to
/// fetch it.
pub struct MediaRef {
    pub key: String,
    pub kind: String,
    pub url: String,
}

/// A scraped tweet: its id, the tweet it quotes, its media, and the scraped
/// value itself.
pub struct CrawledTweet<T> {
    pub id: u64,
    pub quoting: Option<u64>,
    pub media: Vec<MediaRef>,
    pub payload: T,
}

/// A scraped account and its id.
pub struct CrawledUser<U> {
    pub id: u64,
    pub payload: U,
}

/// The tweets and accounts of one scraped conversation.
pub struct Thread<T, U> {
    pub tweets: Vec<CrawledTweet<T>>,
    pub users: Vec<CrawledUser<U>>,
}

/// The map after inserting `ts` in order, each under its id.
pub open spec fn add_tweets<T>(m: Map<u64, CrawledTweet<T>>, ts: Seq<CrawledTweet<T>>) -> Map<
    u64,
    CrawledTweet<T>,
>
    decreases ts.len(),
{
    if ts.len() == 0 {
        m
    } else {
        add_tweets(m, ts.drop_last()).insert(ts.last().id, ts.last())
    }
}

/// The map after inserting the accounts `us` in order, each under its id.
pub open spec fn add_users<U>(m: Map<u64, U>, us: Seq<CrawledUser<U>>) -> Map<u64, U>
    decreases us.len(),
{
    if us.len() == 0 {
        m
    } else {
        add_users(m, us.drop_last()).insert(us.last().id, us.last().payload)
    }
}

/// The maps after merging each fetched thread in order (its tweets, then
/// its accounts); failed fetches add nothing.
pub open spec fn add_threads<T, U>(
    tm: Map<u64, CrawledTweet<T>>,
    um: Map<u64, U>,
    rs: Seq<Option<Thread<T, U>>>,
) -> (Map<u64, CrawledTweet<T>>, Map<u64, U>)
    decreases rs.len(),
{
    if rs.len() == 0 {
        (tm, um)
    } else {
        let (t, u) = add_threads(tm, um, rs.drop_last());
        match rs.last() {
            Some(th) => (add_tweets(t, th.tweets@), add_users(u, th.users@)),
            None => (t, u),
        }
    }
}

/// Every tweet is stored under its own id.
pub open spec fn keyed_by_id<T>(m: Map<u64, CrawledTweet<T>>) -> bool {
    forall|k: u64| #[trigger] m.contains_key(k) ==> m[k].id == k
}

pub proof fn lemma_add_tweets_keyed<T>(m: Map<u64, CrawledTweet<T>>, ts: Seq<CrawledTweet<T>>)
    requires
        keyed_by_id(m),
    ensures
        keyed_by_id(add_tweets(m, ts)),
    decreases ts.len(),
{
    if ts.len() > 0 {
        lemma_add_tweets_keyed(m, ts.drop_last());
    }
}

pub proof fn lemma_add_threads_keyed<T, U>(
    tm: Map<u64, CrawledTweet<T>>,
    um: Map<u64, U>,
    rs: Seq<Option<Thread<T, U>>>,
)
    requires
        keyed_by_id(tm),
    ensures
        keyed_by_id(add_threads(tm, um, rs).0),
    decreases rs.len(),
{
    if rs.len() > 0 {
        lemma_add_threads_keyed(tm, um, rs.drop_last());
        let (t, u) = add_threads(tm, um, rs.drop_last());
        if let Some(th) = rs.last() {
            lemma_add_tweets_keyed(t, th.tweets@);
        }
    }
}

/// Storing tweets keeps every tweet id stored before and stores the id of
/// each new tweet.
pub proof fn lemma_add_tweets_keeps<T>(m: Map<u64, CrawledTweet<T>>, ts: Seq<CrawledTweet<T>>)
    ensures
        forall|k: u64| m.contains_key(k) ==> #[trigger] add_tweets(m, ts).contains_key(k),
        forall|i: int| 0 <= i < ts.len() ==> add_tweets(m, ts).contains_key(#[trigger] ts[i].id),
    decreases ts.len(),
{
    if ts.len() > 0 {
        lemma_add_tweets_keeps(m, ts.drop_last());
        assert forall|k: u64| m.contains_key(k) implies #[trigger] add_tweets(m, ts).contains_key(k) by {
            assert(add_tweets(m, ts.drop_last()).contains_key(k));
        }
        assert forall|i: int| 0 <= i < ts.len() implies add_tweets(m, ts).contains_key(#[trigger] ts[i].id) by {
            if i < ts.len() - 1 {
                assert(ts.drop_last()[i] == ts[i]);
            }
        }
    }
}

/// Storing accounts keeps every account id stored before and stores the id
/// of each new account.
pub proof fn lemma_add_users_keeps<U>(m: Map<u64, U>, us: Seq<CrawledUser<U>>)
    ensures
        forall|k: u64| m.contains_key(k) ==> #[trigger] add_users(m, us).contains_key(k),
        forall|i: int| 0 <= i < us.len() ==> add_users(m, us).contains_key(#[trigger] us[i].id),
    decreases us.len(),
{
    if us.len() > 0 {
        lemma_add_users_keeps(m, us.drop_last());
        assert forall|k: u64| m.contains_key(k) implies #[trigger] add_users(m, us).contains_key(k) by {
            assert(add_users(m, us.drop_last()).contains_key(k));
        }
        assert forall|i: int| 0 <= i < us.len() implies add_users(m, us).contains_key(#[trigger] us[i].id) by {
            if i < us.len() - 1 {
                assert(us.drop_last()[i] == us[i]);
            }
        }
    }
}

/// Merging fetched threads keeps every tweet and account id stored before.
pub proof fn lemma_add_threads_keeps<T, U>(
    tm: Map<u64, CrawledTweet<T>>,
    um: Map<u64, U>,
    rs: Seq<Option<Thread<T, U>>>,
)
    ensures
        forall|k: u64| tm.contains_key(k) ==> #[trigger] add_threads(tm, um, rs).0.contains_key(k),
        forall|k: u64| um.contains_key(k) ==> #[trigger] add_threads(tm, um, rs).1.contains_key(k),
    decreases rs.len(),
{
    if rs.len() > 0 {
        lemma_add_threads_keeps(tm, um, rs.drop_last());
        let (t, u) = add_threads(tm, um, rs.drop_last());
        if let Some(th) = rs.last() {
            lemma_add_tweets_keeps(t, th.tweets@);
            lemma_add_users_keeps(u, th.users@);
        }
    }
}

/// Merging fetched threads stores the id of every tweet and every account
/// of each thread that was fetched.
pub proof fn lemma_add_threads_stores<T, U>(
    tm: Map<u64, CrawledTweet<T>>,
    um: Map<u64, U>,
    rs: Seq<Option<Thread<T, U>>>,
)
    ensures
        forall|j: int, i: int|
            0 <= j < rs.len() && rs[j] is Some && 0 <= i < rs[j].unwrap().tweets@.len()
                ==> add_threads(tm, um, rs).0.contains_key(#[trigger] rs[j].unwrap().tweets@[i].id),
        forall|j: int, i: int|
            0 <= j < rs.len() && rs[j] is Some && 0 <= i < rs[j].unwrap().users@.len()
                ==> add_threads(tm, um, rs).1.contains_key(#[trigger] rs[j].unwrap().users@[i].id),
    decreases rs.len(),
{
    if rs.len() > 0 {
        let prev = rs.drop_last();
        lemma_add_threads_stores(tm, um, prev);
        let (t, u) = add_threads(tm, um, prev);
        let n = rs.len() - 1;
        match rs.last() {
            Some(th) => {
                lemma_add_tweets_keeps(t, th.tweets@);
                lemma_add_users_keeps(u, th.users@);
            },
            None => {},
        }
        assert forall|j: int, i: int|
            0 <= j < rs.len() && rs[j] is Some && 0 <= i < rs[j].unwrap().tweets@.len()
                implies add_threads(tm, um, rs).0.contains_key(#[trigger] rs[j].unwrap().tweets@[i].id) by {
            if j < n {
                assert(prev[j] == rs[j]);
                assert(t.contains_key(prev[j].unwrap().tweets@[i].id));
            }
        }
        assert forall|j: int, i: int|
            0 <= j < rs.len() && rs[j] is Some && 0 <= i < rs[j].unwrap().users@.len()
                implies add_threads(tm, um, rs).1.contains_key(#[trigger] rs[j].unwrap().users@[i].id) by {
            if j < n {
                assert(prev[j] == rs[j]);
                assert(u.contains_key(prev[j].unwrap().users@[i].id));
            }
        }
    }
}

/// Inserts the tweets `ts` in order, each under its id.
pub fn absorb_tweets<T>(m: &mut IdMap<CrawledTweet<T>>, ts: Vec<CrawledTweet<T>>)
    requires
        old(m).wf(),
    ensures
        final(m).wf(),
        final(m)@ == add_tweets(old(m)@, ts@),
{
    let ghost orig = ts@;
    let ghost start = m@;
    let mut rest = ts;
    let ghost mut k: int = 0;
    while rest.len() > 0
        invariant
            m.wf(),
            0 <= k <= orig.len(),
            rest@ == orig.skip(k as int),
            m@ == add_tweets(start, orig.take(k as int)),
        decreases rest@.len(),
    {
        let t = rest.remove(0);
        proof {
            assert(t == orig[k as int]);
            assert(orig.take(k + 1).drop_last() =~= orig.take(k as int));
            assert(rest@ =~= orig.skip(k + 1));
        }
        m.insert(t.id, t);
        proof {
            k = k + 1;
        }
    }
    proof {
        assert(orig.take(k as int) =~= orig);
    }
}

/// Inserts the accounts `us` in order, each under its id.
pub fn absorb_users<U>(m: &mut IdMap<U>, us: Vec<CrawledUser<U>>)
    requires
        old(m).wf(),
    ensures
        final(m).wf(),
        final(m)@ == add_users(old(m)@, us@),
{
    let ghost orig = us@;
    let ghost start = m@;
    let mut rest = us;
    let ghost mut k: int = 0;
    while rest.len() > 0
        invariant
            m.wf(),
            0 <= k <= orig.len(),
            rest@ == orig.skip(k as int),
            m@ == add_users(start, orig.take(k as int)),
        decreases rest@.len(),
    {
        let u = rest.remove(0);
        proof {
            assert(u == orig[k as int]);
            assert(orig.take(k + 1).drop_last() =~= orig.take(k as int));
            assert(rest@ =~= orig.skip(k + 1));
        }
        m.insert(u.id, u.payload);
        proof {
            k = k + 1;
        }
    }
    proof {
        assert(orig.take(k as int) =~= orig);
    }
}

/// Merges each fetched thread in order: its tweets, then its accounts.
pub fn absorb_threads<T, U>(
    tm: &mut IdMap<CrawledTweet<T>>,
    um: &mut IdMap<U>,
    rs: Vec<Option<Thread<T, U>>>,
)
    requires
        old(tm).wf(),
        old(um).wf(),
    ensures
        final(tm).wf(),
        final(um).wf(),
        (final(tm)@, final(um)@) == add_threads(old(tm)@, old(um)@, rs@),
{
    let ghost orig = rs@;
    let ghost t0 = tm@;
    let ghost u0 = um@;
    let mut rest = rs;
    let ghost mut k: int = 0;
    while rest.len() > 0
        invariant
            tm.wf(),
            um.wf(),
            0 <= k <= orig.len(),
            rest@ == orig.skip(k as int),
            (tm@, um@) == add_threads(t0, u0, orig.take(k as int)),
        decreases rest@.len(),
    {
        let r = rest.remove(0);
        proof {
            assert(r == orig[k as int]);
            assert(orig.take(k + 1).drop_last() =~= orig.take(k as int));
            assert(orig.take(k + 1).last() == r);
            assert(rest@ =~= orig.skip(k + 1));
        }
        match r {
            Some(th) => {
                absorb_tweets(tm, th.tweets);
                absorb_users(um, th.users);
            },
            None => {},
        }
        proof {
            k = k + 1;
        }
    }
    proof {
        assert(orig.take(k as int) =~= orig);
    }
}


/// The attachments of `ts`, tweet after tweet.
pub open spec fn media_of<T>(ts: Seq<CrawledTweet<T>>) -> Seq<MediaRef>
    decreases ts.len(),
{
    if ts.len() == 0 {
        Seq::empty()
    } else {
        media_of(ts.drop_last()) + ts.last().media@
    }
}

/// The stored tweets, in the order their ids were first stored, split into
/// their scraped values and the attachments of all of them.
pub fn harvest_tweets<T>(m: IdMap<CrawledTweet<T>>) -> (r: (Vec<T>, Vec<MediaRef>))
    requires
        m.wf(),
    ensures
        r.0@ == m.ids().map_values(|k: u64| m@[k].payload),
        r.1@ == media_of(m.ids().map_values(|k: u64| m@[k])),
{
    let ghost all = m.ids().map_values(|k: u64| m@[k]);
    let mut rest = m.into_values();
    let mut payloads: Vec<T> = Vec::new();
    let mut media: Vec<MediaRef> = Vec::new();
    let ghost mut k: int = 0;
    while rest.len() > 0
        invariant
            0 <= k <= all.len(),
            rest@ == all.skip(k),
            payloads@ == all.take(k).map_values(|t: CrawledTweet<T>| t.payload),
            media@ == media_of(all.take(k)),
        decreases rest@.len(),
    {
        let t = rest.remove(0);
        proof {
            assert(t == all[k]);
            assert(all.take(k + 1).drop_last() =~= all.take(k));
            assert(rest@ =~= all.skip(k + 1));
        }
        let CrawledTweet { id, quoting, media: mut tm, payload } = t;
        payloads.push(payload);
        media.append(&mut tm);
        proof {
            assert(payloads@ =~= all.take(k + 1).map_values(|t: CrawledTweet<T>| t.payload));
            k = k + 1;
        }
    }
    proof {
        assert(all.take(k) =~= all);
        assert(payloads@ =~= m.ids().map_values(|k: u64| m@[k].payload));
    }
    (payloads, media)
}

/// The stored accounts, in the order their ids were first stored.
pub fn harvest_users<U>(m: IdMap<U>) -> (r: Vec<U>)
    requires
        m.wf(),
    ensures
        r@ == m.ids().map_values(|k: u64| m@[k]),
{
    m.into_values()
}

/// The search that finds the tweets quoting tweet `id`.
pub open spec fn quote_search_text(id: u64) -> Seq<char> {
    "quoted_tweet_id:"@ + decimal(id as nat)
}

/// The search query for the tweets that quote tweet `id`:
/// `quoted_tweet_id:` followed by the id.
pub fn quote_search_query(id: u64) -> (q: String)
    ensures
        q@ == quote_search_text(id),
{
    let mut q = String::from_str("quoted_tweet_id:");
    append_decimal(&mut q, id);
    q
}

} // verus!
