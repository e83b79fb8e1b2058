//! The server's JSON API: the addresses it hands out, the plan of a search
//! request and the items it answers with, and the choice of a snapshot.

use crate::strings::split_on;
use crate::strings::split_char;
use crate::text::{append_decimal, decimal, lemma_decimal_injective, parse_u64, parse_u64_spec};
use crate::uuid_text::{uuid_text, uuid_to_string};
use vstd::prelude::*;
use vstd::string::*;

verus! {

/// The status of a malformed request.
pub const BAD_REQUEST: u16 = 400;

/// The status of a request for something that is not archived.
pub const NOT_FOUND: u16 = 404;

/// A CouchDB view: its map function and its reduce function, if any.
#[derive(Clone, Debug)]
pub struct CouchView {
    pub map: String,
    pub reduce: Option<String>,
}

/// The address of a user's timeline in the API.
pub open spec fn timeline_url_text(user_id: u64) -> Seq<char> {
    "api/timeline/"@ + decimal(user_id as nat)
}

/// The address of the latest archive of a tweet in the API.
pub open spec fn tweet_url_text(tweet_id: u64) -> Seq<char> {
    "api/status/"@ + decimal(tweet_id as nat) + "/latest"@
}

/// The address of the latest archive of a user in the API.
pub open spec fn user_url_text(user_id: u64) -> Seq<char> {
    "api/user/"@ + decimal(user_id as nat) + "/latest"@
}

pub fn timeline_api_req_url(user_id: u64) -> (u: String)
    ensures
        u@ == timeline_url_text(user_id),
{
    let mut u = String::from_str("api/timeline/");
    append_decimal(&mut u, user_id);
    u
}

pub fn tweet_api_req_url(tweet_id: u64) -> (u: String)
    ensures
        u@ == tweet_url_text(tweet_id),
{
    let mut u = String::from_str("api/status/");
    append_decimal(&mut u, tweet_id);
    u.append("/latest");
    u
}

pub fn user_api_req_url(user_id: u64) -> (u: String)
    ensures
        u@ == user_url_text(user_id),
{
    let mut u = String::from_str("api/user/");
    append_decimal(&mut u, user_id);
    u.append("/latest");
    u
}

proof fn lemma_middle_equal(p: Seq<char>, a: Seq<char>, b: Seq<char>, q: Seq<char>)
    requires
        p + a + q == p + b + q,
    ensures
        a == b,
{
    let x = p + a + q;
    let y = p + b + q;
    assert(x.len() == y.len());
    assert forall|i: int| 0 <= i < a.len() implies a[i] == b[i] by {
        assert(x[p.len() + i] == a[i]);
        assert(y[p.len() + i] == b[i]);
    }
    assert(a =~= b);
}

/// Different users have different addresses: the address names the user.
pub proof fn lemma_user_url_injective(a: u64, b: u64)
    requires
        user_url_text(a) == user_url_text(b),
    ensures
        a == b,
{
    lemma_middle_equal("api/user/"@, decimal(a as nat), decimal(b as nat), "/latest"@);
    lemma_decimal_injective(a as nat, b as nat);
}

/// Different tweets have different addresses: the address names the tweet.
pub proof fn lemma_tweet_url_injective(a: u64, b: u64)
    requires
        tweet_url_text(a) == tweet_url_text(b),
    ensures
        a == b,
{
    lemma_middle_equal("api/status/"@, decimal(a as nat), decimal(b as nat), "/latest"@);
    lemma_decimal_injective(a as nat, b as nat);
}

/// Different users have different timeline addresses.
pub proof fn lemma_timeline_url_injective(a: u64, b: u64)
    requires
        timeline_url_text(a) == timeline_url_text(b),
    ensures
        a == b,
{
    lemma_middle_equal("api/timeline/"@, decimal(a as nat), decimal(b as nat), Seq::empty());
    lemma_decimal_injective(a as nat, b as nat);
}

/// The map function of the view of a user's timeline.
pub open spec fn timeline_map_text(user_id: u64) -> Seq<char> {
    "function (doc) { if (doc.poster == "@ + decimal(user_id as nat) + ") { emit(doc) } } "@
}

/// The view of the tweets posted by `user_id`, without a reduce function.
pub fn timeline_of_user(user_id: u64) -> (v: CouchView)
    ensures
        v.map@ == timeline_map_text(user_id),
        v.reduce is None,
{
    let mut map = String::from_str("function (doc) { if (doc.poster == ");
    append_decimal(&mut map, user_id);
    map.append(") { emit(doc) } } ");
    CouchView { map, reduce: None }
}

/// The path of the URL that `url::Url::parse` reads from `input`, when it
/// reads one.
pub uninterp spec fn parsed_url_path(input: Seq<char>) -> Option<Seq<char>>;

/// Calls `url::Url::parse` and reads the path of the URL it gives. The
/// result depends on the input alone and is named `parsed_url_path`.
#[verifier::external_body]
pub(crate) fn url_path(input: &str) -> (r: Option<String>)
    ensures
        r matches Some(p) ==> parsed_url_path(input@) == Some(p@),
        r is None ==> parsed_url_path(input@) is None,
{
    match url::Url::parse(input) {
        Ok(u) => Some(u.path().to_string()),
        Err(_) => None,
    }
}

/// The segments of a URL path, as `Url::path_segments` gives them: none
/// when the path does not start with `/`, else the rest split on `/`.
pub open spec fn path_segments(path: Seq<char>) -> Option<Seq<Seq<char>>> {
    if path.len() > 0 && path[0] == '/' {
        Some(split_char(path.drop_first(), '/'))
    } else {
        None
    }
}

pub fn url_path_segments(path: &str) -> (r: Option<Vec<String>>)
    ensures
        r matches Some(v) ==> path_segments(path@) == Some(v@.map_values(|s: String| s@)),
        r is None ==> path_segments(path@) is None,
{
    let len = path.unicode_len();
    if len > 0 && path.get_char(0) == '/' {
        let rest = path.substring_char(1, len);
        proof {
            assert(rest@ =~= path@.drop_first());
        }
        Some(split_on(rest, '/'))
    } else {
        None
    }
}

/// The tweet a URL path points to: the number in its third segment, with
/// that segment.
pub open spec fn path_tweet_reference(path: Seq<char>) -> Option<(u64, Seq<char>)> {
    match path_segments(path) {
        Some(segs) => if segs.len() > 2 {
            match parse_u64_spec(segs[2]) {
                Some(id) => Some((id, segs[2])),
                None => None,
            }
        } else {
            None
        },
        None => None,
    }
}

/// The tweet a link points to: the one its path points to.
pub open spec fn tweet_reference(input: Seq<char>) -> Option<(u64, Seq<char>)> {
    match parsed_url_path(input) {
        Some(p) => path_tweet_reference(p),
        None => None,
    }
}

/// Reads the tweet that the path of a link points to.
pub fn path_tweet_id(path: &str) -> (r: Option<(u64, String)>)
    ensures
        r matches Some(t) ==> path_tweet_reference(path@) == Some((t.0, t.1@)),
        r is None ==> path_tweet_reference(path@) is None,
{
    let segs = match url_path_segments(path) {
        Some(s) => s,
        None => return None,
    };
    if segs.len() <= 2 {
        return None;
    }
    let seg = segs[2].clone();
    match parse_u64(seg.as_str()) {
        Some(id) => Some((id, seg)),
        None => None,
    }
}

/// Reads the tweet a link points to.
pub fn read_tweet_reference(input: &str) -> (r: Option<(u64, String)>)
    ensures
        r matches Some(t) ==> tweet_reference(input@) == Some((t.0, t.1@)),
        r is None ==> tweet_reference(input@) is None,
{
    match url_path(input) {
        Some(path) => path_tweet_id(path.as_str()),
        None => None,
    }
}

/// What a search request asks for: accounts whose handle contains a text,
/// an account by id, or a tweet by link; or nothing sensible.
pub enum SearchPlan {
    ByHandle(String),
    ByUserId(u64),
    ByTweet { tweet_id: u64, document: String },
    BadRequest,
}

/// Plans a search from its `handle`, `user_id` and `tweet_id` parameters:
/// a handle wins over a user id, which wins over a tweet link; a user id
/// that is no number, or a link that names no tweet, is a bad request.
pub fn search_plan(handle: Option<String>, user_id: Option<String>, tweet_id: Option<String>) -> (p:
    SearchPlan)
    ensures
        handle matches Some(h) ==> p == SearchPlan::ByHandle(h),
        handle is None && user_id is Some ==> match parse_u64_spec(user_id.unwrap()@) {
            Some(id) => p == SearchPlan::ByUserId(id),
            None => p is BadRequest,
        },
        handle is None && user_id is None && tweet_id is Some ==> match tweet_reference(
            tweet_id.unwrap()@,
        ) {
            Some(t) => p matches SearchPlan::ByTweet { tweet_id, document } && tweet_id == t.0
                && document@ == t.1,
            None => p is BadRequest,
        },
        handle is None && user_id is None && tweet_id is None ==> p is BadRequest,
{
    if let Some(h) = handle {
        return SearchPlan::ByHandle(h);
    }
    if let Some(u) = user_id {
        return match parse_u64(u.as_str()) {
            Some(id) => SearchPlan::ByUserId(id),
            None => SearchPlan::BadRequest,
        };
    }
    if let Some(t) = tweet_id {
        return match read_tweet_reference(t.as_str()) {
            Some((id, document)) => SearchPlan::ByTweet { tweet_id: id, document },
            None => SearchPlan::BadRequest,
        };
    }
    SearchPlan::BadRequest
}

/// One item of a search answer: what was found, facts about it by name,
/// and where the API serves it.
#[derive(Clone, Debug)]
pub struct SearchResponseItem {
    pub item_id: u64,
    pub additional_info: Vec<(String, String)>,
    pub pointer: String,
}

/// An account found by a search, with its handle and snapshot.
pub fn account_search_item(user_id: u64, handle: String, snapshot: u128) -> (item: SearchResponseItem)
    ensures
        item.item_id == user_id,
        item.additional_info@.len() == 2,
        item.additional_info@[0].0@ == "handle"@,
        item.additional_info@[0].1@ == handle@,
        item.additional_info@[1].0@ == "snapshot"@,
        item.additional_info@[1].1@ == uuid_text(snapshot),
        item.pointer@ == user_url_text(user_id),
{
    let mut info: Vec<(String, String)> = Vec::new();
    info.push((String::from_str("handle"), handle));
    info.push((String::from_str("snapshot"), uuid_to_string(snapshot)));
    SearchResponseItem { item_id: user_id, additional_info: info, pointer: user_api_req_url(user_id) }
}

/// A tweet found by a search, with its conversation.
pub fn tweet_search_item(tweet_id: u64, conversation_id: u64) -> (item: SearchResponseItem)
    ensures
        item.item_id == tweet_id,
        item.additional_info@.len() == 1,
        item.additional_info@[0].0@ == "conversation"@,
        item.additional_info@[0].1@ == decimal(conversation_id as nat),
        item.pointer@ == tweet_url_text(tweet_id),
{
    let mut conversation = String::new();
    append_decimal(&mut conversation, conversation_id);
    let mut info: Vec<(String, String)> = Vec::new();
    info.push((String::from_str("conversation"), conversation));
    SearchResponseItem {
        item_id: tweet_id,
        additional_info: info,
        pointer: tweet_api_req_url(tweet_id),
    }
}

/// A handle record of the archive: the account, its handle, and the
/// snapshot it was seen in.
pub struct HandleRecord {
    pub user_id: u64,
    pub handle: String,
    pub snapshot: u128,
}

/// The items answering a handle search: one per record, in order.
pub fn handle_search_items(records: Vec<HandleRecord>) -> (items: Vec<SearchResponseItem>)
    ensures
        items@.len() == records@.len(),
        forall|i: int|
            0 <= i < items@.len() ==> {
                &&& #[trigger] items@[i].item_id == records@[i].user_id
                &&& items@[i].additional_info@.len() == 2
                &&& items@[i].additional_info@[0].0@ == "handle"@
                &&& items@[i].additional_info@[0].1@ == records@[i].handle@
                &&& items@[i].additional_info@[1].0@ == "snapshot"@
                &&& items@[i].additional_info@[1].1@ == uuid_text(records@[i].snapshot)
                &&& items@[i].pointer@ == user_url_text(records@[i].user_id)
            },
{
    let ghost orig = records@;
    let mut rest = records;
    let mut items: Vec<SearchResponseItem> = Vec::new();
    while rest.len() > 0
        invariant
            items@.len() + rest@.len() == orig.len(),
            rest@ == orig.skip(items@.len() as int),
            forall|i: int|
                0 <= i < items@.len() ==> {
                    &&& #[trigger] items@[i].item_id == orig[i].user_id
                    &&& items@[i].additional_info@.len() == 2
                    &&& items@[i].additional_info@[0].0@ == "handle"@
                    &&& items@[i].additional_info@[0].1@ == orig[i].handle@
                    &&& items@[i].additional_info@[1].0@ == "snapshot"@
                    &&& items@[i].additional_info@[1].1@ == uuid_text(orig[i].snapshot)
                    &&& items@[i].pointer@ == user_url_text(orig[i].user_id)
                },
        decreases rest@.len(),
    {
        let r = rest.remove(0);
        proof {
            assert(r == orig[items@.len() as int]);
            assert(rest@ =~= orig.skip(items@.len() as int + 1));
        }
        items.push(account_search_item(r.user_id, r.handle, r.snapshot));
    }
    items
}

/// Which snapshot of a user is asked for: one by its UUID, or a word.
pub enum SnapshotTag {
    Uuid(u128),
    Text(String),
}

/// The snapshot to serve: a given one, or the latest.
#[derive(Clone, Copy, Debug, PartialEq, Eq, Structural)]
pub enum SnapshotChoice {
    Exact(u128),
    Latest,
}

/// Resolves the snapshot part of a user request: a UUID names a snapshot,
/// the word `latest` the latest one, any other word is a bad request.
pub fn resolve_snapshot_tag(tag: SnapshotTag) -> (r: Result<SnapshotChoice, u16>)
    ensures
        tag matches SnapshotTag::Uuid(u) ==> r == Ok::<SnapshotChoice, u16>(SnapshotChoice::Exact(u)),
        tag matches SnapshotTag::Text(t) ==> (t@ == "latest"@ ==> r == Ok::<SnapshotChoice, u16>(
            SnapshotChoice::Latest,
        )) && (t@ != "latest"@ ==> r == Err::<SnapshotChoice, u16>(BAD_REQUEST)),
{
    match tag {
        SnapshotTag::Uuid(u) => Ok(SnapshotChoice::Exact(u)),
        SnapshotTag::Text(t) => {
            if t == String::from_str("latest") {
                Ok(SnapshotChoice::Latest)
            } else {
                Err(BAD_REQUEST)
            }
        },
    }
}

} // verus!
