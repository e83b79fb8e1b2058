//! The CouchDB queries behind the timeline, thread and tweet lookups.

use vstd::prelude::*;

verus! {

/// How many tweets a timeline page holds.
pub const TIMELINE_PAGE_SIZE: u64 = 30;

/// A view query: the key to look up, how many rows to pass over, and how
/// many rows to return at most.
#[derive(Clone, Copy, Debug, PartialEq, Eq, Structural)]
pub struct ViewQuery {
    pub key: u64,
    pub skip: Option<u64>,
    pub limit: Option<u64>,
}

/// The query for page `page` of the timeline of `id`: thirty tweets,
/// passing over the thirty of each earlier page; without a page, the first
/// thirty.
pub fn timeline_query(id: u64, page: Option<u32>) -> (q: ViewQuery)
    ensures
        q.key == id,
        q.limit == Some(TIMELINE_PAGE_SIZE),
        page matches Some(p) ==> q.skip == Some((TIMELINE_PAGE_SIZE * p) as u64),
        page is None ==> q.skip is None,
{
    let skip = match page {
        Some(p) => Some(TIMELINE_PAGE_SIZE * (p as u64)),
        None => None,
    };
    ViewQuery { key: id, skip, limit: Some(TIMELINE_PAGE_SIZE) }
}

/// The query for the tweets of conversation `conversation_id`.
pub fn thread_query(conversation_id: u64) -> (q: ViewQuery)
    ensures
        q == (ViewQuery { key: conversation_id, skip: None, limit: None }),
{
    ViewQuery { key: conversation_id, skip: None, limit: None }
}

/// The query for the document of tweet `id`, looked up under any of the ids
/// it was seen under.
pub fn tweet_query(id: u64) -> (q: ViewQuery)
    ensures
        q == (ViewQuery { key: id, skip: None, limit: None }),
{
    ViewQuery { key: id, skip: None, limit: None }
}

/// The document a tweet lookup leads to: the document id of the first row
/// the view returned, if there is a row and it has one.
pub fn first_document_id(rows: Vec<Option<String>>) -> (r: Option<String>)
    ensures
        rows@.len() == 0 ==> r is None,
        rows@.len() > 0 ==> r == rows@[0],
{
    let mut rows = rows;
    if rows.len() == 0 {
        None
    } else {
        rows.remove(0)
    }
}

} // verus!
