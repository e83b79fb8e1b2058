//! Types shared between the scraper and the server: follower diffs and the
//! messages of the work queues.

pub mod couchdb;
pub mod rabbitmq;

use vstd::prelude::*;

verus! {

/// One change to a list of account ids.
#[derive(Clone, Copy, Debug, PartialEq, Eq, Structural, PartialOrd)]
pub enum AddRemoveId {
    Added(u64),
    Removed(u64),
}

/// The changes to a list of account ids, with the list's size after them.
#[derive(Clone, Debug)]
pub struct CountedDiff {
    pub count: u64,
    pub diff: Vec<AddRemoveId>,
}

} // verus!
