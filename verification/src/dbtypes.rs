//! Diff records of the archive database: which ids were added to or
//! removed from a follower or following list, and a tweet's place.

use vstd::prelude::*;

verus! {

/// One change to a list of account ids.
#[derive(Clone, Copy, Debug, PartialEq, Eq, Structural, PartialOrd)]
pub enum AddRemoveId {
    Added(u64),
    Removed(u64),
}

/// The changes to a list of account ids, with the list's size after them.
#[derive(Clone, Debug)]
pub struct CountedDiff {
    pub count: u64,
    pub diff: Vec<AddRemoveId>,
}

/// A tweet and the account that posted it.
#[derive(Clone, Copy, Debug, PartialEq, Eq, Structural)]
pub struct TweetDiff {
    pub id: u64,
    pub user: u64,
}

} // verus!
