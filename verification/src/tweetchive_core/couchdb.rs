//! The CouchDB databases that hold the archived documents.

use vstd::prelude::*;

verus! {

/// The database of follower lists.
pub const FOLLOWERS: &'static str = "followers";

/// The database of followed-account lists.
pub const FOLLOWING: &'static str = "following";

/// The database of archived tweets.
pub const TWEETS: &'static str = "tweets";

/// The database of archived users.
pub const USERS: &'static str = "users";

} // verus!
