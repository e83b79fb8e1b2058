//! Messages exchanged over the work queues: worker registration, archival
//! requests, and the archived results.

use vstd::prelude::*;
use vstd::string::*;

verus! {

/// Queue on which workers announce themselves.
pub const REGISTRATION_QUEUE: &'static str = "register_me";

/// Queue on which workers are answered.
pub const REGISTRATION_QUEUE_CALLBACK: &'static str = "register_me";

/// Queue of archival requests.
pub const REQUEST_QUEUE: &'static str = "request";

/// Queue of archived users.
pub const USER_ARCHIVED_QUEUE: &'static str = "user_archived";

/// Queue of archived tweets.
pub const TWEETS_ARCHIVED_QUEUE: &'static str = "tweets_archived";

/// Queue of archived media.
pub const MEDIA_ARCHIVED_QUEUE: &'static str = "media_archived";

/// A worker's announcement of itself.
#[derive(Clone, Debug)]
pub struct RegisterMePlease {
    pub name: String,
    pub weight: u32,
}

/// The answer to a worker's announcement: the machine id it was given,
/// or why it was turned away.
#[derive(Clone, Debug)]
pub enum RegistrationResult {
    Accepted { machine_id: u8 },
    Refused(String),
}

/// What to archive.
#[derive(Clone, Debug)]
pub enum ArchivalType {
    User { user: String },
    TweetThread { tweet_id: u64 },
}

/// A request to archive something; `archival_id` is the request's UUID as
/// a 128-bit number.
#[derive(Clone, Debug)]
pub struct ArchivalRequest {
    pub archival_id: u128,
    pub arc_type: ArchivalType,
}

/// The last tweet seen of a user in an earlier archive.
#[derive(Clone, Copy, Debug, PartialEq, Eq, Structural)]
pub struct ArchiveUserPrevious {
    pub tweet: u64,
}

/// A point in time: seconds since the Unix epoch and nanoseconds within
/// that second.
#[derive(Clone, Copy, Debug, PartialEq, Eq, Structural)]
pub struct Timestamp {
    pub secs: i64,
    pub nanos: u32,
}

/// The kind of an archived media file.
#[derive(Clone, Copy, Debug, PartialEq, Eq, Structural, Hash)]
pub enum MediaType {
    Picture,
    Gif,
    Video,
}

impl MediaType {
    /// The name under which the kind is shown.
    pub open spec fn name(self) -> Seq<char> {
        match self {
            MediaType::Picture => "Picture"@,
            MediaType::Gif => "Gif"@,
            MediaType::Video => "Video"@,
        }
    }

    /// The kind's name: `Picture`, `Gif` or `Video`.
    pub fn to_string(&self) -> (s: String)
        ensures
            s@ == self.name(),
    {
        match self {
            MediaType::Picture => String::from_str("Picture"),
            MediaType::Gif => String::from_str("Gif"),
            MediaType::Video => String::from_str("Video"),
        }
    }
}

/// A media file that was stored for an archive.
#[derive(Clone, Debug)]
pub struct ArchivedMedia {
    pub archival_id: u128,
    pub media_id: String,
    pub media_type: MediaType,
    pub content_type: String,
    pub retrieved: Timestamp,
}

/// What was archived of a tweet thread.
pub struct ArchivedTweetData<T, U> {
    pub tweets: Vec<T>,
    pub users: Vec<U>,
    pub media: Vec<ArchivedMedia>,
}

/// The answer to a thread archival request.
pub struct ArchivedTweets<T, U> {
    pub archival_id: u128,
    pub tweets: Result<ArchivedTweetData<T, U>, String>,
    pub retrieved: Timestamp,
}

/// What was archived of a user.
pub struct ArchivedUserData<T, U> {
    pub user: U,
    pub others: Vec<U>,
    pub tweets: Vec<T>,
    pub media: Vec<ArchivedMedia>,
    pub followers: Vec<U>,
    pub following: Vec<U>,
}

/// The answer to a user archival request.
pub struct ArchivedUser<T, U> {
    pub archival_id: u128,
    pub user: Result<ArchivedUserData<T, U>, String>,
    pub retrieved: Timestamp,
}

} // verus!
