//! What the request loop does with each delivery from the request queue.

use crate::text::{parse_u64, parse_u64_spec};
use crate::tweetchive_core::rabbitmq::{ArchivalRequest, ArchivalType};
use vstd::prelude::*;

verus! {

/// What came out of the request queue: nothing, a broken delivery, a
/// delivery whose bytes are no request, or a request.
pub enum Delivery {
    Missing,
    Broken,
    Undecodable,
    Request(ArchivalRequest),
}

/// What the loop does with a delivery: pass over it, or start the crawl of
/// a user or of a thread for the request.
#[derive(Clone, Copy, Debug, PartialEq, Eq, Structural)]
pub enum ListenAction {
    Skip,
    ArchiveUser { archival_id: u128, user: u64 },
    ArchiveTweetThread { archival_id: u128, tweet_id: u64 },
}

/// The action for a delivery. A user is named by the decimal id of the
/// account; a name that is no such id is passed over.
pub open spec fn listen_decision(d: Delivery) -> ListenAction {
    match d {
        Delivery::Request(req) => match req.arc_type {
            ArchivalType::User { user } => match parse_u64_spec(user@) {
                Some(id) => ListenAction::ArchiveUser { archival_id: req.archival_id, user: id },
                None => ListenAction::Skip,
            },
            ArchivalType::TweetThread { tweet_id } => ListenAction::ArchiveTweetThread {
                archival_id: req.archival_id,
                tweet_id,
            },
        },
        _ => ListenAction::Skip,
    }
}

/// Decides what the request loop does with a delivery.
pub fn listen_action(d: Delivery) -> (a: ListenAction)
    ensures
        a == listen_decision(d),
{
    match d {
        Delivery::Request(req) => match req.arc_type {
            ArchivalType::User { user } => match parse_u64(user.as_str()) {
                Some(id) => ListenAction::ArchiveUser { archival_id: req.archival_id, user: id },
                None => ListenAction::Skip,
            },
            ArchivalType::TweetThread { tweet_id } => ListenAction::ArchiveTweetThread {
                archival_id: req.archival_id,
                tweet_id,
            },
        },
        _ => ListenAction::Skip,
    }
}

} // verus!
