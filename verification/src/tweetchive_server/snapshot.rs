//! What the server tells about an archival snapshot.

use crate::tweetchive_core::rabbitmq::Timestamp;
use vstd::prelude::*;

verus! {

/// Whether a snapshot is still being taken, or when it ended.
#[derive(Clone, Copy, Debug, PartialEq, Eq, Structural)]
pub enum SnapshotStatus {
    Ongoing,
    Ended(Timestamp),
}

/// A stored snapshot.
pub struct SnapshotRecord {
    pub start: Timestamp,
    pub finish: Option<Timestamp>,
    pub init_args: String,
    pub started_by: String,
    pub priority: i32,
}

/// The answer about a snapshot.
pub struct SnapshotSearchResponse {
    pub snapshot: u128,
    pub init: Timestamp,
    pub args: String,
    pub status: SnapshotStatus,
    pub started_by: String,
    pub priority: i32,
}

/// The answer about snapshot `snapshot` from its stored record: ended when
/// the record has a finish time, ongoing otherwise.
pub fn snapshot_response(snapshot: u128, record: SnapshotRecord) -> (r: SnapshotSearchResponse)
    ensures
        r.snapshot == snapshot,
        r.init == record.start,
        r.args == record.init_args,
        r.started_by == record.started_by,
        r.priority == record.priority,
        record.finish matches Some(t) ==> r.status == SnapshotStatus::Ended(t),
        record.finish is None ==> r.status == SnapshotStatus::Ongoing,
{
    let status = match record.finish {
        Some(t) => SnapshotStatus::Ended(t),
        None => SnapshotStatus::Ongoing,
    };
    SnapshotSearchResponse {
        snapshot,
        init: record.start,
        args: record.init_args,
        status,
        started_by: record.started_by,
        priority: record.priority,
    }
}

} // verus!
