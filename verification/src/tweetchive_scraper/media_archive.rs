//! Storing the media of archived tweets. Each attachment is looked at in
//! turn: one already stored is passed over; videos and gifs are fetched as
//! videos, pictures and images as images, other kinds are passed over; a
//! fetched file is uploaded, and only an uploaded file is recorded.
//! Failed fetches and uploads pass over the attachment.

use crate::strings::{contains_str, has_infix, lowercase, to_lowercase};
use crate::tweetchive_core::rabbitmq::{ArchivedMedia, MediaType, Timestamp};
use crate::tweetchive_scraper::crawl::MediaRef;
use vstd::prelude::*;

verus! {

/// How an attachment is fetched.
#[derive(Clone, Copy, Debug, PartialEq, Eq, Structural)]
pub enum MediaKind {
    Animated,
    Still,
    Unknown,
}

/// The fetch for an attachment whose lower-cased type is `lowered`.
pub open spec fn media_kind(lowered: Seq<char>) -> MediaKind {
    if has_infix(lowered, "video"@) || has_infix(lowered, "gif"@) {
        MediaKind::Animated
    } else if has_infix(lowered, "picture"@) || has_infix(lowered, "image"@) {
        MediaKind::Still
    } else {
        MediaKind::Unknown
    }
}

/// The kind recorded for a stored attachment of lower-cased type `lowered`.
pub open spec fn archived_media_type(lowered: Seq<char>) -> MediaType {
    if has_infix(lowered, "video"@) {
        MediaType::Video
    } else {
        MediaType::Gif
    }
}

/// Decides how to fetch an attachment from its lower-cased type.
pub fn classify_media(lowered: &str) -> (k: MediaKind)
    ensures
        k == media_kind(lowered@),
{
    if contains_str(lowered, "video") || contains_str(lowered, "gif") {
        MediaKind::Animated
    } else if contains_str(lowered, "picture") || contains_str(lowered, "image") {
        MediaKind::Still
    } else {
        MediaKind::Unknown
    }
}

/// The kind recorded for an attachment of lower-cased type `lowered`:
/// `Video` when the type mentions video, `Gif` otherwise.
pub fn media_type_of(lowered: &str) -> (t: MediaType)
    ensures
        t == archived_media_type(lowered@),
{
    if contains_str(lowered, "video") {
        MediaType::Video
    } else {
        MediaType::Gif
    }
}

/// What the caller is asked to do next.
pub enum MediaAction {
    DownloadVideo { url: String },
    DownloadImage { url: String },
    Upload { key: String, content_type: String },
    Finish,
}

/// The same, with strings by their characters.
pub enum MediaActionView {
    DownloadVideo(Seq<char>),
    DownloadImage(Seq<char>),
    Upload(Seq<char>, Seq<char>),
    Finish,
}

impl MediaAction {
    pub open spec fn view(&self) -> MediaActionView {
        match self {
            MediaAction::DownloadVideo { url } => MediaActionView::DownloadVideo(url@),
            MediaAction::DownloadImage { url } => MediaActionView::DownloadImage(url@),
            MediaAction::Upload { key, content_type } => MediaActionView::Upload(key@, content_type@),
            MediaAction::Finish => MediaActionView::Finish,
        }
    }
}

/// What the caller reports back: the content type of a fetched file (or
/// that the fetch failed), or whether the upload succeeded and when.
pub enum MediaEvent {
    Downloaded(Option<String>),
    Uploaded { stored: bool, retrieved: Timestamp },
}

#[derive(Clone, Copy, Debug, PartialEq, Eq, Structural)]
pub enum MediaStage {
    Downloading,
    Uploading,
    Finished,
}

/// A media archive between two steps.
pub struct MediaArchive {
    pub archival_id: u128,
    pub stage: MediaStage,
    pub queue: Vec<MediaRef>,
    pub current: Option<MediaRef>,
    pub lowered: String,
    pub content_type: String,
    pub records: Vec<ArchivedMedia>,
}

/// A media archive as the specification sees it.
pub struct MediaState {
    pub archival_id: u128,
    pub stage: MediaStage,
    pub queue: Seq<MediaRef>,
    pub current: Option<MediaRef>,
    pub lowered: Seq<char>,
    pub content_type: String,
    pub records: Seq<ArchivedMedia>,
}

/// An attachment with key `key` is among `records`.
pub open spec fn is_recorded(records: Seq<ArchivedMedia>, key: Seq<char>) -> bool {
    exists|i: int| 0 <= i < records.len() && #[trigger] records[i].media_id@ == key
}

/// No attachment is recorded twice.
pub open spec fn distinct_records(records: Seq<ArchivedMedia>) -> bool {
    forall|i: int, j: int|
        0 <= i < records.len() && 0 <= j < records.len() && i != j ==> #[trigger] records[i].media_id@
            != #[trigger] records[j].media_id@
}

/// The attachment being fetched or uploaded is not recorded yet.
pub open spec fn media_state_ok(s: MediaState) -> bool {
    &&& distinct_records(s.records)
    &&& s.stage != MediaStage::Finished ==> (s.current matches Some(m) && !is_recorded(
        s.records,
        m.key@,
    ))
}

/// Looks at the remaining attachments in turn until one must be fetched.
pub open spec fn plan_media(s: MediaState) -> (MediaState, MediaActionView)
    decreases s.queue.len(),
{
    if s.queue.len() == 0 {
        (MediaState { stage: MediaStage::Finished, current: None, ..s }, MediaActionView::Finish)
    } else {
        let m = s.queue[0];
        let rest = MediaState { queue: s.queue.drop_first(), ..s };
        if is_recorded(s.records, m.key@) {
            plan_media(rest)
        } else {
            let low = lowercase(m.kind@);
            match media_kind(low) {
                MediaKind::Animated => (
                    MediaState {
                        stage: MediaStage::Downloading,
                        current: Some(m),
                        lowered: low,
                        ..rest
                    },
                    MediaActionView::DownloadVideo(m.url@),
                ),
                MediaKind::Still => (
                    MediaState {
                        stage: MediaStage::Downloading,
                        current: Some(m),
                        lowered: low,
                        ..rest
                    },
                    MediaActionView::DownloadImage(m.url@),
                ),
                MediaKind::Unknown => plan_media(rest),
            }
        }
    }
}

/// The request that is still open in a state.
pub open spec fn pending_action(s: MediaState) -> MediaActionView {
    match s.stage {
        MediaStage::Downloading => if media_kind(s.lowered) == MediaKind::Animated {
            MediaActionView::DownloadVideo(s.current.unwrap().url@)
        } else {
            MediaActionView::DownloadImage(s.current.unwrap().url@)
        },
        MediaStage::Uploading => MediaActionView::Upload(s.current.unwrap().key@, s.content_type@),
        MediaStage::Finished => MediaActionView::Finish,
    }
}

/// One step of the media archive on a reported event. An event that does
/// not answer the open request changes nothing and repeats the request.
pub open spec fn media_step(s: MediaState, e: MediaEvent) -> (MediaState, MediaActionView) {
    match (s.stage, e) {
        (MediaStage::Downloading, MediaEvent::Downloaded(None)) => plan_media(
            MediaState { current: None, ..s },
        ),
        (MediaStage::Downloading, MediaEvent::Downloaded(Some(ct))) => (
            MediaState { stage: MediaStage::Uploading, content_type: ct, ..s },
            MediaActionView::Upload(s.current.unwrap().key@, ct@),
        ),
        (MediaStage::Uploading, MediaEvent::Uploaded { stored, retrieved }) => {
            let m = s.current.unwrap();
            let records = if stored {
                s.records.push(
                    ArchivedMedia {
                        archival_id: s.archival_id,
                        media_id: m.key,
                        media_type: archived_media_type(s.lowered),
                        content_type: s.content_type,
                        retrieved,
                    },
                )
            } else {
                s.records
            };
            plan_media(MediaState { current: None, records, ..s })
        },
        _ => (s, pending_action(s)),
    }
}

pub proof fn lemma_plan_media_ok(s: MediaState)
    requires
        distinct_records(s.records),
    ensures
        media_state_ok(plan_media(s).0),
        plan_media(s).0.records == s.records,
        plan_media(s).0.archival_id == s.archival_id,
        plan_media(s).0.content_type == s.content_type,
        plan_media(s).1 == pending_action(plan_media(s).0),
    decreases s.queue.len(),
{
    if s.queue.len() > 0 {
        let m = s.queue[0];
        let rest = MediaState { queue: s.queue.drop_first(), ..s };
        lemma_plan_media_ok(rest);
    }
}

/// Every step keeps the records free of repeats, and keeps the attachment
/// in hand unrecorded until its upload succeeds.
pub proof fn lemma_media_step_ok(s: MediaState, e: MediaEvent)
    requires
        media_state_ok(s),
    ensures
        media_state_ok(media_step(s, e).0),
{
    match (s.stage, e) {
        (MediaStage::Downloading, MediaEvent::Downloaded(None)) => {
            lemma_plan_media_ok(MediaState { current: None, ..s });
        },
        (MediaStage::Uploading, MediaEvent::Uploaded { stored, retrieved }) => {
            let m = s.current.unwrap();
            let r = ArchivedMedia {
                archival_id: s.archival_id,
                media_id: m.key,
                media_type: archived_media_type(s.lowered),
                content_type: s.content_type,
                retrieved,
            };
            let records = if stored {
                s.records.push(r)
            } else {
                s.records
            };
            assert(distinct_records(records)) by {
                if stored {
                    assert forall|i: int, j: int|
                        0 <= i < records.len() && 0 <= j < records.len() && i != j implies #[trigger] records[i].media_id@
                        != #[trigger] records[j].media_id@ by {
                        if i == s.records.len() {
                            assert(records[j] == s.records[j]);
                        } else if j == s.records.len() {
                            assert(records[i] == s.records[i]);
                        } else {
                            assert(records[i] == s.records[i]);
                            assert(records[j] == s.records[j]);
                        }
                    }
                }
            }
            lemma_plan_media_ok(MediaState { current: None, records, ..s });
        },
        _ => {},
    }
}

/// An attachment that is recorded stays recorded, and keeps its record.
pub proof fn lemma_media_step_keeps_records(s: MediaState, e: MediaEvent)
    requires
        media_state_ok(s),
    ensures
        media_step(s, e).0.records.len() >= s.records.len(),
        forall|i: int|
            0 <= i < s.records.len() ==> #[trigger] media_step(s, e).0.records[i] == s.records[i],
{
    match (s.stage, e) {
        (MediaStage::Downloading, MediaEvent::Downloaded(None)) => {
            lemma_plan_media_ok(MediaState { current: None, ..s });
        },
        (MediaStage::Uploading, MediaEvent::Uploaded { stored, retrieved }) => {
            let m = s.current.unwrap();
            let records = if stored {
                s.records.push(
                    ArchivedMedia {
                        archival_id: s.archival_id,
                        media_id: m.key,
                        media_type: archived_media_type(s.lowered),
                        content_type: s.content_type,
                        retrieved,
                    },
                )
            } else {
                s.records
            };
            lemma_plan_media_ok(MediaState { current: None, records, ..s });
        },
        _ => {},
    }
}

/// An attachment that the archive passes over: one already recorded, or
/// one whose kind is neither video nor gif nor picture nor image.
pub open spec fn passed_over(records: Seq<ArchivedMedia>, m: MediaRef) -> bool {
    is_recorded(records, m.key@) || media_kind(lowercase(m.kind@)) == MediaKind::Unknown
}

/// Looking for the next attachment passes over exactly the attachments it
/// should: the archive finishes only when every queued attachment is passed
/// over; otherwise it takes up the first one that is not, drops the ones
/// before it, and fetches it as a video when it is a video or a gif and as
/// an image otherwise.
pub proof fn lemma_plan_media_takes_first(s: MediaState)
    ensures
        plan_media(s).0.stage == MediaStage::Finished <==> forall|i: int|
            0 <= i < s.queue.len() ==> passed_over(s.records, #[trigger] s.queue[i]),
        plan_media(s).0.stage != MediaStage::Finished ==> exists|j: int|
            {
                &&& 0 <= j < s.queue.len()
                &&& !passed_over(s.records, #[trigger] s.queue[j])
                &&& forall|i: int| 0 <= i < j ==> passed_over(s.records, #[trigger] s.queue[i])
                &&& plan_media(s).0.current == Some(s.queue[j])
                &&& plan_media(s).0.queue == s.queue.skip(j + 1)
                &&& plan_media(s).0.stage == MediaStage::Downloading
                &&& plan_media(s).1 == (if media_kind(lowercase(s.queue[j].kind@)) == MediaKind::Animated {
                    MediaActionView::DownloadVideo(s.queue[j].url@)
                } else {
                    MediaActionView::DownloadImage(s.queue[j].url@)
                })
            },
    decreases s.queue.len(),
{
    if s.queue.len() > 0 {
        let m = s.queue[0];
        let rest = MediaState { queue: s.queue.drop_first(), ..s };
        assert forall|i: int| 0 <= i < rest.queue.len() implies #[trigger] rest.queue[i] == s.queue[i + 1] by {}
        if passed_over(s.records, m) {
            lemma_plan_media_takes_first(rest);
            assert(plan_media(s) == plan_media(rest));
            if plan_media(s).0.stage == MediaStage::Finished {
                assert forall|i: int| 0 <= i < s.queue.len() implies passed_over(s.records, #[trigger] s.queue[i]) by {
                    if i > 0 {
                        assert(s.queue[i] == rest.queue[i - 1]);
                    }
                }
            } else {
                let j = choose|j: int|
                    {
                        &&& 0 <= j < rest.queue.len()
                        &&& !passed_over(rest.records, #[trigger] rest.queue[j])
                        &&& forall|i: int| 0 <= i < j ==> passed_over(rest.records, #[trigger] rest.queue[i])
                        &&& plan_media(rest).0.current == Some(rest.queue[j])
                        &&& plan_media(rest).0.queue == rest.queue.skip(j + 1)
                        &&& plan_media(rest).0.stage == MediaStage::Downloading
                        &&& plan_media(rest).1 == (if media_kind(lowercase(rest.queue[j].kind@))
                            == MediaKind::Animated {
                            MediaActionView::DownloadVideo(rest.queue[j].url@)
                        } else {
                            MediaActionView::DownloadImage(rest.queue[j].url@)
                        })
                    };
                assert(s.queue[j + 1] == rest.queue[j]);
                assert forall|i: int| 0 <= i < j + 1 implies passed_over(s.records, #[trigger] s.queue[i]) by {
                    if i > 0 {
                        assert(s.queue[i] == rest.queue[i - 1]);
                    }
                }
                assert(rest.queue.skip(j + 1) =~= s.queue.skip(j + 2));
                assert(!(forall|i: int| 0 <= i < s.queue.len() ==> passed_over(s.records, #[trigger] s.queue[i])));
            }
        } else {
            assert(s.queue.drop_first() =~= s.queue.skip(1));
            assert(!(forall|i: int| 0 <= i < s.queue.len() ==> passed_over(s.records, #[trigger] s.queue[i])));
            assert(plan_media(s).0.current == Some(s.queue[0]));
        }
    }
}

/// Every recorded attachment, every queued one and the one in hand has its
/// key among `keys`.
pub open spec fn media_keys_within(s: MediaState, keys: Set<Seq<char>>) -> bool {
    &&& forall|i: int| 0 <= i < s.records.len() ==> keys.contains(#[trigger] s.records[i].media_id@)
    &&& forall|i: int| 0 <= i < s.queue.len() ==> keys.contains(#[trigger] s.queue[i].key@)
    &&& s.current matches Some(m) ==> keys.contains(m.key@)
}

proof fn lemma_plan_media_keys(s: MediaState, keys: Set<Seq<char>>)
    requires
        media_keys_within(s, keys),
    ensures
        media_keys_within(plan_media(s).0, keys),
    decreases s.queue.len(),
{
    if s.queue.len() > 0 {
        let rest = MediaState { queue: s.queue.drop_first(), ..s };
        assert(keys.contains(s.queue[0].key@));
        assert forall|i: int| 0 <= i < rest.queue.len() implies keys.contains(#[trigger] rest.queue[i].key@) by {
            assert(rest.queue[i] == s.queue[i + 1]);
        }
        lemma_plan_media_keys(rest, keys);
    }
}

/// An archive records only attachments it was given: when the keys of all
/// attachments queued, recorded or in hand lie in `keys` (as they do from
/// the start, taking `keys` as the keys of the queue it started with), they
/// still do after any step.
pub proof fn lemma_media_step_keys(s: MediaState, e: MediaEvent, keys: Set<Seq<char>>)
    requires
        media_state_ok(s),
        media_keys_within(s, keys),
    ensures
        media_keys_within(media_step(s, e).0, keys),
{
    match (s.stage, e) {
        (MediaStage::Downloading, MediaEvent::Downloaded(None)) => {
            lemma_plan_media_keys(MediaState { current: None, ..s }, keys);
        },
        (MediaStage::Uploading, MediaEvent::Uploaded { stored, retrieved }) => {
            let m = s.current.unwrap();
            let records = if stored {
                s.records.push(
                    ArchivedMedia {
                        archival_id: s.archival_id,
                        media_id: m.key,
                        media_type: archived_media_type(s.lowered),
                        content_type: s.content_type,
                        retrieved,
                    },
                )
            } else {
                s.records
            };
            let next = MediaState { current: None, records, ..s };
            assert forall|i: int| 0 <= i < next.records.len() implies keys.contains(#[trigger] next.records[i].media_id@) by {
                if i < s.records.len() {
                    assert(next.records[i] == s.records[i]);
                }
            }
            lemma_plan_media_keys(next, keys);
        },
        _ => {},
    }
}

/// How much work an archive has left at most, counted in answered requests.
pub open spec fn media_work_left(s: MediaState) -> nat {
    let per_stage: nat = match s.stage {
        MediaStage::Downloading => 2,
        MediaStage::Uploading => 1,
        MediaStage::Finished => 0,
    };
    2 * s.queue.len() + per_stage
}

/// An event answers the open request: a download's outcome while
/// downloading, an upload's while uploading.
pub open spec fn answers(s: MediaState, e: MediaEvent) -> bool {
    match (s.stage, e) {
        (MediaStage::Downloading, MediaEvent::Downloaded(_)) => true,
        (MediaStage::Uploading, MediaEvent::Uploaded { .. }) => true,
        _ => false,
    }
}

proof fn lemma_plan_media_work(s: MediaState)
    ensures
        media_work_left(plan_media(s).0) <= 2 * s.queue.len(),
    decreases s.queue.len(),
{
    if s.queue.len() > 0 {
        lemma_plan_media_work(MediaState { queue: s.queue.drop_first(), ..s });
    }
}

/// A media archive always ends: every event that answers the open request
/// leaves it less work.
pub proof fn lemma_media_step_progress(s: MediaState, e: MediaEvent)
    requires
        answers(s, e),
    ensures
        media_work_left(media_step(s, e).0) < media_work_left(s),
{
    match (s.stage, e) {
        (MediaStage::Downloading, MediaEvent::Downloaded(None)) => {
            lemma_plan_media_work(MediaState { current: None, ..s });
        },
        (MediaStage::Uploading, MediaEvent::Uploaded { stored, retrieved }) => {
            let m = s.current.unwrap();
            let records = if stored {
                s.records.push(
                    ArchivedMedia {
                        archival_id: s.archival_id,
                        media_id: m.key,
                        media_type: archived_media_type(s.lowered),
                        content_type: s.content_type,
                        retrieved,
                    },
                )
            } else {
                s.records
            };
            lemma_plan_media_work(MediaState { current: None, records, ..s });
        },
        _ => {},
    }
}

impl MediaArchive {
    pub open spec fn state(&self) -> MediaState {
        MediaState {
            archival_id: self.archival_id,
            stage: self.stage,
            queue: self.queue@,
            current: self.current,
            lowered: self.lowered@,
            content_type: self.content_type,
            records: self.records@,
        }
    }

    /// Whether an attachment with key `key` is recorded.
    fn recorded(&self, key: &String) -> (b: bool)
        ensures
            b == is_recorded(self.records@, key@),
    {
        let mut i: usize = 0;
        while i < self.records.len()
            invariant
                i <= self.records@.len(),
                forall|j: int| 0 <= j < i ==> #[trigger] self.records@[j].media_id@ != key@,
            decreases self.records@.len() - i,
        {
            if self.records[i].media_id == *key {
                return true;
            }
            i = i + 1;
        }
        false
    }

    /// Moves on to the next attachment that must be fetched.
    fn plan(&mut self) -> (a: MediaAction)
        ensures
            (final(self).state(), a@) == plan_media(old(self).state()),
    {
        loop
            invariant
                plan_media(self.state()) == plan_media(old(self).state()),
            decreases self.queue@.len(),
        {
            if self.queue.len() == 0 {
                self.stage = MediaStage::Finished;
                self.current = None;
                return MediaAction::Finish;
            }
            let ghost before = self.state();
            let m = self.queue.remove(0);
            proof {
                assert(self.queue@ =~= before.queue.drop_first());
            }
            if self.recorded(&m.key) {
                continue ;
            }
            let low = to_lowercase(m.kind.as_str());
            match classify_media(low.as_str()) {
                MediaKind::Animated => {
                    let url = m.url.clone();
                    self.current = Some(m);
                    self.lowered = low;
                    self.stage = MediaStage::Downloading;
                    return MediaAction::DownloadVideo { url };
                },
                MediaKind::Still => {
                    let url = m.url.clone();
                    self.current = Some(m);
                    self.lowered = low;
                    self.stage = MediaStage::Downloading;
                    return MediaAction::DownloadImage { url };
                },
                MediaKind::Unknown => {
                    continue ;
                },
            }
        }
    }

    /// Starts an archive of the attachments `queue`, in order, for the
    /// archival request `archival_id`.
    pub fn new(archival_id: u128, queue: Vec<MediaRef>) -> (r: (MediaArchive, MediaAction))
        ensures
            (r.0.state(), r.1@) == plan_media(
                MediaState {
                    archival_id,
                    stage: MediaStage::Finished,
                    queue: queue@,
                    current: None,
                    lowered: Seq::empty(),
                    content_type: r.0.content_type,
                    records: Seq::empty(),
                },
            ),
            media_state_ok(r.0.state()),
    {
        let mut a = MediaArchive {
            archival_id,
            stage: MediaStage::Finished,
            queue,
            current: None,
            lowered: String::new(),
            content_type: String::new(),
            records: Vec::new(),
        };
        assert(a.state() =~= MediaState {
            archival_id,
            stage: MediaStage::Finished,
            queue: queue@,
            current: None,
            lowered: Seq::empty(),
            content_type: a.content_type,
            records: Seq::empty(),
        });
        let ghost init = a.state();
        let act = a.plan();
        proof {
            lemma_plan_media_ok(init);
        }
        (a, act)
    }

    /// The request still open, asked again.
    fn pending(&self) -> (a: MediaAction)
        requires
            media_state_ok(self.state()),
        ensures
            a@ == pending_action(self.state()),
    {
        match self.stage {
            MediaStage::Downloading => {
                let m = self.current.as_ref().unwrap();
                if classify_media(self.lowered.as_str()) == MediaKind::Animated {
                    MediaAction::DownloadVideo { url: m.url.clone() }
                } else {
                    MediaAction::DownloadImage { url: m.url.clone() }
                }
            },
            MediaStage::Uploading => {
                let m = self.current.as_ref().unwrap();
                MediaAction::Upload { key: m.key.clone(), content_type: self.content_type.clone() }
            },
            MediaStage::Finished => MediaAction::Finish,
        }
    }

    /// Takes in what became of the open request and says what to do next.
    pub fn step(&mut self, e: MediaEvent) -> (a: MediaAction)
        requires
            media_state_ok(old(self).state()),
        ensures
            (final(self).state(), a@) == media_step(old(self).state(), e),
            media_state_ok(final(self).state()),
    {
        proof {
            lemma_media_step_ok(self.state(), e);
        }
        match (self.stage, e) {
            (MediaStage::Downloading, MediaEvent::Downloaded(None)) => {
                self.current = None;
                self.plan()
            },
            (MediaStage::Downloading, MediaEvent::Downloaded(Some(ct))) => {
                let key = self.current.as_ref().unwrap().key.clone();
                let shown = ct.clone();
                self.content_type = ct;
                self.stage = MediaStage::Uploading;
                MediaAction::Upload { key, content_type: shown }
            },
            (MediaStage::Uploading, MediaEvent::Uploaded { stored, retrieved }) => {
                let m = self.current.take().unwrap();
                if stored {
                    let media_type = media_type_of(self.lowered.as_str());
                    let content_type = self.content_type.clone();
                    self.records.push(
                        ArchivedMedia {
                            archival_id: self.archival_id,
                            media_id: m.key,
                            media_type,
                            content_type,
                            retrieved,
                        },
                    );
                }
                self.plan()
            },
            _ => self.pending(),
        }
    }

    /// The recorded attachments.
    pub fn into_records(self) -> (r: Vec<ArchivedMedia>)
        ensures
            r@ == self.state().records,
    {
        self.records
    }
}

} // verus!
