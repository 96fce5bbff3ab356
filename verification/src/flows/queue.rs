//! Watching whether uploads have arrived in the cloud.

pub mod laws;

use vstd::prelude::*;

use crate::error::{internal_error, CloudBackupErrorView, CloudStorageError};
use crate::protocol::{
    announce_pending, announces_pending, fail, fails, one_effect, two_effects, Attempt, Effect,
    Progress, Reply, Request,
};
use crate::sequences::lemma_filter_len;
use crate::text::{prefixed_text, texts};
use crate::upload_queue::{
    blobs_after_listing, blobs_of_namespace, blobs_with_added, blobs_without, some_unconfirmed,
    BlobCheckResult, PendingCloudUploadBlob, PendingCloudUploadVerification,
};

verus! {

/// The error of a queue that could not be read.
pub open spec fn queue_unreadable(error: Seq<char>) -> CloudBackupErrorView {
    CloudBackupErrorView::Internal(prefixed_text("read pending cloud upload verification"@, error))
}

/// The error of a queue that could not be written.
pub open spec fn queue_unwritable(error: Seq<char>) -> CloudBackupErrorView {
    CloudBackupErrorView::Internal(
        prefixed_text("persist pending cloud upload verification"@, error),
    )
}

/// `flow` waits for a queue of these blobs to be written.
pub open spec fn saves_queue<F, T>(
    progress: Progress<F, T>,
    flow: F,
    namespace: Seq<char>,
    blobs: Seq<PendingCloudUploadBlob>,
) -> bool {
    &&& progress matches Progress::Ask {
        flow: f,
        effects,
        request: Request::SavePendingUploads(queue),
    }
    &&& f == flow
    &&& effects@ == Seq::<Effect>::empty()
    &&& queue.namespace_id@ == namespace
    &&& queue.blobs@ == blobs
}

/// Adds uploaded records to the queue and sees to it that they are watched.
pub enum EnqueueFlow {
    Clock { namespace: String, record_ids: Vec<String> },
    Read { namespace: String, record_ids: Vec<String>, now: u64 },
    Save,
}

impl EnqueueFlow {
    /// What follows a reply. A queue of another namespace is replaced.
    pub open spec fn next(self, reply: Reply, progress: Attempt<Self, ()>) -> bool {
        match (self, reply) {
            (EnqueueFlow::Clock { namespace, record_ids }, Reply::Time(now)) => progress.asks(
                EnqueueFlow::Read { namespace, record_ids, now },
                Request::ReadPendingUploads,
            ),
            (
                EnqueueFlow::Read { namespace, record_ids, now },
                Reply::PendingUploads(Ok(stored)),
            ) => {
                let blobs = blobs_with_added(
                    blobs_of_namespace(stored, namespace@),
                    record_ids@,
                    now,
                );
                if blobs.len() == 0 {
                    progress.ends(Ok(()))
                } else {
                    saves_queue(progress, EnqueueFlow::Save, namespace@, blobs)
                }
            },
            (
                EnqueueFlow::Read { namespace, record_ids, now },
                Reply::PendingUploads(Err(error)),
            ) => fails(progress, queue_unreadable(error@)),
            (EnqueueFlow::Save, Reply::Written(Ok(_))) => progress.ends_after(
                seq![announces_pending(true), Effect::StartUploadVerifier],
                Ok(()),
            ),
            (EnqueueFlow::Save, Reply::Written(Err(error))) => fails(
                progress,
                queue_unwritable(error@),
            ),
            _ => progress.refuses(self),
        }
    }

    /// The first step.
    pub open spec fn began(
        namespace: String,
        record_ids: Vec<String>,
        progress: Attempt<Self, ()>,
    ) -> bool {
        progress.asks(EnqueueFlow::Clock { namespace, record_ids }, Request::ReadClock)
    }

    /// Starts with the time.
    pub fn start(namespace: String, record_ids: Vec<String>) -> (progress: Attempt<Self, ()>)
        ensures
            Self::began(namespace, record_ids, progress),
    {
        Progress::ask(EnqueueFlow::Clock { namespace, record_ids }, Request::ReadClock)
    }

    /// Goes on with a reply.
    pub fn step(self, reply: Reply) -> (progress: Attempt<Self, ()>)
        ensures
            self.next(reply, progress),
    {
        match (self, reply) {
            (EnqueueFlow::Clock { namespace, record_ids }, Reply::Time(now)) => Progress::ask(
                EnqueueFlow::Read { namespace, record_ids, now },
                Request::ReadPendingUploads,
            ),
            (
                EnqueueFlow::Read { namespace, record_ids, now },
                Reply::PendingUploads(Ok(stored)),
            ) => {
                let mut queue = PendingCloudUploadVerification::for_namespace(stored, &namespace);
                queue.add_records(record_ids, now);
                if queue.blobs.is_empty() {
                    Progress::end(Ok(()))
                } else {
                    Progress::ask(EnqueueFlow::Save, Request::SavePendingUploads(queue))
                }
            },
            (EnqueueFlow::Read { .. }, Reply::PendingUploads(Err(error))) => fail(
                internal_error("read pending cloud upload verification", &error),
            ),
            (EnqueueFlow::Save, Reply::Written(Ok(_))) => Progress::Done {
                effects: two_effects(announce_pending(true), Effect::StartUploadVerifier),
                value: Ok(()),
            },
            (EnqueueFlow::Save, Reply::Written(Err(error))) => fail(
                internal_error("persist pending cloud upload verification", &error),
            ),
            (flow, _) => Progress::Refused { flow },
        }
    }
}

/// Takes records out of the queue.
pub enum RemoveFlow {
    Read { namespace: String, record_ids: Vec<String> },
    Delete,
    Save,
}

impl RemoveFlow {
    /// What follows a reply. A queue of another namespace stays as it is.
    pub open spec fn next(self, reply: Reply, progress: Attempt<Self, ()>) -> bool {
        match (self, reply) {
            (
                RemoveFlow::Read { namespace, record_ids },
                Reply::PendingUploads(Ok(Some(queue))),
            ) => {
                let left = blobs_without(queue.blobs@, texts(record_ids@));
                if queue.namespace_id@ != namespace@ {
                    progress.ends(Ok(()))
                } else if left.len() == 0 {
                    progress.asks(RemoveFlow::Delete, Request::DeletePendingUploads)
                } else {
                    saves_queue(progress, RemoveFlow::Save, namespace@, left)
                }
            },
            (RemoveFlow::Read { namespace, record_ids }, Reply::PendingUploads(Ok(None))) =>
                progress.ends(Ok(())),
            (RemoveFlow::Read { namespace, record_ids }, Reply::PendingUploads(Err(error))) =>
                fails(progress, queue_unreadable(error@)),
            (RemoveFlow::Delete, Reply::Written(Ok(_))) => progress.ends_after(
                seq![announces_pending(false)],
                Ok(()),
            ),
            (RemoveFlow::Delete, Reply::Written(Err(error))) => fails(
                progress,
                CloudBackupErrorView::Internal(
                    prefixed_text("clear pending cloud upload verification"@, error@),
                ),
            ),
            (RemoveFlow::Save, Reply::Written(Ok(_))) => progress.ends_after(
                seq![announces_pending(true)],
                Ok(()),
            ),
            (RemoveFlow::Save, Reply::Written(Err(error))) => fails(
                progress,
                queue_unwritable(error@),
            ),
            _ => progress.refuses(self),
        }
    }

    /// The first step.
    pub open spec fn began(
        namespace: String,
        record_ids: Vec<String>,
        progress: Attempt<Self, ()>,
    ) -> bool {
        progress.asks(RemoveFlow::Read { namespace, record_ids }, Request::ReadPendingUploads)
    }

    /// Starts with the queue.
    pub fn start(namespace: String, record_ids: Vec<String>) -> (progress: Attempt<Self, ()>)
        ensures
            Self::began(namespace, record_ids, progress),
    {
        Progress::ask(RemoveFlow::Read { namespace, record_ids }, Request::ReadPendingUploads)
    }

    /// Goes on with a reply.
    pub fn step(self, reply: Reply) -> (progress: Attempt<Self, ()>)
        ensures
            self.next(reply, progress),
    {
        match (self, reply) {
            (
                RemoveFlow::Read { namespace, record_ids },
                Reply::PendingUploads(Ok(Some(queue))),
            ) => {
                if !(queue.namespace_id == namespace) {
                    return Progress::end(Ok(()));
                }
                let mut left = queue;
                left.remove_records(&record_ids);
                if left.blobs.is_empty() {
                    Progress::ask(RemoveFlow::Delete, Request::DeletePendingUploads)
                } else {
                    Progress::ask(RemoveFlow::Save, Request::SavePendingUploads(left))
                }
            },
            (RemoveFlow::Read { .. }, Reply::PendingUploads(Ok(None))) => Progress::end(Ok(())),
            (RemoveFlow::Read { .. }, Reply::PendingUploads(Err(error))) => fail(
                internal_error("read pending cloud upload verification", &error),
            ),
            (RemoveFlow::Delete, Reply::Written(Ok(_))) => Progress::Done {
                effects: one_effect(announce_pending(false)),
                value: Ok(()),
            },
            (RemoveFlow::Delete, Reply::Written(Err(error))) => fail(
                internal_error("clear pending cloud upload verification", &error),
            ),
            (RemoveFlow::Save, Reply::Written(Ok(_))) => Progress::Done {
                effects: one_effect(announce_pending(true)),
                value: Ok(()),
            },
            (RemoveFlow::Save, Reply::Written(Err(error))) => fail(
                internal_error("persist pending cloud upload verification", &error),
            ),
            (flow, _) => Progress::Refused { flow },
        }
    }
}

/// Takes confirmed uploads out of the queue once the listing shows them.
pub enum CleanupFlow {
    Read { listed: Vec<String> },
    Delete,
    Save,
}

impl CleanupFlow {
    /// What follows a reply. A queue that cannot be read or written is left as it is.
    pub open spec fn next(self, reply: Reply, progress: Progress<Self, ()>) -> bool {
        match (self, reply) {
            (CleanupFlow::Read { listed }, Reply::PendingUploads(Ok(Some(queue)))) => {
                let left = blobs_after_listing(queue.blobs@, texts(listed@));
                if left.len() == queue.blobs@.len() {
                    progress.ends(())
                } else if left.len() == 0 {
                    progress.asks(CleanupFlow::Delete, Request::DeletePendingUploads)
                } else {
                    saves_queue(progress, CleanupFlow::Save, queue.namespace_id@, left)
                }
            },
            (CleanupFlow::Read { listed }, Reply::PendingUploads(_)) => progress.ends(()),
            (CleanupFlow::Delete, Reply::Written(_)) => progress.ends_after(
                seq![announces_pending(false)],
                (),
            ),
            (CleanupFlow::Save, Reply::Written(_)) => progress.ends(()),
            _ => progress.refuses(self),
        }
    }

    /// The first step.
    pub open spec fn began(listed: Vec<String>, progress: Progress<Self, ()>) -> bool {
        progress.asks(CleanupFlow::Read { listed }, Request::ReadPendingUploads)
    }

    /// Starts with the queue.
    pub fn start(listed: Vec<String>) -> (progress: Progress<Self, ()>)
        ensures
            Self::began(listed, progress),
    {
        Progress::ask(CleanupFlow::Read { listed }, Request::ReadPendingUploads)
    }

    /// Goes on with a reply.
    pub fn step(self, reply: Reply) -> (progress: Progress<Self, ()>)
        ensures
            self.next(reply, progress),
    {
        match (self, reply) {
            (CleanupFlow::Read { listed }, Reply::PendingUploads(Ok(Some(queue)))) => {
                let before: usize = queue.blobs.len();
                let mut left = queue;
                left.cleanup_listed(&listed);
                proof {
                    lemma_filter_len(
                        queue.blobs@,
                        |blob: PendingCloudUploadBlob|
                            blob.confirmed_at is None || !texts(listed@).contains(blob.record_id@),
                    );
                }
                if left.blobs.len() < before {
                    if left.blobs.is_empty() {
                        Progress::ask(CleanupFlow::Delete, Request::DeletePendingUploads)
                    } else {
                        Progress::ask(CleanupFlow::Save, Request::SavePendingUploads(left))
                    }
                } else {
                    Progress::end(())
                }
            },
            (CleanupFlow::Read { .. }, Reply::PendingUploads(_)) => Progress::end(()),
            (CleanupFlow::Delete, Reply::Written(_)) => Progress::Done {
                effects: one_effect(announce_pending(false)),
                value: (),
            },
            (CleanupFlow::Save, Reply::Written(_)) => Progress::end(()),
            (flow, _) => Progress::Refused { flow },
        }
    }
}

/// One pass over the queue that asks the cloud for every upload not confirmed yet.
pub enum PendingUploadVerifier {
    Read,
    Delete,
    Clock { queue: PendingCloudUploadVerification },
    Check { queue: PendingCloudUploadVerification, checked_at: u64, index: usize },
    Save { still_pending: bool },
}

/// The first blob at or after `from` that is not confirmed, or the end of the queue.
pub open spec fn next_unconfirmed(blobs: Seq<PendingCloudUploadBlob>, from: int) -> int
    decreases blobs.len() - from,
{
    if from >= blobs.len() || blobs[from].confirmed_at is None {
        from
    } else {
        next_unconfirmed(blobs, from + 1)
    }
}

/// What the cloud's answer says of an upload; a question that failed has its error's text.
pub open spec fn check_result(
    answer: Result<bool, CloudStorageError>,
) -> BlobCheckResult {
    match answer {
        Ok(uploaded) => if uploaded {
            BlobCheckResult::Confirmed
        } else {
            BlobCheckResult::NotYetUploaded
        },
        Err(error) => BlobCheckResult::Failed(error.text()),
    }
}

impl PendingUploadVerifier {
    /// There is a current blob, and it is not confirmed yet.
    pub open spec fn wf(self) -> bool {
        self matches PendingUploadVerifier::Check { queue, index, .. } ==> index
            < queue.blobs@.len() && queue.blobs@[index as int].confirmed_at is None
    }

    /// The cloud is asked for the next blob that is not confirmed, or the queue is written.
    pub open spec fn goes_on(
        namespace: String,
        blobs: Seq<PendingCloudUploadBlob>,
        checked_at: u64,
        from: int,
        progress: Progress<Self, bool>,
    ) -> bool {
        let at = next_unconfirmed(blobs, from);
        if at < blobs.len() {
            &&& progress matches Progress::Ask {
                flow: PendingUploadVerifier::Check { queue, checked_at: time, index },
                effects,
                request,
            }
            &&& queue.namespace_id == namespace
            &&& queue.blobs@ == blobs
            &&& time == checked_at
            &&& index == at
            &&& effects@ == Seq::<Effect>::empty()
            &&& request == Request::IsBackupUploaded { namespace, record_id: blobs[at].record_id }
        } else {
            saves_queue(
                progress,
                PendingUploadVerifier::Save { still_pending: some_unconfirmed(blobs) },
                namespace@,
                blobs,
            )
        }
    }

    /// What follows a reply. The outcome says whether uploads are still to be watched; a queue that
    /// cannot be read or written is tried again. An attempt that the blob cannot count is refused.
    pub open spec fn next(self, reply: Reply, progress: Progress<Self, bool>) -> bool {
        match (self, reply) {
            (PendingUploadVerifier::Read, Reply::PendingUploads(Ok(Some(queue)))) =>
                if queue.blobs@.len() == 0 {
                progress.asks(PendingUploadVerifier::Delete, Request::DeletePendingUploads)
            } else if !some_unconfirmed(queue.blobs@) {
                progress.ends_after(seq![announces_pending(false)], false)
            } else {
                progress.asks(PendingUploadVerifier::Clock { queue }, Request::ReadClock)
            },
            (PendingUploadVerifier::Read, Reply::PendingUploads(Ok(None))) => progress.ends_after(
                seq![announces_pending(false)],
                false,
            ),
            (PendingUploadVerifier::Read, Reply::PendingUploads(Err(_))) => progress.ends(true),
            (PendingUploadVerifier::Delete, Reply::Written(Ok(_))) => progress.ends_after(
                seq![announces_pending(false)],
                false,
            ),
            (PendingUploadVerifier::Delete, Reply::Written(Err(_))) => progress.ends(true),
            (PendingUploadVerifier::Clock { queue }, Reply::Time(checked_at)) => Self::goes_on(
                queue.namespace_id,
                queue.blobs@,
                checked_at,
                0,
                progress,
            ),
            (
                PendingUploadVerifier::Check { queue, checked_at, index },
                Reply::Uploaded(answer),
            ) => {
                let blob = queue.blobs@[index as int];
                let result = check_result(answer);
                if result is Confirmed || blob.attempt_count < u32::MAX {
                    Self::goes_on(
                        queue.namespace_id,
                        queue.blobs@.update(index as int, blob.checked(checked_at, result)),
                        checked_at,
                        index + 1,
                        progress,
                    )
                } else {
                    progress.refuses(self)
                }
            },
            (PendingUploadVerifier::Save { still_pending }, Reply::Written(Ok(_))) =>
                progress.ends_after(seq![announces_pending(still_pending)], still_pending),
            (PendingUploadVerifier::Save { still_pending }, Reply::Written(Err(_))) =>
                progress.ends(true),
            _ => progress.refuses(self),
        }
    }

    /// Notes on a blob what a check at `checked_at` found.
    pub fn apply_blob_result(
        blob: &mut PendingCloudUploadBlob,
        checked_at: u64,
        result: &BlobCheckResult,
    )
        requires
            *result is Confirmed || old(blob).attempt_count < u32::MAX,
        ensures
            *final(blob) == old(blob).checked(checked_at, *result),
    {
        match result {
            BlobCheckResult::Confirmed => {
                blob.confirmed_at = Some(checked_at);
            },
            BlobCheckResult::NotYetUploaded | BlobCheckResult::Failed(_) => {
                blob.last_checked_at = Some(checked_at);
                blob.attempt_count = blob.attempt_count + 1;
            },
        }
    }

    /// What the cloud's answer says of an upload.
    fn check_blob(answer: Result<bool, CloudStorageError>) -> (result: BlobCheckResult)
        ensures
            result == check_result(answer),
    {
        match answer {
            Ok(true) => BlobCheckResult::Confirmed,
            Ok(false) => BlobCheckResult::NotYetUploaded,
            Err(error) => BlobCheckResult::Failed(error.into_text()),
        }
    }

    fn go_on(queue: PendingCloudUploadVerification, checked_at: u64, from: usize) -> (progress:
        Progress<Self, bool>)
        requires
            from <= queue.blobs@.len(),
        ensures
            Self::goes_on(queue.namespace_id, queue.blobs@, checked_at, from as int, progress),
            progress matches Progress::Ask { flow, .. } ==> flow.wf(),
            progress matches Progress::Refused { flow } ==> flow.wf(),
    {
        let mut index: usize = from;
        while index < queue.blobs.len() && queue.blobs[index].confirmed_at.is_some()
            invariant
                from <= index <= queue.blobs@.len(),
                next_unconfirmed(queue.blobs@, from as int) == next_unconfirmed(
                    queue.blobs@,
                    index as int,
                ),
            decreases queue.blobs@.len() - index,
        {
            index += 1;
        }
        if index < queue.blobs.len() {
            let namespace: String = queue.namespace_id.clone();
            let record_id: String = queue.blobs[index].record_id.clone();
            Progress::ask(
                PendingUploadVerifier::Check { queue, checked_at, index },
                Request::IsBackupUploaded { namespace, record_id },
            )
        } else {
            let still_pending: bool = queue.has_unconfirmed();
            Progress::ask(
                PendingUploadVerifier::Save { still_pending },
                Request::SavePendingUploads(queue),
            )
        }
    }

    /// The first step.
    pub open spec fn began(progress: Progress<Self, bool>) -> bool {
        progress.asks(PendingUploadVerifier::Read, Request::ReadPendingUploads)
    }

    /// Starts with the queue.
    pub fn start() -> (progress: Progress<Self, bool>)
        ensures
            Self::began(progress),
    {
        Progress::ask(PendingUploadVerifier::Read, Request::ReadPendingUploads)
    }

    /// Goes on with a reply.
    pub fn step(self, reply: Reply) -> (progress: Progress<Self, bool>)
        requires
            self.wf(),
        ensures
            self.next(reply, progress),
            progress matches Progress::Ask { flow, .. } ==> flow.wf(),
            progress matches Progress::Refused { flow } ==> flow.wf(),
    {
        match (self, reply) {
            (PendingUploadVerifier::Read, Reply::PendingUploads(Ok(Some(queue)))) => {
                if queue.blobs.is_empty() {
                    Progress::ask(PendingUploadVerifier::Delete, Request::DeletePendingUploads)
                } else if !queue.has_unconfirmed() {
                    Progress::Done { effects: one_effect(announce_pending(false)), value: false }
                } else {
                    Progress::ask(PendingUploadVerifier::Clock { queue }, Request::ReadClock)
                }
            },
            (PendingUploadVerifier::Read, Reply::PendingUploads(Ok(None))) => Progress::Done {
                effects: one_effect(announce_pending(false)),
                value: false,
            },
            (PendingUploadVerifier::Read, Reply::PendingUploads(Err(_))) => Progress::end(true),
            (PendingUploadVerifier::Delete, Reply::Written(Ok(_))) => Progress::Done {
                effects: one_effect(announce_pending(false)),
                value: false,
            },
            (PendingUploadVerifier::Delete, Reply::Written(Err(_))) => Progress::end(true),
            (PendingUploadVerifier::Clock { queue }, Reply::Time(checked_at)) => Self::go_on(
                queue,
                checked_at,
                0,
            ),
            (
                PendingUploadVerifier::Check { queue, checked_at, index },
                Reply::Uploaded(answer),
            ) => {
                let result: BlobCheckResult = Self::check_blob(answer);
                assert(index < queue.blobs.len());
                if !matches!(result, BlobCheckResult::Confirmed)
                    && queue.blobs[index].attempt_count == u32::MAX {
                    return Progress::Refused {
                        flow: PendingUploadVerifier::Check { queue, checked_at, index },
                    };
                }
                let mut queue = queue;
                Self::apply_blob_result(&mut queue.blobs[index], checked_at, &result);
                Self::go_on(queue, checked_at, index + 1)
            },
            (PendingUploadVerifier::Save { still_pending }, Reply::Written(Ok(_))) =>
                Progress::Done {
                effects: one_effect(announce_pending(still_pending)),
                value: still_pending,
            },
            (PendingUploadVerifier::Save { .. }, Reply::Written(Err(_))) => Progress::end(true),
            (flow, _) => Progress::Refused { flow },
        }
    }
}

proof fn lemma_next_unconfirmed(blobs: Seq<PendingCloudUploadBlob>, from: int)
    requires
        0 <= from <= blobs.len(),
    ensures
        from <= next_unconfirmed(blobs, from) <= blobs.len(),
        forall|i: int|
            from <= i < next_unconfirmed(blobs, from) ==> (
            #[trigger] blobs[i]).confirmed_at is Some,
        next_unconfirmed(blobs, from) < blobs.len() ==> blobs[next_unconfirmed(
            blobs,
            from,
        )].confirmed_at is None,
    decreases blobs.len() - from,
{
    if from < blobs.len() && blobs[from].confirmed_at is Some {
        lemma_next_unconfirmed(blobs, from + 1);
    }
}

/// The queue that a step of a pass goes on with or writes.
pub open spec fn queue_of(progress: Progress<PendingUploadVerifier, bool>) -> Option<
    PendingCloudUploadVerification,
> {
    match progress {
        Progress::Ask { flow: PendingUploadVerifier::Check { queue, .. }, .. } => Some(queue),
        Progress::Ask { request: Request::SavePendingUploads(queue), .. } => Some(queue),
        _ => None,
    }
}

/// A pass drops no upload, and a check changes only the upload that was checked: one that is
/// confirmed already stays as it is.
pub proof fn law_check_changes_one_upload(
    queue: PendingCloudUploadVerification,
    checked_at: u64,
    index: usize,
    answer: Result<bool, CloudStorageError>,
    progress: Progress<PendingUploadVerifier, bool>,
)
    requires
        (PendingUploadVerifier::Check { queue, checked_at, index }).wf(),
        (PendingUploadVerifier::Check { queue, checked_at, index }).next(
            Reply::Uploaded(answer),
            progress,
        ),
        !(progress is Refused),
    ensures
        queue_of(progress) matches Some(later) && {
            &&& later.blobs@.len() == queue.blobs@.len()
            &&& forall|i: int|
                0 <= i < queue.blobs@.len() && (i != index || queue.blobs@[i].confirmed_at is Some)
                    ==> #[trigger] later.blobs@[i] == queue.blobs@[i]
            &&& later.blobs@[index as int].record_id == queue.blobs@[index as int].record_id
            &&& later.blobs@[index as int].enqueued_at == queue.blobs@[index as int].enqueued_at
        },
{
}

/// A pass asks the cloud for every upload that is not confirmed: between the upload that was
/// checked last and the next one, or the end, there is none.
pub proof fn law_pass_skips_no_unconfirmed_upload(
    queue: PendingCloudUploadVerification,
    checked_at: u64,
    index: usize,
    answer: Result<bool, CloudStorageError>,
    progress: Progress<PendingUploadVerifier, bool>,
    other: int,
)
    requires
        (PendingUploadVerifier::Check { queue, checked_at, index }).wf(),
        (PendingUploadVerifier::Check { queue, checked_at, index }).next(
            Reply::Uploaded(answer),
            progress,
        ),
        index < other < queue.blobs@.len(),
        queue.blobs@[other].confirmed_at is None,
        !(progress is Refused),
    ensures
        progress matches Progress::Ask {
            flow: PendingUploadVerifier::Check { index: later, .. },
            ..
        } && index < later <= other,
{
    let blob = queue.blobs@[index as int];
    let blobs = queue.blobs@.update(
        index as int,
        blob.checked(checked_at, check_result(answer)),
    );
    lemma_next_unconfirmed(blobs, index + 1);
    let at = next_unconfirmed(blobs, index + 1);
    assert(blobs[other] == queue.blobs@[other]);
}

} // verus!
