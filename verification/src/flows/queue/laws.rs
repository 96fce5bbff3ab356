//! What watching uploads does, from the first step to the last.

use vstd::prelude::*;

use crate::conversation::{continues, is_conversation, lemma_stop_is_last, Stepwise};
use crate::error::CloudBackupError;
use crate::flows::queue::{
    lemma_next_unconfirmed, next_unconfirmed, CleanupFlow, EnqueueFlow, PendingUploadVerifier,
    RemoveFlow,
};
use crate::protocol::{Attempt, Effect, Progress, Reply, Request};
use crate::state::CloudBackupReconcileMessage;
use crate::text::texts;
use crate::upload_queue::{
    blobs_with_added, law_enqueue_keeps_queue, law_enqueue_watches_records,
    law_enqueued_upload_is_new, queued_ids, PendingCloudUploadBlob, PendingCloudUploadVerification,
};

verus! {

impl Stepwise for EnqueueFlow {
    type Value = Result<(), CloudBackupError>;

    open spec fn follows(self, reply: Reply, progress: Attempt<Self, ()>) -> bool {
        self.next(reply, progress)
    }
}

impl Stepwise for RemoveFlow {
    type Value = Result<(), CloudBackupError>;

    open spec fn follows(self, reply: Reply, progress: Attempt<Self, ()>) -> bool {
        self.next(reply, progress)
    }
}

impl Stepwise for CleanupFlow {
    type Value = ();

    open spec fn follows(self, reply: Reply, progress: Progress<Self, ()>) -> bool {
        self.next(reply, progress)
    }
}

impl Stepwise for PendingUploadVerifier {
    type Value = bool;

    open spec fn follows(self, reply: Reply, progress: Progress<Self, bool>) -> bool {
        self.next(reply, progress)
    }
}

/// Whether `effects` tell whether uploads are still being watched, and nothing else.
pub open spec fn tells_pending(effects: Seq<Effect>, pending: bool) -> bool {
    effects == seq![
        Effect::Notify(CloudBackupReconcileMessage::PendingUploadVerificationChanged { pending }),
    ]
}

/// Whether a queue is what queueing `record_ids` at `now` makes of `before`: what was queued stays
/// in front as it was, every record is queued, and what is new was asked for, uploaded now, neither
/// looked for nor confirmed, and queued only once.
pub open spec fn is_queue_with(
    before: Seq<PendingCloudUploadBlob>,
    record_ids: Seq<String>,
    now: u64,
    after: Seq<PendingCloudUploadBlob>,
) -> bool {
    &&& before.len() <= after.len()
    &&& forall|i: int| 0 <= i < before.len() ==> #[trigger] after[i] == before[i]
    &&& forall|j: int|
        0 <= j < record_ids.len() ==> exists|i: int|
            0 <= i < after.len() && (#[trigger] after[i]).record_id@ == (
            #[trigger] record_ids[j])@
    &&& forall|i: int|
        before.len() <= i < after.len() ==> {
            &&& (#[trigger] after[i]).enqueued_at == now
            &&& after[i].last_checked_at is None
            &&& after[i].attempt_count == 0
            &&& after[i].confirmed_at is None
            &&& exists|j: int|
                0 <= j < record_ids.len() && (#[trigger] record_ids[j]) == after[i].record_id
        }
    &&& forall|i: int, k: int|
        before.len() <= i < after.len() && 0 <= k < i ==> (#[trigger] after[k]).record_id@ != (
        #[trigger] after[i]).record_id@
}

proof fn lemma_is_queue_with(
    before: Seq<PendingCloudUploadBlob>,
    record_ids: Seq<String>,
    now: u64,
)
    ensures
        is_queue_with(before, record_ids, now, blobs_with_added(before, record_ids, now)),
{
    let after = blobs_with_added(before, record_ids, now);
    law_enqueue_keeps_queue(before, record_ids, now);
    assert forall|i: int| 0 <= i < before.len() implies #[trigger] after[i] == before[i] by {
        assert(after.subrange(0, before.len() as int)[i] == before[i]);
    }
    assert forall|j: int| 0 <= j < record_ids.len() implies exists|i: int|
        0 <= i < after.len() && (#[trigger] after[i]).record_id@ == (#[trigger] record_ids[j])@ by {
        let record_id = record_ids[j]@;
        law_enqueue_watches_records(before, record_ids, now, record_id);
        assert(texts(record_ids)[j] == record_id);
        let at = queued_ids(after).index_of(record_id);
        assert(after[at].record_id@ == record_id);
    }
    assert forall|i: int| before.len() <= i < after.len() implies {
        &&& (#[trigger] after[i]).enqueued_at == now
        &&& after[i].last_checked_at is None
        &&& after[i].attempt_count == 0
        &&& after[i].confirmed_at is None
        &&& exists|j: int|
            0 <= j < record_ids.len() && (#[trigger] record_ids[j]) == after[i].record_id
    } by {
        law_enqueued_upload_is_new(before, record_ids, now, i);
    }
    assert forall|i: int, k: int| before.len() <= i < after.len() && 0 <= k < i implies (
    #[trigger] after[k]).record_id@ != (#[trigger] after[i]).record_id@ by {
        law_enqueued_upload_is_new(before, record_ids, now, i);
    }
}

/// The uploads of `namespace` that a stored queue holds; a queue of another namespace holds none.
pub open spec fn watched_in(
    stored: Option<PendingCloudUploadVerification>,
    namespace: Seq<char>,
) -> Seq<PendingCloudUploadBlob> {
    if stored matches Some(queue) && queue.namespace_id@ == namespace {
        stored->0.blobs@
    } else {
        Seq::empty()
    }
}

/// Queueing uploads writes a queue of the namespace that was given: what it held of that namespace
/// and the records that were given, uploaded at the clock's time. Once it was written, and only
/// then, the user is told and the watch is started.
pub proof fn law_enqueue_writes_the_queue(
    namespace: String,
    record_ids: Vec<String>,
    steps: Seq<Attempt<EnqueueFlow, ()>>,
    replies: Seq<Reply>,
    effects: Vec<Effect>,
)
    requires
        EnqueueFlow::began(namespace, record_ids, steps[0]),
        is_conversation(steps, replies),
        steps.last() matches Progress::Done { effects: told, value: Ok(_) } && told == effects,
    ensures
        steps[0].requests(Request::ReadClock),
        steps[1].requests(Request::ReadPendingUploads),
        replies[0] matches Reply::Time(now) && (replies[1] matches Reply::PendingUploads(Ok(stored))
            && {
            let before = watched_in(stored, namespace@);
            if before.len() == 0 && record_ids@.len() == 0 {
                replies.len() == 2 && effects@.len() == 0
            } else {
                &&& replies.len() == 3
                &&& steps[2] matches Progress::Ask {
                    request: Request::SavePendingUploads(queue),
                    ..
                } && queue.namespace_id@ == namespace@ && is_queue_with(
                    before,
                    record_ids@,
                    now,
                    queue.blobs@,
                )
                &&& replies[2] matches Reply::Written(Ok(_))
                &&& effects@.len() == 2
                &&& tells_pending(effects@.take(1), true)
                &&& effects@[1] is StartUploadVerifier
            }
        }),
{
    assert(continues(steps[0], replies[0], steps[1]));
    assert(continues(steps[1], replies[1], steps[2]));
    if let (Reply::Time(now), Reply::PendingUploads(Ok(stored))) = (replies[0], replies[1]) {
        let before = watched_in(stored, namespace@);
        lemma_is_queue_with(before, record_ids@, now);
        let after = blobs_with_added(before, record_ids@, now);
        if record_ids@.len() > 0 {
            assert(exists|i: int|
                0 <= i < after.len() && (#[trigger] after[i]).record_id@ == (
                #[trigger] record_ids@[0])@);
        }
    }
    if steps[2] is Ask {
        assert(continues(steps[2], replies[2], steps[3]));
        lemma_stop_is_last(steps, replies, 3);
        assert(effects@.take(1) =~= seq![effects@[0]]);
    } else {
        lemma_stop_is_last(steps, replies, 2);
    }
}

/// Whether a record is one of `record_ids`.
pub open spec fn names(record_ids: Seq<String>, record_id: Seq<char>) -> bool {
    exists|i: int| 0 <= i < record_ids.len() && (#[trigger] record_ids[i])@ == record_id
}

proof fn lemma_names(record_ids: Seq<String>, record_id: Seq<char>)
    ensures
        texts(record_ids).contains(record_id) <==> names(record_ids, record_id),
{
    if texts(record_ids).contains(record_id) {
        let at = texts(record_ids).index_of(record_id);
        assert(record_ids[at]@ == record_id);
    }
    if names(record_ids, record_id) {
        let i = choose|i: int|
            0 <= i < record_ids.len() && (#[trigger] record_ids[i])@ == record_id;
        assert(texts(record_ids)[i] == record_id);
    }
}

/// Taking records out of the queue leaves the other uploads of the given namespace, in their order;
/// a queue that is empty then is deleted, and a queue of another namespace is not touched. The user
/// is told whether uploads are left, once that was written.
pub proof fn law_remove_leaves_the_other_uploads(
    namespace: String,
    record_ids: Vec<String>,
    steps: Seq<Attempt<RemoveFlow, ()>>,
    replies: Seq<Reply>,
    effects: Vec<Effect>,
)
    requires
        RemoveFlow::began(namespace, record_ids, steps[0]),
        is_conversation(steps, replies),
        steps.last() matches Progress::Done { effects: told, value: Ok(_) } && told == effects,
    ensures
        steps[0].requests(Request::ReadPendingUploads),
        replies[0] matches Reply::PendingUploads(Ok(stored)) && match stored {
            Some(queue) => if queue.namespace_id@ != namespace@ {
                replies.len() == 1 && effects@.len() == 0
            } else {
                let left = queue.blobs@.filter(
                    |blob: PendingCloudUploadBlob| !names(record_ids@, blob.record_id@),
                );
                &&& replies.len() == 2
                &&& replies[1] matches Reply::Written(Ok(_))
                &&& if left.len() == 0 {
                    &&& steps[1].requests(Request::DeletePendingUploads)
                    &&& tells_pending(effects@, false)
                } else {
                    &&& steps[1] matches Progress::Ask {
                        request: Request::SavePendingUploads(saved),
                        ..
                    } && saved.namespace_id@ == namespace@ && saved.blobs@ == left
                    &&& tells_pending(effects@, true)
                }
            },
            None => replies.len() == 1 && effects@.len() == 0,
        },
{
    assert(continues(steps[0], replies[0], steps[1]));
    let gone = |blob: PendingCloudUploadBlob| !texts(record_ids@).contains(blob.record_id@);
    let unnamed = |blob: PendingCloudUploadBlob| !names(record_ids@, blob.record_id@);
    assert forall|blob: PendingCloudUploadBlob| #[trigger] gone(blob) == unnamed(blob) by {
        lemma_names(record_ids@, blob.record_id@);
    }
    assert(gone =~= unnamed);
    if steps[1] is Ask {
        assert(continues(steps[1], replies[1], steps[2]));
        lemma_stop_is_last(steps, replies, 2);
    } else {
        lemma_stop_is_last(steps, replies, 1);
    }
}

/// A queue that could not be read or written when uploads are added is a failure, and then the user
/// is told nothing else.
pub proof fn law_enqueue_needs_the_queue(
    namespace: String,
    record_ids: Vec<String>,
    steps: Seq<Attempt<EnqueueFlow, ()>>,
    replies: Seq<Reply>,
    effects: Vec<Effect>,
    value: Result<(), CloudBackupError>,
)
    requires
        EnqueueFlow::began(namespace, record_ids, steps[0]),
        is_conversation(steps, replies),
        steps.last() matches Progress::Done { effects: told, value: end } && told == effects && end
            == value,
    ensures
        value is Err <==> ((replies.last() matches Reply::PendingUploads(Err(_))) || (
        replies.last() matches Reply::Written(Err(_)))),
        value matches Err(error) ==> effects@.len() == 0 && match replies.last() {
            Reply::PendingUploads(Err(why)) => error matches CloudBackupError::Internal(text)
                && text@ == "read pending cloud upload verification"@ + ": "@ + why@,
            Reply::Written(Err(why)) => error matches CloudBackupError::Internal(text) && text@
                == "persist pending cloud upload verification"@ + ": "@ + why@,
            _ => false,
        },
{
    let end = replies.len() - 1;
    assert(continues(steps[end], replies[end], steps[end + 1]));
}

/// A queue that could not be read or written when uploads are taken out is a failure, and then the
/// user is told nothing else.
pub proof fn law_remove_needs_the_queue(
    namespace: String,
    record_ids: Vec<String>,
    steps: Seq<Attempt<RemoveFlow, ()>>,
    replies: Seq<Reply>,
    effects: Vec<Effect>,
    value: Result<(), CloudBackupError>,
)
    requires
        RemoveFlow::began(namespace, record_ids, steps[0]),
        is_conversation(steps, replies),
        steps.last() matches Progress::Done { effects: told, value: end } && told == effects && end
            == value,
    ensures
        value is Err <==> ((replies.last() matches Reply::PendingUploads(Err(_))) || (
        replies.last() matches Reply::Written(Err(_)))),
        value matches Err(error) ==> effects@.len() == 0 && match replies.last() {
            Reply::PendingUploads(Err(why)) => error matches CloudBackupError::Internal(text)
                && text@ == "read pending cloud upload verification"@ + ": "@ + why@,
            Reply::Written(Err(why)) => error matches CloudBackupError::Internal(text) && text@
                == if steps[1].requests(Request::DeletePendingUploads) {
                "clear pending cloud upload verification"@ + ": "@ + why@
            } else {
                "persist pending cloud upload verification"@ + ": "@ + why@
            },
            _ => false,
        },
{
    let end = replies.len() - 1;
    assert(continues(steps[0], replies[0], steps[1]));
    assert(continues(steps[end], replies[end], steps[end + 1]));
    if end > 0 {
        assert(continues(steps[1], replies[1], steps[2]));
        lemma_stop_is_last(steps, replies, 2);
    }
}

/// A listing takes out of the queue the uploads that are both confirmed and listed, and no other;
/// the queue is written only if that changes it, and deleted if nothing is left.
pub proof fn law_cleanup_takes_out_confirmed_and_listed(
    listed: Vec<String>,
    steps: Seq<Progress<CleanupFlow, ()>>,
    replies: Seq<Reply>,
    effects: Vec<Effect>,
)
    requires
        CleanupFlow::began(listed, steps[0]),
        is_conversation(steps, replies),
        steps.last() matches Progress::Done { effects: told, .. } && told == effects,
    ensures
        steps[0].requests(Request::ReadPendingUploads),
        replies[0] matches Reply::PendingUploads(read) && match read {
            Ok(Some(queue)) => {
                let left = queue.blobs@.filter(
                    |blob: PendingCloudUploadBlob|
                        !(blob.confirmed_at is Some && names(listed@, blob.record_id@)),
                );
                if left.len() == queue.blobs@.len() {
                    replies.len() == 1 && effects@.len() == 0
                } else if left.len() == 0 {
                    &&& steps[1].requests(Request::DeletePendingUploads)
                    &&& tells_pending(effects@, false)
                } else {
                    &&& steps[1] matches Progress::Ask {
                        request: Request::SavePendingUploads(saved),
                        ..
                    } && saved.namespace_id@ == queue.namespace_id@ && saved.blobs@ == left
                    &&& effects@.len() == 0
                }
            },
            _ => replies.len() == 1 && effects@.len() == 0,
        },
{
    assert(continues(steps[0], replies[0], steps[1]));
    let kept = |blob: PendingCloudUploadBlob|
        blob.confirmed_at is None || !texts(listed@).contains(blob.record_id@);
    let left = |blob: PendingCloudUploadBlob|
        !(blob.confirmed_at is Some && names(listed@, blob.record_id@));
    assert forall|blob: PendingCloudUploadBlob| #[trigger] kept(blob) == left(blob) by {
        lemma_names(listed@, blob.record_id@);
    }
    assert(kept =~= left);
    if steps[1] is Ask {
        assert(continues(steps[1], replies[1], steps[2]));
        lemma_stop_is_last(steps, replies, 2);
    } else {
        lemma_stop_is_last(steps, replies, 1);
    }
}

/// Whether a blob is what a pass at `now` makes of `before`: one that was confirmed stays as it
/// was, and any other was looked for in the queue's namespace, and is confirmed now if the cloud
/// has it, or has one attempt more if not.
pub open spec fn is_looked_after(
    namespace: String,
    now: u64,
    before: PendingCloudUploadBlob,
    after: PendingCloudUploadBlob,
    steps: Seq<Progress<PendingUploadVerifier, bool>>,
    replies: Seq<Reply>,
    until: int,
) -> bool {
    if before.confirmed_at is Some {
        after == before
    } else {
        exists|i: int|
            {
                &&& 2 <= i < until
                &&& steps[i].requests(
                    Request::IsBackupUploaded { namespace, record_id: before.record_id },
                )
                &&& #[trigger] replies[i] matches Reply::Uploaded(answer)
                &&& after.record_id == before.record_id
                &&& after.enqueued_at == before.enqueued_at
                &&& match answer {
                    Ok(true) => {
                        &&& after.confirmed_at == Some(now)
                        &&& after.last_checked_at == before.last_checked_at
                        &&& after.attempt_count == before.attempt_count
                    },
                    _ => {
                        &&& after.confirmed_at is None
                        &&& after.last_checked_at == Some(now)
                        &&& after.attempt_count == before.attempt_count + 1
                    },
                }
            }
    }
}

/// Whether a pass over `queue` at `now` has looked after the blobs before `index`, and left the
/// others.
spec fn is_through(
    queue: PendingCloudUploadVerification,
    now: u64,
    blobs: Seq<PendingCloudUploadBlob>,
    index: int,
    steps: Seq<Progress<PendingUploadVerifier, bool>>,
    replies: Seq<Reply>,
    until: int,
) -> bool {
    &&& blobs.len() == queue.blobs@.len()
    &&& 0 <= index <= blobs.len()
    &&& forall|i: int|
        0 <= i < index ==> is_looked_after(
            queue.namespace_id,
            now,
            queue.blobs@[i],
            #[trigger] blobs[i],
            steps,
            replies,
            until,
        )
    &&& forall|i: int| index <= i < blobs.len() ==> #[trigger] blobs[i] == queue.blobs@[i]
}

/// What a step of a pass over `queue` at `now` is, once the pass looks for uploads.
spec fn is_pass_step(
    queue: PendingCloudUploadVerification,
    now: u64,
    step: Progress<PendingUploadVerifier, bool>,
    steps: Seq<Progress<PendingUploadVerifier, bool>>,
    replies: Seq<Reply>,
    at: int,
) -> bool {
    match step {
        Progress::Ask { flow, effects, request } => {
            &&& effects@.len() == 0
            &&& match flow {
                PendingUploadVerifier::Check { queue: current, checked_at, index } => {
                    &&& current.namespace_id == queue.namespace_id
                    &&& checked_at == now
                    &&& index < queue.blobs@.len()
                    &&& is_through(queue, now, current.blobs@, index as int, steps, replies, at)
                    &&& queue.blobs@[index as int].confirmed_at is None
                    &&& request == Request::IsBackupUploaded {
                        namespace: queue.namespace_id,
                        record_id: queue.blobs@[index as int].record_id,
                    }
                },
                PendingUploadVerifier::Save { still_pending } => {
                    &&& request matches Request::SavePendingUploads(saved)
                    &&& saved.namespace_id@ == queue.namespace_id@
                    &&& is_through(
                        queue,
                        now,
                        saved.blobs@,
                        queue.blobs@.len() as int,
                        steps,
                        replies,
                        at,
                    )
                    &&& still_pending <==> exists|i: int|
                        0 <= i < saved.blobs@.len() && (
                        #[trigger] saved.blobs@[i]).confirmed_at is None
                },
                _ => false,
            }
        },
        Progress::Done { effects, value } => {
            &&& at > 2
            &&& steps[at - 1] matches Progress::Ask {
                request: Request::SavePendingUploads(saved),
                ..
            }
            &&& replies[at - 1] matches Reply::Written(written)
            &&& match written {
                Ok(_) => {
                    &&& value <==> exists|i: int|
                        0 <= i < saved.blobs@.len() && (
                        #[trigger] saved.blobs@[i]).confirmed_at is None
                    &&& tells_pending(effects@, value)
                },
                Err(_) => value && effects@.len() == 0,
            }
        },
        Progress::Refused { .. } => true,
    }
}

proof fn lemma_goes_on(
    queue: PendingCloudUploadVerification,
    now: u64,
    blobs: Seq<PendingCloudUploadBlob>,
    from: int,
    step: Progress<PendingUploadVerifier, bool>,
    steps: Seq<Progress<PendingUploadVerifier, bool>>,
    replies: Seq<Reply>,
    at: int,
)
    requires
        is_through(queue, now, blobs, from, steps, replies, at),
        PendingUploadVerifier::goes_on(queue.namespace_id, blobs, now, from, step),
    ensures
        is_pass_step(queue, now, step, steps, replies, at),
{
    lemma_next_unconfirmed(blobs, from);
    let index = next_unconfirmed(blobs, from);
    assert(is_through(queue, now, blobs, index, steps, replies, at));
}

proof fn lemma_pass_steps(
    queue: PendingCloudUploadVerification,
    now: u64,
    steps: Seq<Progress<PendingUploadVerifier, bool>>,
    replies: Seq<Reply>,
    at: int,
)
    requires
        PendingUploadVerifier::began(steps[0]),
        is_conversation(steps, replies),
        2 <= at < steps.len(),
        replies[0] == Reply::PendingUploads(Ok(Some(queue))),
        replies[1] == Reply::Time(now),
    ensures
        is_pass_step(queue, now, steps[at], steps, replies, at),
    decreases at,
{
    assert(continues(steps[at - 1], replies[at - 1], steps[at]));
    if at == 2 {
        assert(continues(steps[0], replies[0], steps[1]));
        if !(steps[2] is Refused) {
            lemma_goes_on(queue, now, queue.blobs@, 0, steps[2], steps, replies, 2);
        }
    } else {
        lemma_pass_steps(queue, now, steps, replies, at - 1);
        if let Progress::Ask {
            flow: PendingUploadVerifier::Check { queue: current, checked_at, index },
            ..
        } = steps[at - 1] {
            if let Reply::Uploaded(answer) = replies[at - 1] {
                let blob = current.blobs@[index as int];
                let result = super::check_result(answer);
                let blobs = current.blobs@.update(index as int, blob.checked(now, result));
                if !(steps[at] is Refused) {
                    assert(is_looked_after(
                        queue.namespace_id,
                        now,
                        queue.blobs@[index as int],
                        blobs[index as int],
                        steps,
                        replies,
                        at,
                    )) by {
                        assert(replies[at - 1] is Uploaded);
                    }
                    assert forall|i: int| 0 <= i < index + 1 implies is_looked_after(
                        queue.namespace_id,
                        now,
                        queue.blobs@[i],
                        #[trigger] blobs[i],
                        steps,
                        replies,
                        at,
                    ) by {
                        if i < index {
                            lemma_looked_after_later(
                                queue.namespace_id,
                                now,
                                queue.blobs@[i],
                                blobs[i],
                                steps,
                                replies,
                                at - 1,
                            );
                        }
                    }
                    assert(is_through(queue, now, blobs, index + 1, steps, replies, at));
                    lemma_goes_on(queue, now, blobs, index + 1, steps[at], steps, replies, at);
                }
            }
        }
    }
}

proof fn lemma_looked_after_later(
    namespace: String,
    now: u64,
    before: PendingCloudUploadBlob,
    after: PendingCloudUploadBlob,
    steps: Seq<Progress<PendingUploadVerifier, bool>>,
    replies: Seq<Reply>,
    until: int,
)
    requires
        is_looked_after(namespace, now, before, after, steps, replies, until),
    ensures
        is_looked_after(namespace, now, before, after, steps, replies, until + 1),
{
}

/// Every question of a pass is for an upload of the queue that was read and that is not confirmed,
/// in the namespace of that queue.
pub proof fn law_pass_asks_for_the_queued_uploads(
    steps: Seq<Progress<PendingUploadVerifier, bool>>,
    replies: Seq<Reply>,
    at: int,
)
    requires
        PendingUploadVerifier::began(steps[0]),
        is_conversation(steps, replies),
        0 <= at < steps.len(),
    ensures
        steps[0].requests(Request::ReadPendingUploads),
        steps[at] matches Progress::Ask {
            request: Request::IsBackupUploaded { namespace, record_id },
            ..
        } ==> {
            &&& replies[0] matches Reply::PendingUploads(Ok(Some(queue)))
            &&& namespace == queue.namespace_id
            &&& exists|i: int|
                0 <= i < queue.blobs@.len() && (#[trigger] queue.blobs@[i]).confirmed_at is None
                    && queue.blobs@[i].record_id == record_id
        },
{
    if at > 0 {
        assert(continues(steps[0], replies[0], steps[1]));
    }
    if at > 1 {
        assert(continues(steps[1], replies[1], steps[2]));
        if let (Reply::PendingUploads(Ok(Some(queue))), Reply::Time(now)) = (
            replies[0],
            replies[1],
        ) {
            lemma_pass_steps(queue, now, steps, replies, at);
        } else if !(steps[2] is Ask) {
            lemma_stop_is_last(steps, replies, 2);
        }
    }
}

/// A pass that gets to write the queue writes it with every upload looked after: in the same
/// namespace, in the same order, the confirmed ones as they were, and each other one as the cloud
/// answered for it.
pub proof fn law_pass_looks_after_every_upload(
    queue: PendingCloudUploadVerification,
    now: u64,
    steps: Seq<Progress<PendingUploadVerifier, bool>>,
    replies: Seq<Reply>,
    at: int,
)
    requires
        PendingUploadVerifier::began(steps[0]),
        is_conversation(steps, replies),
        2 <= at < steps.len(),
        replies[0] == Reply::PendingUploads(Ok(Some(queue))),
        replies[1] == Reply::Time(now),
    ensures
        steps[at] is Ask ==> steps[1].requests(Request::ReadClock),
        steps[at] matches Progress::Ask { request, .. } ==> (request is IsBackupUploaded
            || request is SavePendingUploads),
        steps[at] matches Progress::Ask { request: Request::SavePendingUploads(saved), .. } ==> {
            &&& saved.namespace_id@ == queue.namespace_id@
            &&& saved.blobs@.len() == queue.blobs@.len()
            &&& forall|i: int|
                0 <= i < saved.blobs@.len() ==> is_looked_after(
                    queue.namespace_id,
                    now,
                    queue.blobs@[i],
                    #[trigger] saved.blobs@[i],
                    steps,
                    replies,
                    at,
                )
        },
{
    assert(continues(steps[0], replies[0], steps[1]));
    assert(continues(steps[1], replies[1], steps[2]));
    if !(steps[2] is Ask) {
        lemma_stop_is_last(steps, replies, 2);
    }
    lemma_pass_steps(queue, now, steps, replies, at);
}

/// A pass says that uploads are still to be watched if some upload that it wrote is not confirmed,
/// or if the queue could not be read, written or deleted, and else that none are. It tells the user
/// the same, unless it could not reach the queue.
pub proof fn law_pass_says_whether_uploads_are_pending(
    steps: Seq<Progress<PendingUploadVerifier, bool>>,
    replies: Seq<Reply>,
    effects: Vec<Effect>,
    still_pending: bool,
)
    requires
        PendingUploadVerifier::began(steps[0]),
        is_conversation(steps, replies),
        steps.last() matches Progress::Done { effects: told, value } && told == effects && value
            == still_pending,
    ensures
        match replies.last() {
            Reply::PendingUploads(Ok(stored)) => {
                &&& stored matches Some(queue) ==> queue.blobs@.len() > 0 && forall|i: int|
                    0 <= i < queue.blobs@.len() ==> (
                    #[trigger] queue.blobs@[i]).confirmed_at is Some
                &&& !still_pending
                &&& tells_pending(effects@, false)
            },
            Reply::PendingUploads(Err(_)) => still_pending && effects@.len() == 0,
            Reply::Written(Err(_)) => still_pending && effects@.len() == 0,
            Reply::Written(Ok(_)) => match steps[steps.len() - 2] {
                Progress::Ask { request: Request::SavePendingUploads(saved), .. } => {
                    &&& still_pending <==> exists|i: int|
                        0 <= i < saved.blobs@.len() && (
                        #[trigger] saved.blobs@[i]).confirmed_at is None
                    &&& tells_pending(effects@, still_pending)
                },
                Progress::Ask { request: Request::DeletePendingUploads, .. } => {
                    &&& replies[0] matches Reply::PendingUploads(Ok(Some(queue)))
                    &&& queue.blobs@.len() == 0
                    &&& !still_pending
                    &&& tells_pending(effects@, false)
                },
                _ => false,
            },
            _ => false,
        },
{
    assert(continues(steps[0], replies[0], steps[1]));
    if steps[1] is Ask {
        assert(continues(steps[1], replies[1], steps[2]));
        if let (Reply::PendingUploads(Ok(Some(queue))), Reply::Time(now)) = (
            replies[0],
            replies[1],
        ) {
            lemma_pass_steps(queue, now, steps, replies, steps.len() - 1);
        } else {
            lemma_stop_is_last(steps, replies, 2);
        }
    } else {
        lemma_stop_is_last(steps, replies, 1);
    }
}

} // verus!
