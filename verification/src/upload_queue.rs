//! The queue of uploads that the cloud has not been seen to hold yet.

use vstd::prelude::*;

use crate::sequences::{lemma_filter_contains, lemma_filter_ends, lemma_filter_take};
use crate::text::{contains_text, texts};

verus! {

/// The uploads of one namespace whose arrival is still being watched.
#[derive(Debug, Clone, PartialEq, Eq)]
pub struct PendingCloudUploadVerification {
    pub namespace_id: String,
    pub blobs: Vec<PendingCloudUploadBlob>,
}

/// One upload whose arrival is still being watched.
#[derive(Debug, PartialEq, Eq)]
pub struct PendingCloudUploadBlob {
    pub record_id: String,
    pub enqueued_at: u64,
    pub last_checked_at: Option<u64>,
    pub attempt_count: u32,
    /// Set once the cloud confirms the blob, which is then kept until the listing catches up.
    pub confirmed_at: Option<u64>,
}

/// What the cloud says of one upload.
#[derive(Debug, PartialEq, Eq)]
pub enum BlobCheckResult {
    Confirmed,
    NotYetUploaded,
    Failed(String),
}

impl Clone for PendingCloudUploadBlob {
    fn clone(&self) -> (copy: Self)
        ensures
            copy == *self,
    {
        PendingCloudUploadBlob {
            record_id: self.record_id.clone(),
            enqueued_at: self.enqueued_at,
            last_checked_at: self.last_checked_at,
            attempt_count: self.attempt_count,
            confirmed_at: self.confirmed_at,
        }
    }
}

/// The record identifiers in a queue, in order.
pub open spec fn queued_ids(blobs: Seq<PendingCloudUploadBlob>) -> Seq<Seq<char>> {
    blobs.map_values(|blob: PendingCloudUploadBlob| blob.record_id@)
}

/// Whether some blob still awaits confirmation.
pub open spec fn some_unconfirmed(blobs: Seq<PendingCloudUploadBlob>) -> bool {
    exists|i: int| 0 <= i < blobs.len() && (#[trigger] blobs[i]).confirmed_at is None
}

/// The blobs that a listing leaves in the queue: those not confirmed, and those not listed.
pub open spec fn blobs_after_listing(
    blobs: Seq<PendingCloudUploadBlob>,
    listed: Seq<Seq<char>>,
) -> Seq<PendingCloudUploadBlob> {
    blobs.filter(
        |blob: PendingCloudUploadBlob|
            blob.confirmed_at is None || !listed.contains(blob.record_id@),
    )
}

/// The blobs whose record is none of `record_ids`.
pub open spec fn blobs_without(
    blobs: Seq<PendingCloudUploadBlob>,
    record_ids: Seq<Seq<char>>,
) -> Seq<PendingCloudUploadBlob> {
    blobs.filter(|blob: PendingCloudUploadBlob| !record_ids.contains(blob.record_id@))
}

/// A blob that has just been uploaded.
pub open spec fn fresh_blob(record_id: String, now: u64) -> PendingCloudUploadBlob {
    PendingCloudUploadBlob {
        record_id,
        enqueued_at: now,
        last_checked_at: None,
        attempt_count: 0,
        confirmed_at: None,
    }
}

/// A queue after `record_ids` were added in turn: a record that is in the queue already is not
/// added again.
pub open spec fn blobs_with_added(
    blobs: Seq<PendingCloudUploadBlob>,
    record_ids: Seq<String>,
    now: u64,
) -> Seq<PendingCloudUploadBlob>
    decreases record_ids.len(),
{
    if record_ids.len() == 0 {
        blobs
    } else {
        let before = blobs_with_added(blobs, record_ids.drop_last(), now);
        if queued_ids(before).contains(record_ids.last()@) {
            before
        } else {
            before.push(fresh_blob(record_ids.last(), now))
        }
    }
}

/// The blobs of a stored queue that count for `namespace_id`: none if the queue is of another
/// namespace.
pub open spec fn blobs_of_namespace(
    stored: Option<PendingCloudUploadVerification>,
    namespace_id: Seq<char>,
) -> Seq<PendingCloudUploadBlob> {
    match stored {
        Some(queue) => if queue.namespace_id@ == namespace_id {
            queue.blobs@
        } else {
            Seq::empty()
        },
        None => Seq::empty(),
    }
}

impl PendingCloudUploadBlob {
    /// The blob after a check at `checked_at`.
    pub open spec fn checked(self, checked_at: u64, result: BlobCheckResult) -> Self {
        match result {
            BlobCheckResult::Confirmed => PendingCloudUploadBlob {
                confirmed_at: Some(checked_at),
                ..self
            },
            _ => PendingCloudUploadBlob {
                last_checked_at: Some(checked_at),
                attempt_count: (self.attempt_count + 1) as u32,
                ..self
            },
        }
    }
}

/// Whether a queued record is `record_id`.
fn is_queued(blobs: &Vec<PendingCloudUploadBlob>, record_id: &String) -> (found: bool)
    ensures
        found == queued_ids(blobs@).contains(record_id@),
{
    let mut i: usize = 0;
    while i < blobs.len()
        invariant
            i <= blobs@.len(),
            forall|j: int| 0 <= j < i ==> queued_ids(blobs@)[j] != record_id@,
        decreases blobs@.len() - i,
    {
        if blobs[i].record_id == *record_id {
            assert(queued_ids(blobs@)[i as int] == record_id@);
            return true;
        }
        i += 1;
    }
    false
}

impl PendingCloudUploadVerification {
    /// Returns true if there are blobs still awaiting confirmation
    pub fn has_unconfirmed(&self) -> (found: bool)
        ensures
            found == some_unconfirmed(self.blobs@),
    {
        let mut i: usize = 0;
        while i < self.blobs.len()
            invariant
                i <= self.blobs@.len(),
                forall|j: int| 0 <= j < i ==> (#[trigger] self.blobs@[j]).confirmed_at is Some,
            decreases self.blobs@.len() - i,
        {
            if self.blobs[i].confirmed_at.is_none() {
                return true;
            }
            i += 1;
        }
        false
    }

    /// Remove confirmed blobs whose record_ids appear in the listing
    pub fn cleanup_listed(&mut self, listed_ids: &Vec<String>)
        ensures
            final(self).namespace_id == old(self).namespace_id,
            final(self).blobs@ == blobs_after_listing(old(self).blobs@, texts(listed_ids@)),
    {
        let ghost all = self.blobs@;
        let ghost listed = texts(listed_ids@);
        let ghost keep = |blob: PendingCloudUploadBlob|
            blob.confirmed_at is None || !listed.contains(blob.record_id@);
        let mut kept: Vec<PendingCloudUploadBlob> = Vec::new();
        let mut i: usize = 0;
        proof {
            lemma_filter_ends(all, keep);
        }
        while i < self.blobs.len()
            invariant
                i <= all.len(),
                self.blobs@ == all,
                self.namespace_id == old(self).namespace_id,
                listed == texts(listed_ids@),
                keep == (|blob: PendingCloudUploadBlob|
                    blob.confirmed_at is None || !listed.contains(blob.record_id@)),
                kept@ == all.take(i as int).filter(keep),
            decreases all.len() - i,
        {
            proof {
                lemma_filter_take(all, i as int, keep);
            }
            if self.blobs[i].confirmed_at.is_none() || !contains_text(
                listed_ids,
                &self.blobs[i].record_id,
            ) {
                kept.push(self.blobs[i].clone());
            }
            i += 1;
        }
        self.blobs = kept;
    }

    /// Removes the blobs of `record_ids`, confirmed or not.
    pub fn remove_records(&mut self, record_ids: &Vec<String>)
        ensures
            final(self).namespace_id == old(self).namespace_id,
            final(self).blobs@ == blobs_without(old(self).blobs@, texts(record_ids@)),
    {
        let ghost all = self.blobs@;
        let ghost gone = texts(record_ids@);
        let ghost keep = |blob: PendingCloudUploadBlob| !gone.contains(blob.record_id@);
        let mut kept: Vec<PendingCloudUploadBlob> = Vec::new();
        let mut i: usize = 0;
        proof {
            lemma_filter_ends(all, keep);
        }
        while i < self.blobs.len()
            invariant
                i <= all.len(),
                self.blobs@ == all,
                self.namespace_id == old(self).namespace_id,
                gone == texts(record_ids@),
                keep == (|blob: PendingCloudUploadBlob| !gone.contains(blob.record_id@)),
                kept@ == all.take(i as int).filter(keep),
            decreases all.len() - i,
        {
            proof {
                lemma_filter_take(all, i as int, keep);
            }
            if !contains_text(record_ids, &self.blobs[i].record_id) {
                kept.push(self.blobs[i].clone());
            }
            i += 1;
        }
        self.blobs = kept;
    }

    /// Adds `record_ids` in turn, each one that is not queued yet, as uploaded at `now`.
    pub fn add_records(&mut self, record_ids: Vec<String>, now: u64)
        ensures
            final(self).namespace_id == old(self).namespace_id,
            final(self).blobs@ == blobs_with_added(old(self).blobs@, record_ids@, now),
    {
        let ghost before = self.blobs@;
        for record_id in iter: record_ids
            invariant
                self.namespace_id == old(self).namespace_id,
                self.blobs@ == blobs_with_added(
                    before,
                    iter.seq().take(iter.index() as int),
                    now,
                ),
        {
            assert(iter.seq().take(iter.index() + 1).drop_last() =~= iter.seq().take(
                iter.index() as int,
            ));
            if !is_queued(&self.blobs, &record_id) {
                self.blobs.push(
                    PendingCloudUploadBlob {
                        record_id,
                        enqueued_at: now,
                        last_checked_at: None,
                        attempt_count: 0,
                        confirmed_at: None,
                    },
                );
            }
        }
        assert(record_ids@.take(record_ids@.len() as int) =~= record_ids@);
    }

    /// The queue for `namespace_id`: the stored one if it is of that namespace, else an empty one.
    pub fn for_namespace(stored: Option<Self>, namespace_id: &String) -> (queue: Self)
        ensures
            queue.namespace_id@ == namespace_id@,
            queue.blobs@ == blobs_of_namespace(stored, namespace_id@),
    {
        if let Some(existing) = stored {
            if existing.namespace_id == *namespace_id {
                return existing;
            }
        }
        PendingCloudUploadVerification { namespace_id: namespace_id.clone(), blobs: Vec::new() }
    }
}

proof fn lemma_added(
    blobs: Seq<PendingCloudUploadBlob>,
    record_ids: Seq<String>,
    now: u64,
)
    ensures
        blobs.is_prefix_of(blobs_with_added(blobs, record_ids, now)),
        forall|i: int|
            0 <= i < record_ids.len() ==> queued_ids(
                blobs_with_added(blobs, record_ids, now),
            ).contains(#[trigger] record_ids[i]@),
        forall|i: int|
            blobs.len() <= i < blobs_with_added(blobs, record_ids, now).len() ==> texts(
                record_ids,
            ).contains((#[trigger] blobs_with_added(blobs, record_ids, now)[i]).record_id@),
    decreases record_ids.len(),
{
    let after = blobs_with_added(blobs, record_ids, now);
    if record_ids.len() > 0 {
        let before = blobs_with_added(blobs, record_ids.drop_last(), now);
        lemma_added(blobs, record_ids.drop_last(), now);
        let last = record_ids.last()@;
        if !queued_ids(before).contains(last) {
            assert(queued_ids(after)[before.len() as int] == last);
        }
        assert forall|i: int| 0 <= i < record_ids.len() implies queued_ids(after).contains(
            #[trigger] record_ids[i]@,
        ) by {
            if i < record_ids.len() - 1 {
                assert(record_ids.drop_last()[i] == record_ids[i]);
                let at = queued_ids(before).index_of(record_ids[i]@);
                assert(queued_ids(before).contains(record_ids[i]@));
                assert(queued_ids(after)[at] == queued_ids(before)[at]);
            }
        }
        assert forall|i: int| blobs.len() <= i < after.len() implies texts(record_ids).contains(
            (#[trigger] after[i]).record_id@,
        ) by {
            if i < before.len() {
                assert(texts(record_ids.drop_last()).contains(before[i].record_id@));
                let at = texts(record_ids.drop_last()).index_of(before[i].record_id@);
                assert(texts(record_ids)[at] == after[i].record_id@);
            } else {
                assert(texts(record_ids)[record_ids.len() - 1] == after[i].record_id@);
            }
        }
        assert(blobs =~= after.subrange(0, blobs.len() as int));
    } else {
        assert(blobs =~= after.subrange(0, blobs.len() as int));
    }
}

/// Queueing uploads leaves every upload that is queued as it is, and in its place.
pub proof fn law_enqueue_keeps_queue(
    blobs: Seq<PendingCloudUploadBlob>,
    record_ids: Seq<String>,
    now: u64,
)
    ensures
        blobs.is_prefix_of(blobs_with_added(blobs, record_ids, now)),
{
    lemma_added(blobs, record_ids, now);
}

/// A record is watched after it was queued, and no record is watched that was neither queued before
/// nor now.
pub proof fn law_enqueue_watches_records(
    blobs: Seq<PendingCloudUploadBlob>,
    record_ids: Seq<String>,
    now: u64,
    record_id: Seq<char>,
)
    ensures
        queued_ids(blobs_with_added(blobs, record_ids, now)).contains(record_id) <==> queued_ids(
            blobs,
        ).contains(record_id) || texts(record_ids).contains(record_id),
{
    let after = blobs_with_added(blobs, record_ids, now);
    lemma_added(blobs, record_ids, now);
    if queued_ids(after).contains(record_id) {
        let at = queued_ids(after).index_of(record_id);
        if at < blobs.len() {
            assert(queued_ids(blobs)[at] == record_id);
        } else {
            assert(after[at].record_id@ == record_id);
        }
    }
    if queued_ids(blobs).contains(record_id) {
        let at = queued_ids(blobs).index_of(record_id);
        assert(after.subrange(0, blobs.len() as int)[at] == blobs[at]);
        assert(queued_ids(after)[at] == record_id);
    }
    if texts(record_ids).contains(record_id) {
        let at = texts(record_ids).index_of(record_id);
        assert(record_ids[at]@ == record_id);
    }
}

/// No upload is queued twice.
pub proof fn law_enqueue_adds_no_duplicates(
    blobs: Seq<PendingCloudUploadBlob>,
    record_ids: Seq<String>,
    now: u64,
)
    requires
        queued_ids(blobs).no_duplicates(),
    ensures
        queued_ids(blobs_with_added(blobs, record_ids, now)).no_duplicates(),
    decreases record_ids.len(),
{
    if record_ids.len() > 0 {
        law_enqueue_adds_no_duplicates(blobs, record_ids.drop_last(), now);
        let before = blobs_with_added(blobs, record_ids.drop_last(), now);
        let after = blobs_with_added(blobs, record_ids, now);
        let last = record_ids.last()@;
        if !queued_ids(before).contains(last) {
            assert(queued_ids(after) =~= queued_ids(before).push(last));
        }
    }
}

proof fn lemma_add_known(blobs: Seq<PendingCloudUploadBlob>, record_ids: Seq<String>, now: u64)
    requires
        forall|i: int|
            0 <= i < record_ids.len() ==> queued_ids(blobs).contains(#[trigger] record_ids[i]@),
    ensures
        blobs_with_added(blobs, record_ids, now) == blobs,
    decreases record_ids.len(),
{
    if record_ids.len() > 0 {
        assert forall|i: int| 0 <= i < record_ids.drop_last().len() implies queued_ids(
            blobs,
        ).contains(#[trigger] record_ids.drop_last()[i]@) by {
            assert(record_ids.drop_last()[i] == record_ids[i]);
        }
        lemma_add_known(blobs, record_ids.drop_last(), now);
        assert(queued_ids(blobs).contains(record_ids[record_ids.len() - 1]@));
    }
}

/// Queueing the same uploads again changes nothing: in particular they keep their times and counts.
pub proof fn law_enqueue_again_changes_nothing(
    blobs: Seq<PendingCloudUploadBlob>,
    record_ids: Seq<String>,
    now: u64,
    later: u64,
)
    ensures
        blobs_with_added(blobs_with_added(blobs, record_ids, now), record_ids, later)
            == blobs_with_added(blobs, record_ids, now),
{
    lemma_added(blobs, record_ids, now);
    lemma_add_known(blobs_with_added(blobs, record_ids, now), record_ids, later);
}

/// Removing uploads that were just queued leaves of the queue what removing them before would have.
pub proof fn law_remove_undoes_enqueue(
    blobs: Seq<PendingCloudUploadBlob>,
    record_ids: Seq<String>,
    now: u64,
)
    ensures
        blobs_without(blobs_with_added(blobs, record_ids, now), texts(record_ids)) == blobs_without(
            blobs,
            texts(record_ids),
        ),
{
    let keep = |blob: PendingCloudUploadBlob| !texts(record_ids).contains(blob.record_id@);
    let after = blobs_with_added(blobs, record_ids, now);
    lemma_added(blobs, record_ids, now);
    let n = blobs.len() as int;
    assert(after.take(n) =~= blobs) by {
        assert(after.subrange(0, n) == blobs);
    }
    lemma_drop_rejected(after, n, keep);
}

/// A filter passes over a tail that it keeps nothing of.
proof fn lemma_drop_rejected<A>(s: Seq<A>, n: int, keep: spec_fn(A) -> bool)
    requires
        0 <= n <= s.len(),
        forall|i: int| n <= i < s.len() ==> !keep(#[trigger] s[i]),
    ensures
        s.filter(keep) == s.take(n).filter(keep),
    decreases s.len(),
{
    if s.len() == n {
        assert(s.take(n) =~= s);
    } else {
        let shorter = s.drop_last();
        assert forall|i: int| n <= i < shorter.len() implies !keep(#[trigger] shorter[i]) by {
            assert(shorter[i] == s[i]);
        }
        lemma_drop_rejected(shorter, n, keep);
        assert(shorter.take(n) =~= s.take(n));
        reveal(Seq::filter);
        assert(!keep(s[s.len() - 1]));
    }
}

/// After a removal none of the records is watched any more, and every other one still is.
pub proof fn law_remove_unwatches_records(
    blobs: Seq<PendingCloudUploadBlob>,
    record_ids: Seq<Seq<char>>,
    blob: PendingCloudUploadBlob,
)
    ensures
        blobs_without(blobs, record_ids).contains(blob) <==> blobs.contains(blob)
            && !record_ids.contains(blob.record_id@),
{
    let keep = |kept: PendingCloudUploadBlob| !record_ids.contains(kept.record_id@);
    lemma_filter_contains(blobs, keep, blob);
}

/// A listing takes an upload out of the queue only if the upload was confirmed and is listed.
pub proof fn law_cleanup_needs_confirmation_and_listing(
    blobs: Seq<PendingCloudUploadBlob>,
    listed: Seq<Seq<char>>,
    blob: PendingCloudUploadBlob,
)
    ensures
        blobs_after_listing(blobs, listed).contains(blob) <==> blobs.contains(blob) && (
        blob.confirmed_at is None || !listed.contains(blob.record_id@)),
{
    let keep = |kept: PendingCloudUploadBlob|
        kept.confirmed_at is None || !listed.contains(kept.record_id@);
    lemma_filter_contains(blobs, keep, blob);
}

/// A listing does not change whether uploads are still to be confirmed.
pub proof fn law_cleanup_keeps_unconfirmed(
    blobs: Seq<PendingCloudUploadBlob>,
    listed: Seq<Seq<char>>,
)
    ensures
        some_unconfirmed(blobs_after_listing(blobs, listed)) == some_unconfirmed(blobs),
{
    let left = blobs_after_listing(blobs, listed);
    if some_unconfirmed(left) {
        let i = choose|i: int| 0 <= i < left.len() && (#[trigger] left[i]).confirmed_at is None;
        law_cleanup_needs_confirmation_and_listing(blobs, listed, left[i]);
        assert(left.contains(left[i]));
        let at = blobs.index_of(left[i]);
        assert(blobs[at].confirmed_at is None);
    }
    if some_unconfirmed(blobs) {
        let i = choose|i: int| 0 <= i < blobs.len() && (#[trigger] blobs[i]).confirmed_at is None;
        law_cleanup_needs_confirmation_and_listing(blobs, listed, blobs[i]);
        assert(blobs.contains(blobs[i]));
        let at = left.index_of(blobs[i]);
        assert(left[at].confirmed_at is None);
    }
}

/// An upload that is newly queued is one of those asked for, uploaded now, not looked for yet and
/// not confirmed, and its record is in the queue nowhere else before it.
pub proof fn law_enqueued_upload_is_new(
    blobs: Seq<PendingCloudUploadBlob>,
    record_ids: Seq<String>,
    now: u64,
    at: int,
)
    requires
        blobs.len() <= at < blobs_with_added(blobs, record_ids, now).len(),
    ensures
        ({
            let after = blobs_with_added(blobs, record_ids, now);
            &&& exists|i: int|
                0 <= i < record_ids.len() && (#[trigger] record_ids[i]) == after[at].record_id
            &&& after[at].enqueued_at == now
            &&& after[at].last_checked_at is None
            &&& after[at].attempt_count == 0
            &&& after[at].confirmed_at is None
            &&& forall|i: int|
                0 <= i < at ==> (#[trigger] after[i]).record_id@ != after[at].record_id@
        }),
    decreases record_ids.len(),
{
    let after = blobs_with_added(blobs, record_ids, now);
    let shorter = record_ids.drop_last();
    let before = blobs_with_added(blobs, shorter, now);
    lemma_added(blobs, shorter, now);
    if at < before.len() {
        law_enqueued_upload_is_new(blobs, shorter, now, at);
        let i = choose|i: int|
            0 <= i < shorter.len() && (#[trigger] shorter[i]) == before[at].record_id;
        assert(record_ids[i] == after[at].record_id);
        assert forall|i: int| 0 <= i < at implies (#[trigger] after[i]).record_id@
            != after[at].record_id@ by {
            assert(before[i].record_id@ != before[at].record_id@);
        }
    } else {
        assert(record_ids[record_ids.len() - 1] == after[at].record_id);
        assert forall|i: int| 0 <= i < at implies (#[trigger] after[i]).record_id@
            != after[at].record_id@ by {
            assert(queued_ids(before)[i] == after[i].record_id@);
        }
    }
}

/// A check that finds the upload confirms it at the time of the check, and one that does not counts
/// one attempt more at that time; neither changes anything else.
pub proof fn law_check_confirms_or_counts(
    blob: PendingCloudUploadBlob,
    checked_at: u64,
    result: BlobCheckResult,
)
    requires
        result is Confirmed || blob.attempt_count < u32::MAX,
    ensures
        blob.checked(checked_at, result).record_id == blob.record_id,
        blob.checked(checked_at, result).enqueued_at == blob.enqueued_at,
        if result is Confirmed {
            &&& blob.checked(checked_at, result).confirmed_at == Some(checked_at)
            &&& blob.checked(checked_at, result).last_checked_at == blob.last_checked_at
            &&& blob.checked(checked_at, result).attempt_count == blob.attempt_count
        } else {
            &&& blob.checked(checked_at, result).confirmed_at == blob.confirmed_at
            &&& blob.checked(checked_at, result).last_checked_at == Some(checked_at)
            &&& blob.checked(checked_at, result).attempt_count == blob.attempt_count + 1
        },
{
}

/// A stored queue counts for its own namespace alone.
pub proof fn law_queue_counts_for_its_namespace(
    queue: PendingCloudUploadVerification,
    namespace_id: Seq<char>,
)
    ensures
        blobs_of_namespace(None, namespace_id).len() == 0,
        blobs_of_namespace(Some(queue), queue.namespace_id@) == queue.blobs@,
        queue.namespace_id@ != namespace_id ==> blobs_of_namespace(Some(queue), namespace_id).len()
            == 0,
{
}

/// Whatever is done to a queue, it stays the queue of its namespace.
pub proof fn law_queue_stays_with_its_namespace(
    queue: &mut PendingCloudUploadVerification,
    record_ids: Vec<String>,
    now: u64,
)
    requires
        call_ensures(PendingCloudUploadVerification::cleanup_listed, (queue, &record_ids), ())
            || call_ensures(
            PendingCloudUploadVerification::remove_records,
            (queue, &record_ids),
            (),
        ) || call_ensures(
            PendingCloudUploadVerification::add_records,
            (queue, record_ids, now),
            (),
        ),
    ensures
        final(queue).namespace_id == old(queue).namespace_id,
{
}

} // verus!
