use cloud_backup::flows::queue::PendingUploadVerifier;
use cloud_backup::protocol::{Progress, Reply};
use cloud_backup::upload_queue::{
    BlobCheckResult, PendingCloudUploadBlob, PendingCloudUploadVerification,
};

fn blob(record_id: &str, confirmed_at: Option<u64>) -> PendingCloudUploadBlob {
    PendingCloudUploadBlob {
        record_id: record_id.to_string(),
        enqueued_at: 3,
        last_checked_at: None,
        attempt_count: 2,
        confirmed_at,
    }
}

fn queue(blobs: Vec<PendingCloudUploadBlob>) -> PendingCloudUploadVerification {
    PendingCloudUploadVerification { namespace_id: "ns".to_string(), blobs }
}

fn ids(queue: &PendingCloudUploadVerification) -> Vec<&str> {
    queue.blobs.iter().map(|blob| blob.record_id.as_str()).collect()
}

#[test]
fn apply_blob_result_confirms_blob() {
    let mut blob = PendingCloudUploadBlob {
        record_id: "wallet-a".into(),
        enqueued_at: 10,
        last_checked_at: None,
        attempt_count: 0,
        confirmed_at: None,
    };

    PendingUploadVerifier::apply_blob_result(&mut blob, 20, &BlobCheckResult::Confirmed);

    assert_eq!(blob.confirmed_at, Some(20));
    assert_eq!(blob.last_checked_at, None);
    assert_eq!(blob.attempt_count, 0);
}

#[test]
fn apply_blob_result_tracks_pending_blob() {
    let mut blob = PendingCloudUploadBlob {
        record_id: "wallet-a".into(),
        enqueued_at: 10,
        last_checked_at: None,
        attempt_count: 0,
        confirmed_at: None,
    };

    PendingUploadVerifier::apply_blob_result(&mut blob, 20, &BlobCheckResult::NotYetUploaded);

    assert_eq!(blob.confirmed_at, None);
    assert_eq!(blob.last_checked_at, Some(20));
    assert_eq!(blob.attempt_count, 1);
}

#[test]
fn apply_blob_result_tracks_failed_blob() {
    let mut blob = PendingCloudUploadBlob {
        record_id: "wallet-a".into(),
        enqueued_at: 10,
        last_checked_at: None,
        attempt_count: 0,
        confirmed_at: None,
    };

    PendingUploadVerifier::apply_blob_result(
        &mut blob,
        20,
        &BlobCheckResult::Failed("boom".into()),
    );

    assert_eq!(blob.confirmed_at, None);
    assert_eq!(blob.last_checked_at, Some(20));
    assert_eq!(blob.attempt_count, 1);
}

#[test]
fn a_queue_awaits_its_unconfirmed_blobs() {
    assert!(!queue(Vec::new()).has_unconfirmed());
    assert!(!queue(vec![blob("a", Some(1))]).has_unconfirmed());
    assert!(queue(vec![blob("a", Some(1)), blob("b", None)]).has_unconfirmed());
}

#[test]
fn a_listing_removes_only_confirmed_blobs() {
    let mut pending =
        queue(vec![blob("a", Some(1)), blob("b", None), blob("c", Some(2)), blob("d", None)]);
    pending.cleanup_listed(&vec!["a".to_string(), "b".to_string()]);
    assert_eq!(ids(&pending), ["b", "c", "d"]);
    assert!(pending.has_unconfirmed());
    assert_eq!(pending.namespace_id, "ns");
}

#[test]
fn records_are_queued_once() {
    let mut pending = queue(vec![blob("a", Some(1))]);
    let added: Vec<String> = ["b", "a", "b", "c"].iter().map(|id| id.to_string()).collect();
    pending.add_records(added.clone(), 50);
    assert_eq!(ids(&pending), ["a", "b", "c"]);
    assert_eq!(pending.blobs[0], blob("a", Some(1)));
    assert_eq!(
        pending.blobs[1],
        PendingCloudUploadBlob {
            record_id: "b".to_string(),
            enqueued_at: 50,
            last_checked_at: None,
            attempt_count: 0,
            confirmed_at: None,
        }
    );
    let before = pending.clone();
    pending.add_records(added, 60);
    assert_eq!(pending, before);
}

#[test]
fn removed_records_are_gone() {
    let mut pending = queue(vec![blob("a", None), blob("b", None)]);
    pending.add_records(vec!["c".to_string(), "d".to_string()], 9);
    pending.remove_records(&vec!["d".to_string(), "a".to_string(), "x".to_string()]);
    assert_eq!(ids(&pending), ["b", "c"]);
}

#[test]
fn a_queue_counts_only_for_its_namespace() {
    let stored = queue(vec![blob("a", None)]);
    let same = PendingCloudUploadVerification::for_namespace(
        Some(stored.clone()),
        &"ns".to_string(),
    );
    assert_eq!(same, stored);
    let other =
        PendingCloudUploadVerification::for_namespace(Some(stored), &"other".to_string());
    assert_eq!(other.namespace_id, "other");
    assert!(other.blobs.is_empty());
    assert!(PendingCloudUploadVerification::for_namespace(None, &"ns".to_string())
        .blobs
        .is_empty());
}

#[test]
fn an_attempt_that_cannot_be_counted_is_refused() {
    let mut full = blob("a", None);
    full.attempt_count = u32::MAX;
    let check = |reply| {
        PendingUploadVerifier::Check {
            queue: queue(vec![PendingCloudUploadBlob { attempt_count: u32::MAX, ..full.clone() }]),
            checked_at: 8,
            index: 0,
        }
        .step(reply)
    };
    assert!(matches!(check(Reply::Uploaded(Ok(false))), Progress::Refused { .. }));
    assert!(matches!(check(Reply::Uploaded(Ok(true))), Progress::Ask { .. }));
}
