//! What every part of the state shows, whatever was said or done.

use vstd::prelude::*;

use crate::record::PersistedSnapshot;
use crate::sequences::lemma_filter_contains;
use crate::state::{
    items_without, CloudBackupDetail, CloudBackupReconcileMessage, CloudBackupState,
    CloudBackupWalletItem, CloudOnlyOperation, CloudOnlyState, DeepVerificationResult,
    RecoveryState, StateChange, SyncState, VerificationState,
};

verus! {

/// A message changes what it speaks of and nothing else. The status is the one announced last. The
/// progress of setting up is the one told last, until a status is announced or the work is
/// complete; that of restoring likewise. The report of a restore stays until the next run begins.
/// The sync error, the prompt and the pending uploads are those told last.
pub proof fn law_message_shows_what_it_says(
    before: CloudBackupState,
    message: CloudBackupReconcileMessage,
    after: CloudBackupState,
)
    requires
        before.told(message, after),
    ensures
        after.status == match message {
            CloudBackupReconcileMessage::StatusChanged(status) => status,
            _ => before.status,
        },
        match message {
            CloudBackupReconcileMessage::ProgressUpdated { completed, total } => {
                &&& after.progress matches Some(progress)
                &&& progress.completed == completed
                &&& progress.total == total
            },
            CloudBackupReconcileMessage::StatusChanged(_) => after.progress is None,
            CloudBackupReconcileMessage::EnableComplete => after.progress is None,
            CloudBackupReconcileMessage::RestoreComplete(_) => after.progress is None,
            _ => after.progress == before.progress,
        },
        match message {
            CloudBackupReconcileMessage::RestoreProgressUpdated(progress) => after.restore_progress
                == Some(progress),
            CloudBackupReconcileMessage::StatusChanged(_) => after.restore_progress is None,
            CloudBackupReconcileMessage::RestoreComplete(_) => after.restore_progress is None,
            _ => after.restore_progress == before.restore_progress,
        },
        match message {
            CloudBackupReconcileMessage::RestoreComplete(report) => {
                &&& after.restore_report matches Some(shown)
                &&& shown.wallets_restored == report.wallets_restored
                &&& shown.wallets_failed == report.wallets_failed
                &&& shown.failed_wallet_errors@.len() == report.failed_wallet_errors@.len()
                &&& forall|i: int|
                    0 <= i < report.failed_wallet_errors@.len() ==> (
                    #[trigger] shown.failed_wallet_errors@[i])@ == report.failed_wallet_errors@[i]@
            },
            CloudBackupReconcileMessage::StatusChanged(status) => if status is Enabling
                || status is Restoring {
                after.restore_report is None
            } else {
                after.restore_report == before.restore_report
            },
            _ => after.restore_report == before.restore_report,
        },
        after.sync_error == match message {
            CloudBackupReconcileMessage::SyncFailed(error) => Some(error),
            _ => before.sync_error,
        },
        after.has_pending_upload_verification == match message {
            CloudBackupReconcileMessage::PendingUploadVerificationChanged { pending } => pending,
            _ => before.has_pending_upload_verification,
        },
        after.should_prompt_verification == match message {
            CloudBackupReconcileMessage::VerificationPromptChanged { pending } => pending,
            _ => before.should_prompt_verification,
        },
        after.is_unverified == before.is_unverified,
        after.is_configured == before.is_configured,
        after.last_verified_at == before.last_verified_at,
        after.detail == before.detail,
        after.verification == before.verification,
        after.sync == before.sync,
        after.recovery == before.recovery,
        after.cloud_only == before.cloud_only,
        after.cloud_only_operation == before.cloud_only_operation,
{
    if let CloudBackupReconcileMessage::RestoreComplete(report) = message {
        let shown = after.restore_report->0;
        assert(shown@.failed_wallet_errors =~= report@.failed_wallet_errors);
        assert forall|i: int| 0 <= i < report.failed_wallet_errors@.len() implies (
        #[trigger] shown.failed_wallet_errors@[i])@ == report.failed_wallet_errors@[i]@ by {
            assert(shown@.failed_wallet_errors[i] == report@.failed_wallet_errors[i]);
        }
    }
}

/// Whether `now` shows the lists, the count and the time of `found`.
pub open spec fn shows_detail(now: Option<CloudBackupDetail>, found: CloudBackupDetail) -> bool {
    &&& now matches Some(shown)
    &&& shown.last_sync == found.last_sync
    &&& shown.backed_up@ == found.backed_up@
    &&& shown.not_backed_up@ == found.not_backed_up@
    &&& shown.cloud_only_count == found.cloud_only_count
}

/// The detail that a verification found on its way, if it found one.
pub open spec fn detail_found(result: DeepVerificationResult) -> Option<CloudBackupDetail> {
    match result {
        DeepVerificationResult::Verified(report) => report.detail,
        DeepVerificationResult::PasskeyConfirmed(detail) => detail,
        DeepVerificationResult::PasskeyMissing(detail) => detail,
        DeepVerificationResult::UserCancelled(detail) => detail,
        DeepVerificationResult::NotEnabled => None,
        DeepVerificationResult::Failed(failure) => failure.detail,
    }
}

/// The end of a verification shows its own result: a report only where the backup was verified, a
/// failure only where it failed. The detail is the one found on the way, and stays where none was
/// found. A recovery ends where the backup was verified or its passkey is missing, and only there.
pub proof fn law_verification_shows_its_result(
    before: CloudBackupState,
    result: DeepVerificationResult,
    after: CloudBackupState,
)
    requires
        before.changed(StateChange::VerificationFinished(result), after),
    ensures
        match detail_found(result) {
            Some(found) => shows_detail(after.detail, found),
            None => after.detail == before.detail,
        },
        match result {
            DeepVerificationResult::Verified(report) => after.verification
                == VerificationState::Verified(report),
            DeepVerificationResult::PasskeyConfirmed(_) => after.verification is PasskeyConfirmed,
            DeepVerificationResult::PasskeyMissing(_) => after.verification is Idle,
            DeepVerificationResult::UserCancelled(_) => after.verification is Cancelled,
            DeepVerificationResult::NotEnabled => after.verification == before.verification,
            DeepVerificationResult::Failed(failure) => after.verification
                == VerificationState::Failed(failure),
        },
        if result is Verified || result is PasskeyMissing {
            after.recovery is Idle
        } else {
            after.recovery == before.recovery
        },
{
}

/// A change of the state changes what it speaks of and nothing else.
pub proof fn law_change_shows_what_it_says(
    before: CloudBackupState,
    change: StateChange,
    after: CloudBackupState,
)
    requires
        before.changed(change, after),
        !(change is Reset),
    ensures
        match change {
            StateChange::DetailRefreshed(detail) => after.detail == Some(detail),
            StateChange::VerificationFinished(_) => true,
            _ => after.detail == before.detail,
        },
        match change {
            StateChange::VerificationStarted => after.verification is Verifying,
            StateChange::PasskeyRepaired => after.verification is Idle,
            StateChange::VerificationFinished(_) => true,
            _ => after.verification == before.verification,
        },
        match change {
            StateChange::RecoveryStarted(action) => after.recovery == RecoveryState::Recovering(
                action,
            ),
            StateChange::RecoveryFailed { action, error } => after.recovery == (
            RecoveryState::Failed { action, error }),
            StateChange::RecoveryFinished => after.recovery is Idle,
            StateChange::PasskeyRepaired => after.recovery is Idle,
            StateChange::VerificationFinished(_) => true,
            _ => after.recovery == before.recovery,
        },
        match change {
            StateChange::SyncStarted => after.sync is Syncing,
            StateChange::SyncFinished => after.sync is Idle,
            StateChange::SyncFailed(error) => after.sync == SyncState::Failed(error),
            _ => after.sync == before.sync,
        },
        match change {
            StateChange::CloudOnlyLoading => after.cloud_only is Loading,
            StateChange::CloudOnlyLoaded(wallets) => after.cloud_only == (CloudOnlyState::Loaded {
                wallets,
            }),
            StateChange::CloudOnlyDone { .. } => true,
            _ => after.cloud_only == before.cloud_only,
        },
        match change {
            StateChange::CloudOnlyOperating { record_id } => after.cloud_only_operation == (
            CloudOnlyOperation::Operating { record_id }),
            StateChange::CloudOnlyDone { .. } => after.cloud_only_operation is Idle,
            StateChange::CloudOnlyFailed(error) => after.cloud_only_operation == (
            CloudOnlyOperation::Failed { error }),
            _ => after.cloud_only_operation == before.cloud_only_operation,
        },
        after.status == before.status,
        after.progress == before.progress,
        after.restore_progress == before.restore_progress,
        after.restore_report == before.restore_report,
        after.sync_error == before.sync_error,
        after.has_pending_upload_verification == before.has_pending_upload_verification,
        after.should_prompt_verification == before.should_prompt_verification,
        after.is_unverified == before.is_unverified,
        after.is_configured == before.is_configured,
        after.last_verified_at == before.last_verified_at,
{
}

/// Whether `item` is one of `items`.
pub open spec fn is_shown(items: Seq<CloudBackupWalletItem>, item: CloudBackupWalletItem) -> bool {
    exists|i: int| 0 <= i < items.len() && #[trigger] items[i] == item
}

/// A wallet that was restored or deleted leaves the list of those that only the cloud holds, and
/// every other one stays. A list that is not there yet stays as it is.
pub proof fn law_finished_wallet_leaves_the_list(
    before: CloudBackupState,
    record_id: String,
    after: CloudBackupState,
)
    requires
        before.changed(StateChange::CloudOnlyDone { record_id }, after),
    ensures
        match before.cloud_only {
            CloudOnlyState::Loaded { wallets } => {
                &&& after.cloud_only matches CloudOnlyState::Loaded { wallets: left }
                &&& left@.len() <= wallets@.len()
                &&& forall|item: CloudBackupWalletItem| #[trigger]
                    is_shown(left@, item) <==> is_shown(wallets@, item) && item.record_id@
                        != record_id@
            },
            _ => after.cloud_only == before.cloud_only,
        },
{
    if let CloudOnlyState::Loaded { wallets } = before.cloud_only {
        let keep = |item: CloudBackupWalletItem| item.record_id@ != record_id@;
        let left = items_without(wallets@, record_id@);
        assert(left == wallets@.filter(keep));
        wallets@.lemma_filter_len(keep);
        assert forall|item: CloudBackupWalletItem| #[trigger]
            is_shown(left, item) <==> is_shown(wallets@, item) && item.record_id@ != record_id@ by {
            assert(is_shown(left, item) == left.contains(item));
            assert(is_shown(wallets@, item) == wallets@.contains(item));
            lemma_filter_contains(wallets@, keep, item);
        }
    }
}

/// A reset leaves nothing of what was shown: no status, progress, report, error, flag, detail or
/// wallet, and nothing that runs.
pub proof fn law_reset_shows_nothing(before: CloudBackupState, after: CloudBackupState)
    requires
        before.changed(StateChange::Reset, after),
    ensures
        after.status is Disabled,
        after.progress is None,
        after.restore_progress is None,
        after.restore_report is None,
        after.sync_error is None,
        !after.has_pending_upload_verification,
        !after.should_prompt_verification,
        !after.is_unverified,
        !after.is_configured,
        after.last_verified_at is None,
        after.detail is None,
        after.verification is Idle,
        after.sync is Idle,
        after.recovery is Idle,
        after.cloud_only is NotFetched,
        after.cloud_only_operation is Idle,
{
}

/// The database decides whether the backup is set up, unverified and due a prompt, and when it was
/// last verified. It decides nothing else.
pub proof fn law_database_decides_its_flags(before: CloudBackupState, snapshot: PersistedSnapshot)
    ensures
        ({
            let after = before.with_flags(snapshot);
            &&& after.is_unverified <==> snapshot.record.status is Unverified
            &&& after.is_configured <==> snapshot.record.status is Enabled
                || snapshot.record.status is Unverified || snapshot.record.status is PasskeyMissing
            &&& after.last_verified_at == snapshot.record.last_verified_at
            &&& after.should_prompt_verification == snapshot.should_prompt_verification
            &&& after.status == before.status
            &&& after.progress == before.progress
            &&& after.restore_progress == before.restore_progress
            &&& after.restore_report == before.restore_report
            &&& after.sync_error == before.sync_error
            &&& after.has_pending_upload_verification == before.has_pending_upload_verification
            &&& after.detail == before.detail
            &&& after.verification == before.verification
            &&& after.sync == before.sync
            &&& after.recovery == before.recovery
            &&& after.cloud_only == before.cloud_only
            &&& after.cloud_only_operation == before.cloud_only_operation
        }),
{
}

/// A state that is handed out shows all that the kept one shows.
pub proof fn law_same_state_shows_the_same(one: CloudBackupState, other: CloudBackupState)
    requires
        one.same(other),
    ensures
        other.status == one.status,
        other.progress == one.progress,
        other.restore_progress == one.restore_progress,
        other.sync_error == one.sync_error,
        other.has_pending_upload_verification == one.has_pending_upload_verification,
        other.should_prompt_verification == one.should_prompt_verification,
        other.is_unverified == one.is_unverified,
        other.is_configured == one.is_configured,
        other.last_verified_at == one.last_verified_at,
        other.sync == one.sync,
        other.recovery == one.recovery,
        other.cloud_only_operation == one.cloud_only_operation,
        match one.restore_report {
            Some(report) => {
                &&& other.restore_report matches Some(shown)
                &&& shown.wallets_restored == report.wallets_restored
                &&& shown.wallets_failed == report.wallets_failed
                &&& shown.failed_wallet_errors@.len() == report.failed_wallet_errors@.len()
            },
            None => other.restore_report is None,
        },
        match one.detail {
            Some(detail) => shows_detail(other.detail, detail),
            None => other.detail is None,
        },
        match one.verification {
            VerificationState::Verified(report) => {
                &&& other.verification matches VerificationState::Verified(shown)
                &&& shown.master_key_wrapper_repaired == report.master_key_wrapper_repaired
                &&& shown.local_master_key_repaired == report.local_master_key_repaired
                &&& shown.credential_recovered == report.credential_recovered
                &&& shown.wallets_verified == report.wallets_verified
                &&& shown.wallets_failed == report.wallets_failed
                &&& shown.wallets_unsupported == report.wallets_unsupported
                &&& match report.detail {
                    Some(detail) => shows_detail(shown.detail, detail),
                    None => shown.detail is None,
                }
            },
            VerificationState::Failed(failure) => {
                &&& other.verification matches VerificationState::Failed(shown)
                &&& shown.kind == failure.kind
                &&& shown.message == failure.message
                &&& match failure.detail {
                    Some(detail) => shows_detail(shown.detail, detail),
                    None => shown.detail is None,
                }
            },
            _ => other.verification == one.verification,
        },
        match one.cloud_only {
            CloudOnlyState::Loaded { wallets } => {
                &&& other.cloud_only matches CloudOnlyState::Loaded { wallets: shown }
                &&& shown@ == wallets@
            },
            _ => other.cloud_only == one.cloud_only,
        },
{
    if let Some(report) = one.restore_report {
        let shown = other.restore_report->0;
        assert(shown@.failed_wallet_errors.len() == report@.failed_wallet_errors.len());
    }
}

} // verus!
