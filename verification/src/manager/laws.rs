//! What the manager shows and starts.

use vstd::prelude::*;

use crate::error::CloudBackupError;
use crate::manager::{
    is_wallet_database, runtime_status, state_changed, state_told, uploads_pending,
    BackgroundOperation, BackgroundWork, ResetStep, RustCloudBackupManager, WalletCountLookup,
};
use crate::protocol::{KeychainKey, Operation};
use crate::record::{PersistedCloudBackupState, PersistedSnapshot};
use crate::state::{
    CloudBackupReconcileMessage, CloudBackupState, CloudBackupStatus, StateChange,
};
use crate::upload_queue::PendingCloudUploadVerification;
use crate::wallet::WalletMetadata;

verus! {

/// The status shown for a record: a backup whose passkey is missing is shown as such, a backup that
/// is set up is shown as enabled whether it is verified or not, and no other is.
pub proof fn law_status_shows_the_record(record: PersistedCloudBackupState)
    ensures
        runtime_status(record) is Disabled <==> record.status is Disabled,
        runtime_status(record) is PasskeyMissing <==> record.status is PasskeyMissing,
        runtime_status(record) is Enabled <==> record.status is Enabled
            || record.status is Unverified,
{
}

/// Uploads are pending exactly if the queue can be read and holds one that is not confirmed.
pub proof fn law_uploads_are_pending_until_confirmed(
    read: Result<Option<PendingCloudUploadVerification>, String>,
)
    ensures
        match read {
            Ok(Some(queue)) => uploads_pending(read) <==> exists|i: int|
                0 <= i < queue.blobs@.len() && (#[trigger] queue.blobs@[i]).confirmed_at is None,
            _ => !uploads_pending(read),
        },
{
}

/// Whether two states show the same, but for the flags that the database decides.
pub open spec fn differ_in_flags_only(one: CloudBackupState, other: CloudBackupState) -> bool {
    &&& other.status == one.status
    &&& other.progress == one.progress
    &&& other.restore_progress == one.restore_progress
    &&& other.restore_report == one.restore_report
    &&& other.sync_error == one.sync_error
    &&& other.has_pending_upload_verification == one.has_pending_upload_verification
    &&& other.detail == one.detail
    &&& other.verification == one.verification
    &&& other.sync == one.sync
    &&& other.recovery == one.recovery
    &&& other.cloud_only == one.cloud_only
    &&& other.cloud_only_operation == one.cloud_only_operation
}

/// A message or a change that the manager takes over is taken over whole: but for the flags that
/// the database decides, the state shown afterwards is the one that the message or the change
/// gives.
pub proof fn law_manager_takes_over_the_whole(
    before: CloudBackupState,
    message: CloudBackupReconcileMessage,
    change: StateChange,
    snapshot: PersistedSnapshot,
    after: CloudBackupState,
)
    ensures
        state_told(before, message, snapshot, after) ==> exists|told: CloudBackupState| #[trigger]
            before.told(message, told) && differ_in_flags_only(told, after),
        state_changed(before, change, snapshot, after) ==> exists|changed: CloudBackupState|
            #[trigger] before.changed(change, changed) && differ_in_flags_only(changed, after),
{
    if state_told(before, message, snapshot, after) {
        let told = choose|told: CloudBackupState| #[trigger]
            before.told(message, told) && after == told.with_flags(snapshot);
        assert(before.told(message, told) && differ_in_flags_only(told, after));
    }
    if state_changed(before, change, snapshot, after) {
        let changed = choose|changed: CloudBackupState| #[trigger]
            before.changed(change, changed) && after == changed.with_flags(snapshot);
        assert(before.changed(change, changed) && differ_in_flags_only(changed, after));
    }
}

/// No work for the user starts while a backup is being set up or restored, whatever asks for it.
/// Else what was asked for starts, and starting over announces itself at once.
pub proof fn law_work_starts_unless_other_work_runs(
    manager: RustCloudBackupManager,
    enabled: Option<BackgroundOperation>,
    forced: Option<BackgroundOperation>,
    undiscovered: Option<BackgroundOperation>,
    restored: Option<BackgroundOperation>,
)
    requires
        call_ensures(RustCloudBackupManager::enable_cloud_backup, (&manager,), enabled),
        call_ensures(RustCloudBackupManager::enable_cloud_backup_force_new, (&manager,), forced),
        call_ensures(
            RustCloudBackupManager::enable_cloud_backup_no_discovery,
            (&manager,),
            undiscovered,
        ),
        call_ensures(RustCloudBackupManager::restore_from_cloud_backup, (&manager,), restored),
    ensures
        if manager.state.status is Enabling || manager.state.status is Restoring {
            &&& enabled is None
            &&& forced is None
            &&& undiscovered is None
            &&& restored is None
        } else {
            &&& enabled matches Some(started)
            &&& started.work is Enable && started.entering_status is None
            &&& forced matches Some(started)
            &&& started.work is EnableForceNew
            &&& started.entering_status == Some(CloudBackupStatus::Enabling)
            &&& undiscovered matches Some(started)
            &&& started.work is EnableNoDiscovery
            &&& started.entering_status == Some(CloudBackupStatus::Enabling)
            &&& restored matches Some(started)
            &&& started.work is Restore && started.entering_status is None
        },
{
}

/// A new wallet is backed up exactly while a backup is set up, its passkey missing or not, and no
/// other wallet is.
pub proof fn law_new_wallet_is_backed_up_if_set_up(
    manager: RustCloudBackupManager,
    wallet: WalletMetadata,
    started: Option<Operation>,
)
    requires
        call_ensures(RustCloudBackupManager::backup_new_wallet, (&manager, wallet), started),
    ensures
        match manager.state.status {
            CloudBackupStatus::Enabled => started == Some(Operation::BackupNewWallet { wallet }),
            CloudBackupStatus::PasskeyMissing => started == Some(
                Operation::BackupNewWallet { wallet },
            ),
            _ => started is None,
        },
{
}

/// What the user asks for is what runs.
pub proof fn law_user_gets_what_was_asked_for(
    manager: RustCloudBackupManager,
    record_id: String,
    verification: Operation,
    discoverable: Operation,
    recreation: Operation,
    reinitialization: Operation,
    restoration: Operation,
    deletion: Operation,
)
    requires
        call_ensures(RustCloudBackupManager::start_verification, (&manager,), verification),
        call_ensures(
            RustCloudBackupManager::start_verification_discoverable,
            (&manager,),
            discoverable,
        ),
        call_ensures(RustCloudBackupManager::recreate_manifest, (&manager,), recreation),
        call_ensures(RustCloudBackupManager::reinitialize_backup, (&manager,), reinitialization),
        call_ensures(
            RustCloudBackupManager::restore_cloud_wallet,
            (&manager, record_id),
            restoration,
        ),
        call_ensures(RustCloudBackupManager::delete_cloud_wallet, (&manager, record_id), deletion),
    ensures
        verification matches Operation::HandleVerification { force_discoverable } &&
            !force_discoverable,
        discoverable matches Operation::HandleVerification { force_discoverable }
            && force_discoverable,
        recreation matches Operation::HandleRecovery { action } && action is RecreateManifest,
        reinitialization matches Operation::HandleRecovery { action }
            && action is ReinitializeBackup,
        restoration matches Operation::HandleRestoreCloudWallet { record_id: wanted } && wanted
            == record_id,
        deletion matches Operation::HandleDeleteCloudWallet { record_id: wanted } && wanted
            == record_id,
{
}

/// A repair looks for a passkey first unless it is told not to; the other buttons run what they are
/// for.
pub proof fn law_buttons_run_what_they_are_for(
    manager: RustCloudBackupManager,
    repair: Operation,
    undiscovered: Operation,
    sync: Operation,
    fetch: Operation,
    refresh: Operation,
    check: Operation,
)
    requires
        call_ensures(RustCloudBackupManager::repair_passkey, (&manager,), repair),
        call_ensures(
            RustCloudBackupManager::repair_passkey_no_discovery,
            (&manager,),
            undiscovered,
        ),
        call_ensures(RustCloudBackupManager::sync_unsynced, (&manager,), sync),
        call_ensures(RustCloudBackupManager::fetch_cloud_only, (&manager,), fetch),
        call_ensures(RustCloudBackupManager::refresh_detail, (&manager,), refresh),
        call_ensures(RustCloudBackupManager::verify_backup_integrity, (&manager,), check),
    ensures
        repair matches Operation::HandleRepair { no_discovery } && !no_discovery,
        undiscovered matches Operation::HandleRepair { no_discovery } && no_discovery,
        sync is HandleSync,
        fetch is HandleFetchCloudOnly,
        refresh is HandleRefreshDetail,
        check is VerifyIntegrity,
{
}

/// The number of wallets is the one that the record holds. Where it holds none, the wallets on the
/// device are counted if there is a backup, and the record is given their number and keeps the
/// rest.
pub proof fn law_wallets_are_counted_once(
    manager: RustCloudBackupManager,
    record: PersistedCloudBackupState,
    wallets: Vec<WalletMetadata>,
    lookup: WalletCountLookup,
    counted: (u32, PersistedCloudBackupState),
)
    requires
        call_ensures(RustCloudBackupManager::backup_wallet_count, (&manager, &record), lookup),
        call_ensures(
            RustCloudBackupManager::count_local_wallets,
            (&manager, &record, &wallets),
            counted,
        ),
        wallets@.len() <= u32::MAX,
    ensures
        match record.wallet_count {
            Some(count) => lookup == WalletCountLookup::Known(count),
            None => lookup is CountLocal <==> !(record.status is Disabled),
        },
        record.wallet_count is None && record.status is Disabled ==> lookup is Unknown,
        counted.0 == wallets@.len(),
        counted.1.wallet_count == Some(counted.0),
        counted.1.status == record.status,
        counted.1.last_verified_at == record.last_verified_at,
        counted.1.last_verification_requested_at == record.last_verification_requested_at,
        counted.1.last_verification_dismissed_at == record.last_verification_dismissed_at,
{
}

/// The guards of the screens follow the record, and a record that cannot be read opens none.
pub proof fn law_guards_follow_the_record(
    manager: RustCloudBackupManager,
    read: Result<PersistedSnapshot, String>,
    enabled: bool,
    unverified: bool,
    missing: bool,
)
    requires
        call_ensures(RustCloudBackupManager::is_cloud_backup_enabled, (&manager, read), enabled),
        call_ensures(
            RustCloudBackupManager::is_cloud_backup_unverified,
            (&manager, read),
            unverified,
        ),
        call_ensures(
            RustCloudBackupManager::is_cloud_backup_passkey_missing,
            (&manager, read),
            missing,
        ),
    ensures
        match read {
            Ok(found) => {
                &&& enabled <==> !(found.record.status is Disabled)
                &&& unverified <==> found.record.status is Unverified
                &&& missing <==> found.record.status is PasskeyMissing
            },
            Err(_) => !enabled && !unverified && !missing,
        },
{
}

/// A record that was written is announced: the status that it shows, then whether a prompt is due.
/// One that was not written is an error that says what was being done and why it failed.
pub proof fn law_written_record_is_announced(
    manager: RustCloudBackupManager,
    snapshot: PersistedSnapshot,
    written: Result<(), String>,
    context: &str,
    messages: Result<Vec<CloudBackupReconcileMessage>, CloudBackupError>,
)
    requires
        call_ensures(
            RustCloudBackupManager::persist_cloud_backup_state,
            (&manager, &snapshot, written, context),
            messages,
        ),
    ensures
        match written {
            Ok(_) => {
                &&& messages matches Ok(list)
                &&& list@.len() == 2
                &&& list@[0] matches CloudBackupReconcileMessage::StatusChanged(status)
                &&& status is Disabled <==> snapshot.record.status is Disabled
                &&& status is PasskeyMissing <==> snapshot.record.status is PasskeyMissing
                &&& status is Enabled <==> snapshot.record.status is Enabled
                    || snapshot.record.status is Unverified
                &&& list@[1] matches CloudBackupReconcileMessage::VerificationPromptChanged {
                    pending,
                }
                &&& pending == snapshot.should_prompt_verification
            },
            Err(why) => {
                &&& messages matches Err(CloudBackupError::Internal(text))
                &&& text@ == context@ + ": "@ + why@
            },
        },
{
}

/// Work that fails shows its own error, kind and text.
pub proof fn law_failed_work_shows_its_error(
    error: CloudBackupError,
    message: CloudBackupReconcileMessage,
)
    requires
        call_ensures(
            RustCloudBackupManager::background_operation_failed,
            (&error,),
            message,
        ),
    ensures
        message matches CloudBackupReconcileMessage::StatusChanged(
            CloudBackupStatus::Error(shown),
        ) && match error {
            CloudBackupError::NotSupported(text) => shown@ == "not supported"@ + ": "@ + text@,
            CloudBackupError::Passkey(text) => shown@ == "passkey error"@ + ": "@ + text@,
            CloudBackupError::Crypto(text) => shown@ == "crypto error"@ + ": "@ + text@,
            CloudBackupError::Cloud(text) => shown@ == "cloud storage error"@ + ": "@ + text@,
            CloudBackupError::Internal(text) => shown@ == "internal error"@ + ": "@ + text@,
            CloudBackupError::PasskeyMismatch => shown@
                == "Passkey didn't match any backups, please try a new one"@,
            CloudBackupError::PasskeyDiscoveryCancelled => shown@
                == "user cancelled passkey discovery"@,
        },
{
}

/// The watch over uploads goes on while uploads are pending, and after a pass that did not come to
/// an end.
pub proof fn law_watch_goes_on_while_uploads_are_pending(pass: Option<bool>, goes_on: bool)
    requires
        call_ensures(RustCloudBackupManager::goes_on_after_pass, (pass,), goes_on),
    ensures
        goes_on <==> pass != Some(false),
{
}

/// Setting up and restoring are done by the operations of that name.
pub proof fn law_work_is_done_by_its_operation(work: BackgroundWork, operation: Option<Operation>)
    requires
        call_ensures(BackgroundWork::operation, (work,), operation),
    ensures
        operation == Some(Operation::Enable) <==> work is Enable,
        operation == Some(Operation::RestoreAll) <==> work is Restore,
        operation is None <==> work is EnableForceNew || work is EnableNoDiscovery,
{
}

/// The state that is handed out shows what the manager keeps, the flags of the database, and
/// whether the queue holds uploads that are not confirmed.
pub proof fn law_state_shows_manager_database_and_queue(
    manager: RustCloudBackupManager,
    snapshot: PersistedSnapshot,
    queue: Result<Option<PendingCloudUploadVerification>, String>,
    state: CloudBackupState,
)
    requires
        call_ensures(RustCloudBackupManager::state, (&manager, &snapshot, &queue), state),
    ensures
        state.has_pending_upload_verification <==> (queue matches Ok(Some(found)) && exists|i: int|
            0 <= i < found.blobs@.len() && (#[trigger] found.blobs@[i]).confirmed_at is None),
        state.is_unverified <==> snapshot.record.status is Unverified,
        state.is_configured <==> !(snapshot.record.status is Disabled),
        state.last_verified_at == snapshot.record.last_verified_at,
        state.should_prompt_verification == snapshot.should_prompt_verification,
        state.status == manager.state.status,
        state.progress == manager.state.progress,
        state.restore_progress == manager.state.restore_progress,
        state.sync_error == manager.state.sync_error,
        state.sync == manager.state.sync,
        state.recovery == manager.state.recovery,
        state.cloud_only_operation == manager.state.cloud_only_operation,
        state.detail is Some <==> manager.state.detail is Some,
        state.restore_report is Some <==> manager.state.restore_report is Some,
{
}

/// Dismissing the prompt writes a record only if a prompt was requested, and the record keeps all
/// but the time of the dismissal.
pub proof fn law_dismissal_keeps_the_rest(
    manager: RustCloudBackupManager,
    record: PersistedCloudBackupState,
    updated: Option<PersistedCloudBackupState>,
)
    requires
        call_ensures(
            RustCloudBackupManager::dismiss_verification_prompt_impl,
            (&manager, &record),
            updated,
        ),
    ensures
        match record.last_verification_requested_at {
            None => updated is None,
            Some(requested_at) => {
                &&& updated matches Some(written)
                &&& written.last_verification_dismissed_at is Some
                &&& written.last_verification_requested_at == Some(requested_at)
                &&& written.status == record.status
                &&& written.wallet_count == record.wallet_count
                &&& written.last_verified_at == record.last_verified_at
            },
        },
{
}

/// What the database records is shown while the app knows of no backup yet: the status of the
/// record, with its flags, and the same status is announced. A status that is shown already stays,
/// and so does all else.
pub proof fn law_record_is_shown_at_the_start(
    manager: &mut RustCloudBackupManager,
    snapshot: PersistedSnapshot,
    message: Option<CloudBackupReconcileMessage>,
)
    requires
        call_ensures(RustCloudBackupManager::sync_persisted_state, (manager, &snapshot), message),
    ensures
        final(manager).pending_upload_verifier_running
            == old(manager).pending_upload_verifier_running,
        differ_in_flags_only(
            old(manager).state,
            CloudBackupState { status: old(manager).state.status, ..final(manager).state },
        ),
        if old(manager).state.status is Disabled && !(snapshot.record.status is Disabled) {
            let after = final(manager).state;
            &&& message == Some(CloudBackupReconcileMessage::StatusChanged(after.status))
            &&& after.status is PasskeyMissing <==> snapshot.record.status is PasskeyMissing
            &&& after.status is Enabled <==> !(snapshot.record.status is PasskeyMissing)
            &&& after.is_unverified <==> snapshot.record.status is Unverified
            &&& after.is_configured
            &&& after.last_verified_at == snapshot.record.last_verified_at
            &&& after.should_prompt_verification == snapshot.should_prompt_verification
        } else {
            &&& message is None
            &&& final(manager).state == old(manager).state
        },
{
}

/// The watch over uploads is started only while it does not run, and runs afterwards; what is shown
/// stays.
pub proof fn law_watch_is_started_once(manager: &mut RustCloudBackupManager, start: bool)
    requires
        call_ensures(
            RustCloudBackupManager::start_pending_upload_verification_loop,
            (manager,),
            start,
        ) || call_ensures(
            RustCloudBackupManager::resume_pending_cloud_upload_verification,
            (manager,),
            start,
        ),
    ensures
        start <==> !old(manager).pending_upload_verifier_running,
        final(manager).pending_upload_verifier_running,
        final(manager).state == old(manager).state,
{
}

/// A watch that ended is started again exactly if the queue can be read and holds an upload that is
/// not confirmed, and runs exactly then; what is shown stays.
pub proof fn law_ended_watch_is_started_for_new_uploads(
    manager: &mut RustCloudBackupManager,
    queue: Result<Option<PendingCloudUploadVerification>, String>,
    start: bool,
)
    requires
        call_ensures(
            RustCloudBackupManager::finish_pending_upload_verification_loop,
            (manager, &queue),
            start,
        ),
    ensures
        start <==> (queue matches Ok(Some(found)) && exists|i: int|
            0 <= i < found.blobs@.len() && (#[trigger] found.blobs@[i]).confirmed_at is None),
        final(manager).pending_upload_verifier_running == start,
        final(manager).state == old(manager).state,
{
}

/// Whether `step` is one of `steps`.
pub open spec fn is_step(steps: Seq<ResetStep>, step: ResetStep) -> bool {
    exists|i: int| 0 <= i < steps.len() && #[trigger] steps[i] == step
}

/// A reset forgets every entry of the keychain, the master key, the database's record and the
/// queue, and shows that there is no backup and nothing to watch.
pub proof fn law_reset_forgets_everything_local(
    manager: RustCloudBackupManager,
    steps: Vec<ResetStep>,
    key: KeychainKey,
)
    requires
        call_ensures(
            RustCloudBackupManager::debug_reset_cloud_backup_state,
            (&manager,),
            steps,
        ),
    ensures
        is_step(steps@, ResetStep::ForgetKeychain(key)),
        is_step(steps@, ResetStep::DiscardEnableSession),
        is_step(steps@, ResetStep::DeleteMasterKey),
        is_step(steps@, ResetStep::ResetMasterKeyCache),
        is_step(steps@, ResetStep::DeletePersistedState),
        is_step(steps@, ResetStep::DeletePendingUploads),
        is_step(steps@, ResetStep::Update(StateChange::Reset)),
        is_step(
            steps@,
            ResetStep::Notify(
                CloudBackupReconcileMessage::StatusChanged(CloudBackupStatus::Disabled),
            ),
        ),
        is_step(
            steps@,
            ResetStep::Notify(
                CloudBackupReconcileMessage::PendingUploadVerificationChanged { pending: false },
            ),
        ),
        steps@.len() == 11,
{
    assert(steps@[0] == ResetStep::ForgetKeychain(KeychainKey::NamespaceId));
    assert(steps@[1] == ResetStep::ForgetKeychain(KeychainKey::CredentialId));
    assert(steps@[2] == ResetStep::ForgetKeychain(KeychainKey::PrfSalt));
    assert(steps@[3] == ResetStep::DiscardEnableSession);
    assert(steps@[4] == ResetStep::DeleteMasterKey);
    assert(steps@[5] == ResetStep::ResetMasterKeyCache);
    assert(steps@[6] == ResetStep::DeletePersistedState);
    assert(steps@[7] == ResetStep::DeletePendingUploads);
    assert(steps@[8] == ResetStep::Update(StateChange::Reset));
    assert(steps@[9] == ResetStep::Notify(
        CloudBackupReconcileMessage::StatusChanged(CloudBackupStatus::Disabled),
    ));
    assert(steps@[10] == ResetStep::Notify(
        CloudBackupReconcileMessage::PendingUploadVerificationChanged { pending: false },
    ));
}

/// The databases that a wipe deletes are the files whose name begins with `bdk_wallet`.
pub proof fn law_wallet_databases_begin_alike(file_name: &str, found: bool)
    requires
        call_ensures(is_wallet_database, (file_name,), found),
    ensures
        found <==> file_name@.len() >= 10 && file_name@.take(10) == seq![
            'b', 'd', 'k', '_', 'w', 'a', 'l', 'l', 'e', 't',
        ],
{
    reveal_strlit("bdk_wallet");
    let start: Seq<char> = seq!['b', 'd', 'k', '_', 'w', 'a', 'l', 'l', 'e', 't'];
    assert("bdk_wallet"@ =~= start);
    if file_name@.len() >= 10 {
        assert(file_name@.take(10) =~= file_name@.subrange(0, 10));
    }
}

} // verus!
