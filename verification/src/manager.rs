//! The manager of the cloud backup: the state it shows, and what it starts.

pub mod laws;

use vstd::prelude::*;

use crate::clock::{current_timestamp, LAST_TIMESTAMP};
use crate::error::{internal_error, CloudBackupError, CloudBackupErrorView};
use crate::protocol::{KeychainKey, Operation};
use crate::record::{
    load_persisted_state, loaded, PersistedCloudBackupState, PersistedCloudBackupStatus,
    PersistedSnapshot,
};
use crate::state::{
    CloudBackupReconcileMessage, CloudBackupState, CloudBackupStatus, RecoveryAction, StateChange,
};
use crate::text::{prefixed_text, starts_with};
use crate::upload_queue::{some_unconfirmed, PendingCloudUploadVerification};
use crate::wallet::{count_all_wallets, WalletMetadata};

verus! {

/// The state of the backup on this device while the app runs.
#[derive(Debug)]
pub struct RustCloudBackupManager {
    pub state: CloudBackupState,
    /// Whether the loop that watches uploads runs.
    pub pending_upload_verifier_running: bool,
}

/// What is to run in the background for the user.
#[derive(Debug, Clone, Copy, PartialEq, Eq, Structural)]
pub enum BackgroundWork {
    Enable,
    /// Like [`BackgroundWork::Enable`], with a new namespace beside the backups found.
    EnableForceNew,
    /// Like [`BackgroundWork::Enable`], with a new passkey and no search for one.
    EnableNoDiscovery,
    Restore,
}

impl BackgroundWork {
    /// The operation that does the work; starting over beside an earlier backup or passkey is none
    /// of this library's.
    pub fn operation(self) -> (operation: Option<Operation>)
        ensures
            operation == match self {
                BackgroundWork::Enable => Some(Operation::Enable),
                BackgroundWork::Restore => Some(Operation::RestoreAll),
                BackgroundWork::EnableForceNew => None,
                BackgroundWork::EnableNoDiscovery => None,
            },
    {
        match self {
            BackgroundWork::Enable => Some(Operation::Enable),
            BackgroundWork::Restore => Some(Operation::RestoreAll),
            BackgroundWork::EnableForceNew | BackgroundWork::EnableNoDiscovery => None,
        }
    }
}

/// Work that is to run in the background, and the status that is announced before it.
#[derive(Debug, PartialEq, Eq)]
pub struct BackgroundOperation {
    pub entering_status: Option<CloudBackupStatus>,
    pub work: BackgroundWork,
}

/// One step of wiping what the device remembers of the backup.
#[derive(Debug)]
pub enum ResetStep {
    ForgetKeychain(KeychainKey),
    DiscardEnableSession,
    DeleteMasterKey,
    ResetMasterKeyCache,
    DeletePersistedState,
    DeletePendingUploads,
    Update(StateChange),
    Notify(CloudBackupReconcileMessage),
}

/// What the backup reports as its number of wallets.
#[derive(Debug, Clone, Copy, PartialEq, Eq, Structural)]
pub enum WalletCountLookup {
    /// The record holds the number.
    Known(u32),
    /// The backup is set up but its record holds no number: the local wallets are counted.
    CountLocal,
    /// There is no backup.
    Unknown,
}

/// The status that a record shows.
pub open spec fn runtime_status(record: PersistedCloudBackupState) -> CloudBackupStatus {
    match record.status {
        PersistedCloudBackupStatus::Disabled => CloudBackupStatus::Disabled,
        PersistedCloudBackupStatus::Enabled => CloudBackupStatus::Enabled,
        PersistedCloudBackupStatus::Unverified => CloudBackupStatus::Enabled,
        PersistedCloudBackupStatus::PasskeyMissing => CloudBackupStatus::PasskeyMissing,
    }
}

/// Whether the user's backup is being set up or restored.
pub open spec fn is_busy(status: CloudBackupStatus) -> bool {
    status is Enabling || status is Restoring
}

/// What a read of the queue says of uploads that are still to be confirmed; a read that failed says
/// that there are none.
pub open spec fn uploads_pending(
    read: Result<Option<PendingCloudUploadVerification>, String>,
) -> bool {
    read matches Ok(Some(queue)) && some_unconfirmed(queue.blobs@)
}

/// Whether a message, with what the database holds, turns one state into another.
pub open spec fn state_told(
    before: CloudBackupState,
    message: CloudBackupReconcileMessage,
    snapshot: PersistedSnapshot,
    after: CloudBackupState,
) -> bool {
    exists|told: CloudBackupState| #[trigger]
        before.told(message, told) && after == told.with_flags(snapshot)
}

/// Whether a change, with what the database holds, turns one state into another.
pub open spec fn state_changed(
    before: CloudBackupState,
    change: StateChange,
    snapshot: PersistedSnapshot,
    after: CloudBackupState,
) -> bool {
    exists|changed: CloudBackupState| #[trigger]
        before.changed(change, changed) && after == changed.with_flags(snapshot)
}

impl RustCloudBackupManager {
    /// A manager that has not heard of a backup yet.
    pub fn init() -> (manager: Self)
        ensures
            manager.state == CloudBackupState::initial(),
            !manager.pending_upload_verifier_running,
    {
        RustCloudBackupManager {
            state: CloudBackupState::default(),
            pending_upload_verifier_running: false,
        }
    }

    /// The status that a record shows.
    pub fn runtime_status_for(record: &PersistedCloudBackupState) -> (status: CloudBackupStatus)
        ensures
            status == runtime_status(*record),
    {
        match record.status {
            PersistedCloudBackupStatus::Disabled => CloudBackupStatus::Disabled,
            PersistedCloudBackupStatus::Enabled
            | PersistedCloudBackupStatus::Unverified => CloudBackupStatus::Enabled,
            PersistedCloudBackupStatus::PasskeyMissing => CloudBackupStatus::PasskeyMissing,
        }
    }

    /// Takes over what a message says, and the flags that the database decides.
    pub fn apply_message_to_state(
        &mut self,
        message: &CloudBackupReconcileMessage,
        snapshot: &PersistedSnapshot,
    )
        ensures
            state_told(old(self).state, *message, *snapshot, final(self).state),
            final(self).pending_upload_verifier_running
                == old(self).pending_upload_verifier_running,
    {
        self.state.tell(message);
        assert(old(self).state.told(*message, self.state));
        self.state.refresh_state_flags(snapshot);
    }

    /// Carries out a change of the state. The message is to be sent afterwards.
    pub fn update_state(&mut self, change: StateChange, snapshot: &PersistedSnapshot) -> (message:
        CloudBackupReconcileMessage)
        ensures
            state_changed(old(self).state, change, *snapshot, final(self).state),
            final(self).pending_upload_verifier_running
                == old(self).pending_upload_verifier_running,
            message is Updated,
    {
        self.state.change(change);
        assert(old(self).state.changed(change, self.state));
        self.state.refresh_state_flags(snapshot);
        CloudBackupReconcileMessage::Updated
    }

    pub fn current_status(&self) -> (status: CloudBackupStatus)
        ensures
            status == self.state.status,
    {
        self.state.status.clone()
    }

    /// The state, with what the database and the queue of uploads hold at this moment.
    pub fn state(
        &self,
        snapshot: &PersistedSnapshot,
        queue: &Result<Option<PendingCloudUploadVerification>, String>,
    ) -> (state: CloudBackupState)
        ensures
            (CloudBackupState {
                has_pending_upload_verification: uploads_pending(*queue),
                ..self.state.with_flags(*snapshot)
            }).same(state),
    {
        let mut state: CloudBackupState = self.state.clone();
        state.refresh_state_flags(snapshot);
        state.has_pending_upload_verification = self.has_pending_cloud_upload_verification(queue);
        state
    }

    /// Read persisted cloud backup state from DB and update in-memory state
    ///
    /// Called after bootstrap completes so the UI reflects the correct state
    /// even before the reconciler has delivered its first message. The message, if there is one, is
    /// to be sent afterwards.
    pub fn sync_persisted_state(&mut self, snapshot: &PersistedSnapshot) -> (message: Option<
        CloudBackupReconcileMessage,
    >)
        ensures
            final(self).pending_upload_verifier_running
                == old(self).pending_upload_verifier_running,
            if old(self).state.status is Disabled && !(runtime_status(
                snapshot.record,
            ) is Disabled) {
                let status = runtime_status(snapshot.record);
                let shown = CloudBackupState { status, ..old(self).state };
                &&& final(self).state == shown.with_flags(*snapshot)
                &&& message == Some(CloudBackupReconcileMessage::StatusChanged(status))
            } else {
                &&& final(self).state == old(self).state
                &&& message is None
            },
    {
        if !matches!(self.state.status, CloudBackupStatus::Disabled) {
            return None;
        }
        let status: CloudBackupStatus = Self::runtime_status_for(&snapshot.record);
        if matches!(status, CloudBackupStatus::Disabled) {
            return None;
        }
        self.state.status = status.clone();
        self.state.refresh_state_flags(snapshot);
        Some(CloudBackupReconcileMessage::StatusChanged(status))
    }

    /// What is announced once a record was written, or the error if it was not.
    pub fn persist_cloud_backup_state(
        &self,
        snapshot: &PersistedSnapshot,
        written: Result<(), String>,
        context: &str,
    ) -> (messages: Result<Vec<CloudBackupReconcileMessage>, CloudBackupError>)
        ensures
            match written {
                Ok(_) => messages matches Ok(list) && list@ == seq![
                    CloudBackupReconcileMessage::StatusChanged(runtime_status(snapshot.record)),
                    CloudBackupReconcileMessage::VerificationPromptChanged {
                        pending: snapshot.should_prompt_verification,
                    },
                ],
                Err(text) => messages matches Err(error) && error@
                    == CloudBackupErrorView::Internal(prefixed_text(context@, text@)),
            },
    {
        match written {
            Ok(_) => {
                let status: CloudBackupStatus = Self::runtime_status_for(&snapshot.record);
                let mut list: Vec<CloudBackupReconcileMessage> = Vec::new();
                list.push(CloudBackupReconcileMessage::StatusChanged(status));
                list.push(
                    CloudBackupReconcileMessage::VerificationPromptChanged {
                        pending: snapshot.should_prompt_verification,
                    },
                );
                Ok(list)
            },
            Err(text) => Err(internal_error(context, &text)),
        }
    }

    /// The record to write when the user dismisses the prompt to verify: none if no prompt was
    /// requested, else the record with the time of this moment.
    pub fn dismiss_verification_prompt_impl(
        &self,
        record: &PersistedCloudBackupState,
    ) -> (updated: Option<PersistedCloudBackupState>)
        ensures
            updated is None <==> record.last_verification_requested_at is None,
            updated matches Some(written) ==> {
                &&& written.last_verification_dismissed_at matches Some(now)
                &&& now <= LAST_TIMESTAMP
                &&& written == (PersistedCloudBackupState {
                    last_verification_dismissed_at: written.last_verification_dismissed_at,
                    ..*record
                })
            },
    {
        record.with_prompt_dismissed(current_timestamp())
    }

    /// Where the number of wallets in the cloud backup comes from.
    pub fn backup_wallet_count(
        &self,
        record: &PersistedCloudBackupState,
    ) -> (lookup: WalletCountLookup)
        ensures
            lookup == match record.wallet_count {
                Some(count) => WalletCountLookup::Known(count),
                None => if record.status is Disabled {
                    WalletCountLookup::Unknown
                } else {
                    WalletCountLookup::CountLocal
                },
            },
    {
        match record.wallet_count {
            Some(count) => WalletCountLookup::Known(count),
            None => {
                if record.is_configured() {
                    WalletCountLookup::CountLocal
                } else {
                    WalletCountLookup::Unknown
                }
            },
        }
    }

    /// The number of wallets on the device, and the record to write that holds it.
    pub fn count_local_wallets(
        &self,
        record: &PersistedCloudBackupState,
        wallets: &Vec<WalletMetadata>,
    ) -> (counted: (u32, PersistedCloudBackupState))
        ensures
            counted.0 == wallets@.len() as u32,
            counted.1 == (PersistedCloudBackupState { wallet_count: Some(counted.0), ..*record }),
    {
        let count: u32 = count_all_wallets(wallets);
        (count, record.with_wallet_count(Some(count)))
    }

    /// Check if cloud backup is enabled, used as nav guard
    pub fn is_cloud_backup_enabled(
        &self,
        read: Result<PersistedSnapshot, String>,
    ) -> (enabled: bool)
        ensures
            enabled == !(loaded(read).record.status is Disabled),
    {
        load_persisted_state(read).record.is_configured()
    }

    /// Whether the persisted cloud backup state is unverified
    pub fn is_cloud_backup_unverified(
        &self,
        read: Result<PersistedSnapshot, String>,
    ) -> (unverified: bool)
        ensures
            unverified == (loaded(read).record.status is Unverified),
    {
        load_persisted_state(read).record.is_unverified()
    }

    /// Whether the persisted cloud backup passkey is missing
    pub fn is_cloud_backup_passkey_missing(
        &self,
        read: Result<PersistedSnapshot, String>,
    ) -> (missing: bool)
        ensures
            missing == (loaded(read).record.status is PasskeyMissing),
    {
        load_persisted_state(read).record.is_passkey_missing()
    }

    /// Whether uploads are still to be confirmed, by what was read of their queue.
    pub fn has_pending_cloud_upload_verification(
        &self,
        read: &Result<Option<PendingCloudUploadVerification>, String>,
    ) -> (pending: bool)
        ensures
            pending == uploads_pending(*read),
    {
        match read {
            Ok(Some(queue)) => queue.has_unconfirmed(),
            _ => false,
        }
    }

    /// Whether the caller is to start the loop that watches uploads: not while it runs.
    pub fn start_pending_upload_verification_loop(&mut self) -> (start: bool)
        ensures
            start == !old(self).pending_upload_verifier_running,
            final(self).pending_upload_verifier_running,
            final(self).state == old(self).state,
    {
        let start: bool = !self.pending_upload_verifier_running;
        self.pending_upload_verifier_running = true;
        start
    }

    /// Starts watching again what was watched when the app was last closed: whether the caller is
    /// to start the loop.
    pub fn resume_pending_cloud_upload_verification(&mut self) -> (start: bool)
        ensures
            start == !old(self).pending_upload_verifier_running,
            final(self).pending_upload_verifier_running,
            final(self).state == old(self).state,
    {
        self.start_pending_upload_verification_loop()
    }

    /// Whether the loop goes on after a pass, which says whether uploads are still to be watched; a
    /// pass that could not be finished is tried again.
    pub fn goes_on_after_pass(pass: Option<bool>) -> (goes_on: bool)
        ensures
            goes_on == match pass {
                Some(still_pending) => still_pending,
                None => true,
            },
    {
        match pass {
            Some(still_pending) => still_pending,
            None => true,
        }
    }

    /// Notes that the loop ended. Uploads that were queued meanwhile have it start again: whether
    /// the caller is to do so.
    pub fn finish_pending_upload_verification_loop(
        &mut self,
        queue: &Result<Option<PendingCloudUploadVerification>, String>,
    ) -> (start: bool)
        ensures
            start == uploads_pending(*queue),
            final(self).pending_upload_verifier_running == uploads_pending(*queue),
            final(self).state == old(self).state,
    {
        self.pending_upload_verifier_running = false;
        if self.has_pending_cloud_upload_verification(queue) {
            self.start_pending_upload_verification_loop()
        } else {
            false
        }
    }

    /// Reset local cloud backup state (keychain + DB) without touching iCloud
    ///
    /// Debug-only: pair with Swift-side iCloud wipe for full reset
    pub fn debug_reset_cloud_backup_state(&self) -> (steps: Vec<ResetStep>)
        ensures
            steps@ == seq![
                ResetStep::ForgetKeychain(KeychainKey::NamespaceId),
                ResetStep::ForgetKeychain(KeychainKey::CredentialId),
                ResetStep::ForgetKeychain(KeychainKey::PrfSalt),
                ResetStep::DiscardEnableSession,
                ResetStep::DeleteMasterKey,
                ResetStep::ResetMasterKeyCache,
                ResetStep::DeletePersistedState,
                ResetStep::DeletePendingUploads,
                ResetStep::Update(StateChange::Reset),
                ResetStep::Notify(
                    CloudBackupReconcileMessage::StatusChanged(CloudBackupStatus::Disabled),
                ),
                ResetStep::Notify(
                    CloudBackupReconcileMessage::PendingUploadVerificationChanged {
                        pending: false,
                    },
                ),
            ],
    {
        let mut steps: Vec<ResetStep> = Vec::new();
        steps.push(ResetStep::ForgetKeychain(KeychainKey::NamespaceId));
        steps.push(ResetStep::ForgetKeychain(KeychainKey::CredentialId));
        steps.push(ResetStep::ForgetKeychain(KeychainKey::PrfSalt));
        steps.push(ResetStep::DiscardEnableSession);
        steps.push(ResetStep::DeleteMasterKey);
        steps.push(ResetStep::ResetMasterKeyCache);
        steps.push(ResetStep::DeletePersistedState);
        steps.push(ResetStep::DeletePendingUploads);
        steps.push(ResetStep::Update(StateChange::Reset));
        steps.push(
            ResetStep::Notify(
                CloudBackupReconcileMessage::StatusChanged(CloudBackupStatus::Disabled),
            ),
        );
        steps.push(
            ResetStep::Notify(
                CloudBackupReconcileMessage::PendingUploadVerificationChanged { pending: false },
            ),
        );
        steps
    }

    /// Work for the user, unless other such work is under way.
    pub fn start_background_operation(
        &self,
        entering_status: Option<CloudBackupStatus>,
        work: BackgroundWork,
    ) -> (started: Option<BackgroundOperation>)
        ensures
            started == if is_busy(self.state.status) {
                None
            } else {
                Some(BackgroundOperation { entering_status, work })
            },
    {
        if matches!(self.state.status, CloudBackupStatus::Enabling | CloudBackupStatus::Restoring) {
            return None;
        }
        Some(BackgroundOperation { entering_status, work })
    }

    /// What is announced when work for the user failed.
    pub fn background_operation_failed(error: &CloudBackupError) -> (message:
        CloudBackupReconcileMessage)
        ensures
            message matches CloudBackupReconcileMessage::StatusChanged(
                CloudBackupStatus::Error(text),
            ) && text@ == error@.message(),
    {
        CloudBackupReconcileMessage::StatusChanged(CloudBackupStatus::Error(error.message()))
    }

    /// Enable cloud backup — idempotent, safe to retry
    ///
    /// Creates passkey, encrypts master key + all wallets, hands them off to iCloud,
    /// then verifies full upload in the background
    pub fn enable_cloud_backup(&self) -> (started: Option<BackgroundOperation>)
        ensures
            started == if is_busy(self.state.status) {
                None
            } else {
                Some(
                    BackgroundOperation { entering_status: None, work: BackgroundWork::Enable },
                )
            },
    {
        self.start_background_operation(None, BackgroundWork::Enable)
    }

    /// Enable cloud backup, skipping recovery — creates a new namespace
    ///
    /// Called after the user confirms they want a new backup when existing cloud
    /// backups were found but not recovered
    pub fn enable_cloud_backup_force_new(&self) -> (started: Option<BackgroundOperation>)
        ensures
            started == if is_busy(self.state.status) {
                None
            } else {
                Some(
                    BackgroundOperation {
                        entering_status: Some(CloudBackupStatus::Enabling),
                        work: BackgroundWork::EnableForceNew,
                    },
                )
            },
    {
        self.start_background_operation(
            Some(CloudBackupStatus::Enabling),
            BackgroundWork::EnableForceNew,
        )
    }

    /// Enable cloud backup, skipping passkey discovery — goes straight to registration
    ///
    /// Called after the user cancels the passkey discovery picker and chooses
    /// "Create New Passkey" from the options alert
    pub fn enable_cloud_backup_no_discovery(&self) -> (started: Option<BackgroundOperation>)
        ensures
            started == if is_busy(self.state.status) {
                None
            } else {
                Some(
                    BackgroundOperation {
                        entering_status: Some(CloudBackupStatus::Enabling),
                        work: BackgroundWork::EnableNoDiscovery,
                    },
                )
            },
    {
        self.start_background_operation(
            Some(CloudBackupStatus::Enabling),
            BackgroundWork::EnableNoDiscovery,
        )
    }

    /// Restore from cloud backup — called after device restore
    ///
    /// Uses discoverable credential assertion (no local keychain state required)
    pub fn restore_from_cloud_backup(&self) -> (started: Option<BackgroundOperation>)
        ensures
            started == if is_busy(self.state.status) {
                None
            } else {
                Some(
                    BackgroundOperation { entering_status: None, work: BackgroundWork::Restore },
                )
            },
    {
        self.start_background_operation(None, BackgroundWork::Restore)
    }

    /// Back up a newly created wallet, fire-and-forget
    ///
    /// Nothing if cloud backup isn't enabled (e.g. during restore)
    pub fn backup_new_wallet(&self, wallet: WalletMetadata) -> (started: Option<Operation>)
        ensures
            started == if self.state.status is Enabled || self.state.status is PasskeyMissing {
                Some(Operation::BackupNewWallet { wallet })
            } else {
                None
            },
    {
        if matches!(
            self.state.status,
            CloudBackupStatus::Enabled | CloudBackupStatus::PasskeyMissing
        ) {
            Some(Operation::BackupNewWallet { wallet })
        } else {
            None
        }
    }

    /// Background startup health check for cloud backup integrity
    pub fn verify_backup_integrity(&self) -> (operation: Operation)
        ensures
            operation == Operation::VerifyIntegrity,
    {
        Operation::VerifyIntegrity
    }

    pub fn start_verification(&self) -> (operation: Operation)
        ensures
            operation == (Operation::HandleVerification { force_discoverable: false }),
    {
        Operation::HandleVerification { force_discoverable: false }
    }

    pub fn start_verification_discoverable(&self) -> (operation: Operation)
        ensures
            operation == (Operation::HandleVerification { force_discoverable: true }),
    {
        Operation::HandleVerification { force_discoverable: true }
    }

    pub fn recreate_manifest(&self) -> (operation: Operation)
        ensures
            operation == (Operation::HandleRecovery { action: RecoveryAction::RecreateManifest }),
    {
        Operation::HandleRecovery { action: RecoveryAction::RecreateManifest }
    }

    pub fn reinitialize_backup(&self) -> (operation: Operation)
        ensures
            operation == (Operation::HandleRecovery { action: RecoveryAction::ReinitializeBackup }),
    {
        Operation::HandleRecovery { action: RecoveryAction::ReinitializeBackup }
    }

    pub fn repair_passkey(&self) -> (operation: Operation)
        ensures
            operation == (Operation::HandleRepair { no_discovery: false }),
    {
        Operation::HandleRepair { no_discovery: false }
    }

    pub fn repair_passkey_no_discovery(&self) -> (operation: Operation)
        ensures
            operation == (Operation::HandleRepair { no_discovery: true }),
    {
        Operation::HandleRepair { no_discovery: true }
    }

    pub fn sync_unsynced(&self) -> (operation: Operation)
        ensures
            operation == Operation::HandleSync,
    {
        Operation::HandleSync
    }

    pub fn fetch_cloud_only(&self) -> (operation: Operation)
        ensures
            operation == Operation::HandleFetchCloudOnly,
    {
        Operation::HandleFetchCloudOnly
    }

    pub fn restore_cloud_wallet(&self, record_id: String) -> (operation: Operation)
        ensures
            operation == (Operation::HandleRestoreCloudWallet { record_id }),
    {
        Operation::HandleRestoreCloudWallet { record_id }
    }

    pub fn delete_cloud_wallet(&self, record_id: String) -> (operation: Operation)
        ensures
            operation == (Operation::HandleDeleteCloudWallet { record_id }),
    {
        Operation::HandleDeleteCloudWallet { record_id }
    }

    pub fn refresh_detail(&self) -> (operation: Operation)
        ensures
            operation == Operation::HandleRefreshDetail,
    {
        Operation::HandleRefreshDetail
    }
}

/// Whether a file of the data directory is the database of a wallet, and goes when the local data
/// are wiped.
pub fn is_wallet_database(file_name: &str) -> (found: bool)
    ensures
        found == "bdk_wallet"@.is_prefix_of(file_name@),
{
    starts_with(file_name, "bdk_wallet")
}

/// Whatever a message or a change says, the flags that the database decides are those of the
/// database afterwards.
pub proof fn law_flags_follow_database(
    before: CloudBackupState,
    message: CloudBackupReconcileMessage,
    change: StateChange,
    snapshot: PersistedSnapshot,
    after: CloudBackupState,
)
    requires
        state_told(before, message, snapshot, after) || state_changed(
            before,
            change,
            snapshot,
            after,
        ),
    ensures
        after.is_unverified == (snapshot.record.status is Unverified),
        after.is_configured == !(snapshot.record.status is Disabled),
        after.last_verified_at == snapshot.record.last_verified_at,
        after.should_prompt_verification == snapshot.should_prompt_verification,
{
}

/// Once it is announced that a backup is being set up or restored, no other such work starts.
pub proof fn law_announced_work_excludes_other_work(
    before: CloudBackupState,
    status: CloudBackupStatus,
    snapshot: PersistedSnapshot,
    after: CloudBackupState,
)
    requires
        is_busy(status),
        state_told(
            before,
            CloudBackupReconcileMessage::StatusChanged(status),
            snapshot,
            after,
        ),
    ensures
        is_busy(after.status),
{
}

} // verus!
