//! The state of the cloud backup that the user interface shows, and how it changes.

pub mod laws;

use vstd::prelude::*;

use crate::record::PersistedSnapshot;
use crate::sequences::{lemma_filter_ends, lemma_filter_take};
use crate::text::texts;
use crate::wallet::{copy_text, Network, WalletMode, WalletType};

verus! {

#[derive(Debug, PartialEq, Eq, Hash)]
pub enum CloudBackupStatus {
    Disabled,
    Enabling,
    Restoring,
    Enabled,
    PasskeyMissing,
    Error(String),
}

/// What the user interface is told.
#[derive(Debug, Clone)]
pub enum CloudBackupReconcileMessage {
    Updated,
    StatusChanged(CloudBackupStatus),
    VerificationPromptChanged { pending: bool },
    ProgressUpdated { completed: u32, total: u32 },
    RestoreProgressUpdated(CloudBackupRestoreProgress),
    EnableComplete,
    RestoreComplete(CloudBackupRestoreReport),
    SyncFailed(String),
    PendingUploadVerificationChanged { pending: bool },
    ExistingBackupFound,
    PasskeyDiscoveryCancelled,
}

/// Receives what the user interface is told.
pub trait CloudBackupManagerReconciler: Send + Sync + std::fmt::Debug + 'static {
    fn reconcile(&self, message: CloudBackupReconcileMessage);
}

/// How a restore went, wallet by wallet.
#[derive(Debug, PartialEq, Eq)]
pub struct CloudBackupRestoreReport {
    pub wallets_restored: u32,
    pub wallets_failed: u32,
    pub failed_wallet_errors: Vec<String>,
}

#[derive(Debug, Clone, Copy, PartialEq, Eq, Hash, Structural)]
pub struct CloudBackupProgress {
    pub completed: u32,
    pub total: u32,
}

#[derive(Debug, Clone, Copy, PartialEq, Eq, Hash, Structural)]
pub enum CloudBackupRestoreStage {
    Finding,
    Downloading,
    Restoring,
}

#[derive(Debug, Clone, Copy, PartialEq, Eq, Hash, Structural)]
pub struct CloudBackupRestoreProgress {
    pub stage: CloudBackupRestoreStage,
    pub completed: u32,
    pub total: Option<u32>,
}

#[derive(Debug, Clone, Copy, PartialEq, Eq, Hash, Structural)]
pub enum CloudBackupWalletStatus {
    BackedUp,
    NotBackedUp,
    DeletedFromDevice,
}

/// One wallet in the backup screens.
#[derive(Debug, PartialEq, Eq, Hash)]
pub struct CloudBackupWalletItem {
    pub name: String,
    pub network: Network,
    pub wallet_mode: WalletMode,
    pub wallet_type: WalletType,
    pub fingerprint: Option<String>,
    pub status: CloudBackupWalletStatus,
    /// Deterministic cloud record ID for the wallet backup represented by this item
    pub record_id: String,
}

#[derive(Debug, Clone, PartialEq, Eq)]
pub enum CloudBackupDetailResult {
    Success(CloudBackupDetail),
    AccessError(String),
}

/// Which wallets the cloud holds, compared with those on this device.
#[derive(Debug, PartialEq, Eq)]
pub struct CloudBackupDetail {
    pub last_sync: Option<u64>,
    pub backed_up: Vec<CloudBackupWalletItem>,
    pub not_backed_up: Vec<CloudBackupWalletItem>,
    /// Number of wallets in the cloud that aren't on this device
    pub cloud_only_count: u32,
}

/// The outcome of a deep verification.
#[derive(Debug, Clone, PartialEq, Eq)]
pub enum DeepVerificationResult {
    Verified(DeepVerificationReport),
    PasskeyConfirmed(Option<CloudBackupDetail>),
    PasskeyMissing(Option<CloudBackupDetail>),
    UserCancelled(Option<CloudBackupDetail>),
    NotEnabled,
    Failed(DeepVerificationFailure),
}

#[derive(Debug, PartialEq, Eq)]
pub struct DeepVerificationReport {
    /// Cloud master key PRF wrapping was repaired
    pub master_key_wrapper_repaired: bool,
    /// Local keychain was repaired from verified cloud master key
    pub local_master_key_repaired: bool,
    /// credential_id was recovered via discoverable auth
    pub credential_recovered: bool,
    pub wallets_verified: u32,
    pub wallets_failed: u32,
    /// Wallet backups with unsupported version (newer format, skipped)
    pub wallets_unsupported: u32,
    /// May be None if wallet list was missing but master key verified
    pub detail: Option<CloudBackupDetail>,
}

#[derive(Debug, PartialEq, Eq)]
pub struct DeepVerificationFailure {
    pub kind: VerificationFailureKind,
    pub message: String,
    pub detail: Option<CloudBackupDetail>,
}

#[derive(Debug, PartialEq, Eq)]
pub enum VerificationFailureKind {
    /// Transient iCloud/network/passkey error — safe to retry
    Retry,
    /// Manifest missing, master key verified intact — recreate from local wallets
    RecreateManifest { warning: String },
    /// No verified cloud or local master key available — full re-enable needed
    ReinitializeBackup { warning: String },
    /// Backup uses a newer format — do not overwrite
    UnsupportedVersion,
}

#[derive(Debug, Clone, Copy, PartialEq, Eq, Structural)]
pub enum RecoveryAction {
    RecreateManifest,
    ReinitializeBackup,
    RepairPasskey,
}

#[derive(Debug, PartialEq, Eq)]
pub enum VerificationState {
    Idle,
    Verifying,
    Verified(DeepVerificationReport),
    PasskeyConfirmed,
    Failed(DeepVerificationFailure),
    Cancelled,
}

#[derive(Debug, PartialEq, Eq)]
pub enum SyncState {
    Idle,
    Syncing,
    Failed(String),
}

#[derive(Debug, PartialEq, Eq)]
pub enum RecoveryState {
    Idle,
    Recovering(RecoveryAction),
    Failed { action: RecoveryAction, error: String },
}

#[derive(Debug, PartialEq, Eq)]
pub enum CloudOnlyState {
    NotFetched,
    Loading,
    Loaded { wallets: Vec<CloudBackupWalletItem> },
}

#[derive(Debug, PartialEq, Eq)]
pub enum CloudOnlyOperation {
    Idle,
    Operating { record_id: String },
    Failed { error: String },
}

/// Everything that the user interface shows of the backup.
#[derive(Debug, PartialEq, Eq)]
pub struct CloudBackupState {
    pub status: CloudBackupStatus,
    pub progress: Option<CloudBackupProgress>,
    pub restore_progress: Option<CloudBackupRestoreProgress>,
    pub restore_report: Option<CloudBackupRestoreReport>,
    pub sync_error: Option<String>,
    pub has_pending_upload_verification: bool,
    pub should_prompt_verification: bool,
    pub is_unverified: bool,
    pub is_configured: bool,
    pub last_verified_at: Option<u64>,
    pub detail: Option<CloudBackupDetail>,
    pub verification: VerificationState,
    pub sync: SyncState,
    pub recovery: RecoveryState,
    pub cloud_only: CloudOnlyState,
    pub cloud_only_operation: CloudOnlyOperation,
}

/// A change of the state that an operation asks for.
#[derive(Debug)]
pub enum StateChange {
    VerificationStarted,
    VerificationFinished(DeepVerificationResult),
    RecoveryStarted(RecoveryAction),
    RecoveryFinished,
    RecoveryFailed { action: RecoveryAction, error: String },
    PasskeyRepaired,
    SyncStarted,
    SyncFinished,
    SyncFailed(String),
    CloudOnlyLoading,
    CloudOnlyLoaded(Vec<CloudBackupWalletItem>),
    CloudOnlyOperating { record_id: String },
    CloudOnlyDone { record_id: String },
    CloudOnlyFailed(String),
    DetailRefreshed(CloudBackupDetail),
    Reset,
}

impl Clone for CloudBackupStatus {
    fn clone(&self) -> (copy: Self)
        ensures
            copy == *self,
    {
        match self {
            CloudBackupStatus::Disabled => CloudBackupStatus::Disabled,
            CloudBackupStatus::Enabling => CloudBackupStatus::Enabling,
            CloudBackupStatus::Restoring => CloudBackupStatus::Restoring,
            CloudBackupStatus::Enabled => CloudBackupStatus::Enabled,
            CloudBackupStatus::PasskeyMissing => CloudBackupStatus::PasskeyMissing,
            CloudBackupStatus::Error(text) => CloudBackupStatus::Error(text.clone()),
        }
    }
}

impl Clone for CloudBackupWalletItem {
    fn clone(&self) -> (copy: Self)
        ensures
            copy == *self,
    {
        CloudBackupWalletItem {
            name: self.name.clone(),
            network: self.network,
            wallet_mode: self.wallet_mode,
            wallet_type: self.wallet_type,
            fingerprint: copy_text(&self.fingerprint),
            status: self.status,
            record_id: self.record_id.clone(),
        }
    }
}

/// [`CloudBackupRestoreReport`] with its errors taken as characters.
pub struct CloudBackupRestoreReportView {
    pub wallets_restored: u32,
    pub wallets_failed: u32,
    pub failed_wallet_errors: Seq<Seq<char>>,
}

impl View for CloudBackupRestoreReport {
    type V = CloudBackupRestoreReportView;

    open spec fn view(&self) -> CloudBackupRestoreReportView {
        CloudBackupRestoreReportView {
            wallets_restored: self.wallets_restored,
            wallets_failed: self.wallets_failed,
            failed_wallet_errors: texts(self.failed_wallet_errors@),
        }
    }
}

impl Clone for CloudBackupRestoreReport {
    fn clone(&self) -> (copy: Self)
        ensures
            copy@ == self@,
    {
        let errors: Vec<String> = self.failed_wallet_errors.clone();
        assert(texts(errors@) =~= texts(self.failed_wallet_errors@));
        CloudBackupRestoreReport {
            wallets_restored: self.wallets_restored,
            wallets_failed: self.wallets_failed,
            failed_wallet_errors: errors,
        }
    }
}

/// [`CloudBackupDetail`] with its lists taken as sequences.
pub struct CloudBackupDetailView {
    pub last_sync: Option<u64>,
    pub backed_up: Seq<CloudBackupWalletItem>,
    pub not_backed_up: Seq<CloudBackupWalletItem>,
    pub cloud_only_count: u32,
}

impl View for CloudBackupDetail {
    type V = CloudBackupDetailView;

    open spec fn view(&self) -> CloudBackupDetailView {
        CloudBackupDetailView {
            last_sync: self.last_sync,
            backed_up: self.backed_up@,
            not_backed_up: self.not_backed_up@,
            cloud_only_count: self.cloud_only_count,
        }
    }
}

impl Clone for CloudBackupDetail {
    fn clone(&self) -> (copy: Self)
        ensures
            copy@ == self@,
    {
        let backed_up: Vec<CloudBackupWalletItem> = self.backed_up.clone();
        let not_backed_up: Vec<CloudBackupWalletItem> = self.not_backed_up.clone();
        assert(backed_up@ =~= self.backed_up@);
        assert(not_backed_up@ =~= self.not_backed_up@);
        CloudBackupDetail {
            last_sync: self.last_sync,
            backed_up,
            not_backed_up,
            cloud_only_count: self.cloud_only_count,
        }
    }
}

/// Whether two details show the same.
pub open spec fn same_detail(
    one: Option<CloudBackupDetail>,
    other: Option<CloudBackupDetail>,
) -> bool {
    match (one, other) {
        (Some(a), Some(b)) => a@ == b@,
        (None, None) => true,
        _ => false,
    }
}

impl DeepVerificationReport {
    /// Whether two reports show the same.
    pub open spec fn same(self, other: Self) -> bool {
        &&& same_detail(self.detail, other.detail)
        &&& other == (DeepVerificationReport { detail: other.detail, ..self })
    }
}

impl DeepVerificationFailure {
    /// Whether two failures show the same.
    pub open spec fn same(self, other: Self) -> bool {
        &&& same_detail(self.detail, other.detail)
        &&& other == (DeepVerificationFailure { detail: other.detail, ..self })
    }
}

impl VerificationState {
    /// Whether two states show the same.
    pub open spec fn same(self, other: Self) -> bool {
        match (self, other) {
            (VerificationState::Verified(a), VerificationState::Verified(b)) => a.same(b),
            (VerificationState::Failed(a), VerificationState::Failed(b)) => a.same(b),
            _ => self == other,
        }
    }
}

impl CloudOnlyState {
    /// Whether two states show the same.
    pub open spec fn same(self, other: Self) -> bool {
        match (self, other) {
            (CloudOnlyState::Loaded { wallets: a }, CloudOnlyState::Loaded { wallets: b }) => a@
                == b@,
            _ => self == other,
        }
    }
}

/// Whether two reports show the same.
pub open spec fn same_report(
    one: Option<CloudBackupRestoreReport>,
    other: Option<CloudBackupRestoreReport>,
) -> bool {
    match (one, other) {
        (Some(a), Some(b)) => a@ == b@,
        (None, None) => true,
        _ => false,
    }
}

impl Clone for VerificationFailureKind {
    fn clone(&self) -> (copy: Self)
        ensures
            copy == *self,
    {
        match self {
            VerificationFailureKind::Retry => VerificationFailureKind::Retry,
            VerificationFailureKind::RecreateManifest { warning } =>
                VerificationFailureKind::RecreateManifest { warning: warning.clone() },
            VerificationFailureKind::ReinitializeBackup { warning } =>
                VerificationFailureKind::ReinitializeBackup { warning: warning.clone() },
            VerificationFailureKind::UnsupportedVersion =>
                VerificationFailureKind::UnsupportedVersion,
        }
    }
}

impl Clone for DeepVerificationReport {
    fn clone(&self) -> (copy: Self)
        ensures
            self.same(copy),
    {
        DeepVerificationReport {
            master_key_wrapper_repaired: self.master_key_wrapper_repaired,
            local_master_key_repaired: self.local_master_key_repaired,
            credential_recovered: self.credential_recovered,
            wallets_verified: self.wallets_verified,
            wallets_failed: self.wallets_failed,
            wallets_unsupported: self.wallets_unsupported,
            detail: copy_detail(&self.detail),
        }
    }
}

impl Clone for DeepVerificationFailure {
    fn clone(&self) -> (copy: Self)
        ensures
            self.same(copy),
    {
        DeepVerificationFailure {
            kind: self.kind.clone(),
            message: self.message.clone(),
            detail: copy_detail(&self.detail),
        }
    }
}

impl Clone for VerificationState {
    fn clone(&self) -> (copy: Self)
        ensures
            self.same(copy),
    {
        match self {
            VerificationState::Idle => VerificationState::Idle,
            VerificationState::Verifying => VerificationState::Verifying,
            VerificationState::Verified(report) => VerificationState::Verified(report.clone()),
            VerificationState::PasskeyConfirmed => VerificationState::PasskeyConfirmed,
            VerificationState::Failed(failure) => VerificationState::Failed(failure.clone()),
            VerificationState::Cancelled => VerificationState::Cancelled,
        }
    }
}

impl Clone for SyncState {
    fn clone(&self) -> (copy: Self)
        ensures
            copy == *self,
    {
        match self {
            SyncState::Idle => SyncState::Idle,
            SyncState::Syncing => SyncState::Syncing,
            SyncState::Failed(error) => SyncState::Failed(error.clone()),
        }
    }
}

impl Clone for RecoveryState {
    fn clone(&self) -> (copy: Self)
        ensures
            copy == *self,
    {
        match self {
            RecoveryState::Idle => RecoveryState::Idle,
            RecoveryState::Recovering(action) => RecoveryState::Recovering(*action),
            RecoveryState::Failed { action, error } => RecoveryState::Failed {
                action: *action,
                error: error.clone(),
            },
        }
    }
}

impl Clone for CloudOnlyState {
    fn clone(&self) -> (copy: Self)
        ensures
            self.same(copy),
    {
        match self {
            CloudOnlyState::NotFetched => CloudOnlyState::NotFetched,
            CloudOnlyState::Loading => CloudOnlyState::Loading,
            CloudOnlyState::Loaded { wallets } => {
                let copy: Vec<CloudBackupWalletItem> = wallets.clone();
                assert(copy@ =~= wallets@);
                CloudOnlyState::Loaded { wallets: copy }
            },
        }
    }
}

impl Clone for CloudOnlyOperation {
    fn clone(&self) -> (copy: Self)
        ensures
            copy == *self,
    {
        match self {
            CloudOnlyOperation::Idle => CloudOnlyOperation::Idle,
            CloudOnlyOperation::Operating { record_id } => CloudOnlyOperation::Operating {
                record_id: record_id.clone(),
            },
            CloudOnlyOperation::Failed { error } => CloudOnlyOperation::Failed {
                error: error.clone(),
            },
        }
    }
}

impl CloudBackupState {
    /// Whether two states show the same.
    pub open spec fn same(self, other: Self) -> bool {
        &&& same_report(self.restore_report, other.restore_report)
        &&& same_detail(self.detail, other.detail)
        &&& self.verification.same(other.verification)
        &&& self.cloud_only.same(other.cloud_only)
        &&& other == (CloudBackupState {
            restore_report: other.restore_report,
            detail: other.detail,
            verification: other.verification,
            cloud_only: other.cloud_only,
            ..self
        })
    }
}

impl Clone for CloudBackupState {
    fn clone(&self) -> (copy: Self)
        ensures
            self.same(copy),
    {
        CloudBackupState {
            status: self.status.clone(),
            progress: self.progress,
            restore_progress: self.restore_progress,
            restore_report: match &self.restore_report {
                Some(report) => Some(report.clone()),
                None => None,
            },
            sync_error: copy_text(&self.sync_error),
            has_pending_upload_verification: self.has_pending_upload_verification,
            should_prompt_verification: self.should_prompt_verification,
            is_unverified: self.is_unverified,
            is_configured: self.is_configured,
            last_verified_at: self.last_verified_at,
            detail: copy_detail(&self.detail),
            verification: self.verification.clone(),
            sync: self.sync.clone(),
            recovery: self.recovery.clone(),
            cloud_only: self.cloud_only.clone(),
            cloud_only_operation: self.cloud_only_operation.clone(),
        }
    }
}

/// Whether `now` shows `found` where there is something to show, and else what `before` shows.
pub open spec fn detail_replaced(
    before: Option<CloudBackupDetail>,
    found: Option<CloudBackupDetail>,
    now: Option<CloudBackupDetail>,
) -> bool {
    match found {
        Some(detail) => {
            &&& now matches Some(shown)
            &&& shown@ == detail@
        },
        None => now == before,
    }
}

/// The wallets of a list whose backup is not `record_id`.
pub open spec fn items_without(
    items: Seq<CloudBackupWalletItem>,
    record_id: Seq<char>,
) -> Seq<CloudBackupWalletItem> {
    items.filter(|item: CloudBackupWalletItem| item.record_id@ != record_id)
}

impl CloudBackupState {
    /// The state of a device without a backup.
    pub open spec fn initial() -> Self {
        CloudBackupState {
            status: CloudBackupStatus::Disabled,
            progress: None,
            restore_progress: None,
            restore_report: None,
            sync_error: None,
            has_pending_upload_verification: false,
            should_prompt_verification: false,
            is_unverified: false,
            is_configured: false,
            last_verified_at: None,
            detail: None,
            verification: VerificationState::Idle,
            sync: SyncState::Idle,
            recovery: RecoveryState::Idle,
            cloud_only: CloudOnlyState::NotFetched,
            cloud_only_operation: CloudOnlyOperation::Idle,
        }
    }

    /// The state with the flags that the database decides.
    pub open spec fn with_flags(self, snapshot: PersistedSnapshot) -> Self {
        CloudBackupState {
            is_unverified: snapshot.record.status is Unverified,
            is_configured: !(snapshot.record.status is Disabled),
            last_verified_at: snapshot.record.last_verified_at,
            should_prompt_verification: snapshot.should_prompt_verification,
            ..self
        }
    }

    /// Whether a message turns this state into `next`, the flags that the database decides aside.
    pub open spec fn told(self, message: CloudBackupReconcileMessage, next: Self) -> bool {
        match message {
            CloudBackupReconcileMessage::StatusChanged(status) => next == (CloudBackupState {
                status,
                progress: None,
                restore_progress: None,
                restore_report: if status is Enabling || status is Restoring {
                    None
                } else {
                    self.restore_report
                },
                ..self
            }),
            CloudBackupReconcileMessage::VerificationPromptChanged { pending } => next == (
            CloudBackupState { should_prompt_verification: pending, ..self }),
            CloudBackupReconcileMessage::ProgressUpdated { completed, total } => next == (
            CloudBackupState { progress: Some(CloudBackupProgress { completed, total }), ..self }),
            CloudBackupReconcileMessage::RestoreProgressUpdated(progress) => next == (
            CloudBackupState { restore_progress: Some(progress), ..self }),
            CloudBackupReconcileMessage::EnableComplete => next == (CloudBackupState {
                progress: None,
                ..self
            }),
            CloudBackupReconcileMessage::RestoreComplete(report) => {
                &&& next.restore_report matches Some(shown)
                &&& shown@ == report@
                &&& next == (CloudBackupState {
                    restore_report: next.restore_report,
                    progress: None,
                    restore_progress: None,
                    ..self
                })
            },
            CloudBackupReconcileMessage::SyncFailed(error) => next == (CloudBackupState {
                sync_error: Some(error),
                ..self
            }),
            CloudBackupReconcileMessage::PendingUploadVerificationChanged { pending } => next == (
            CloudBackupState { has_pending_upload_verification: pending, ..self }),
            CloudBackupReconcileMessage::Updated => next == self,
            CloudBackupReconcileMessage::ExistingBackupFound => next == self,
            CloudBackupReconcileMessage::PasskeyDiscoveryCancelled => next == self,
        }
    }

    /// Whether a verification's result turns this state into `next`.
    pub open spec fn verified(self, result: DeepVerificationResult, next: Self) -> bool {
        match result {
            DeepVerificationResult::Verified(report) => {
                &&& detail_replaced(self.detail, report.detail, next.detail)
                &&& next == (CloudBackupState {
                    detail: next.detail,
                    verification: VerificationState::Verified(report),
                    recovery: RecoveryState::Idle,
                    ..self
                })
            },
            DeepVerificationResult::PasskeyConfirmed(detail) => {
                &&& detail_replaced(self.detail, detail, next.detail)
                &&& next == (CloudBackupState {
                    detail: next.detail,
                    verification: VerificationState::PasskeyConfirmed,
                    ..self
                })
            },
            DeepVerificationResult::PasskeyMissing(detail) => {
                &&& detail_replaced(self.detail, detail, next.detail)
                &&& next == (CloudBackupState {
                    detail: next.detail,
                    verification: VerificationState::Idle,
                    recovery: RecoveryState::Idle,
                    ..self
                })
            },
            DeepVerificationResult::UserCancelled(detail) => {
                &&& detail_replaced(self.detail, detail, next.detail)
                &&& next == (CloudBackupState {
                    detail: next.detail,
                    verification: VerificationState::Cancelled,
                    ..self
                })
            },
            DeepVerificationResult::NotEnabled => next == self,
            DeepVerificationResult::Failed(failure) => {
                &&& detail_replaced(self.detail, failure.detail, next.detail)
                &&& next == (CloudBackupState {
                    detail: next.detail,
                    verification: VerificationState::Failed(failure),
                    ..self
                })
            },
        }
    }

    /// Whether a change turns this state into `next`, the flags that the database decides aside.
    pub open spec fn changed(self, change: StateChange, next: Self) -> bool {
        match change {
            StateChange::VerificationStarted => next == (CloudBackupState {
                verification: VerificationState::Verifying,
                ..self
            }),
            StateChange::VerificationFinished(result) => self.verified(result, next),
            StateChange::RecoveryStarted(action) => next == (CloudBackupState {
                recovery: RecoveryState::Recovering(action),
                ..self
            }),
            StateChange::RecoveryFinished => next == (CloudBackupState {
                recovery: RecoveryState::Idle,
                ..self
            }),
            StateChange::RecoveryFailed { action, error } => next == (CloudBackupState {
                recovery: RecoveryState::Failed { action, error },
                ..self
            }),
            StateChange::PasskeyRepaired => next == (CloudBackupState {
                recovery: RecoveryState::Idle,
                verification: VerificationState::Idle,
                ..self
            }),
            StateChange::SyncStarted => next == (CloudBackupState {
                sync: SyncState::Syncing,
                ..self
            }),
            StateChange::SyncFinished => next == (CloudBackupState {
                sync: SyncState::Idle,
                ..self
            }),
            StateChange::SyncFailed(error) => next == (CloudBackupState {
                sync: SyncState::Failed(error),
                ..self
            }),
            StateChange::CloudOnlyLoading => next == (CloudBackupState {
                cloud_only: CloudOnlyState::Loading,
                ..self
            }),
            StateChange::CloudOnlyLoaded(wallets) => next == (CloudBackupState {
                cloud_only: CloudOnlyState::Loaded { wallets },
                ..self
            }),
            StateChange::CloudOnlyOperating { record_id } => next == (CloudBackupState {
                cloud_only_operation: CloudOnlyOperation::Operating { record_id },
                ..self
            }),
            StateChange::CloudOnlyDone { record_id } => {
                &&& next == (CloudBackupState {
                    cloud_only: next.cloud_only,
                    cloud_only_operation: CloudOnlyOperation::Idle,
                    ..self
                })
                &&& match self.cloud_only {
                    CloudOnlyState::Loaded { wallets } => {
                        &&& next.cloud_only matches CloudOnlyState::Loaded { wallets: left }
                        &&& left@ == items_without(wallets@, record_id@)
                    },
                    _ => next.cloud_only == self.cloud_only,
                }
            },
            StateChange::CloudOnlyFailed(error) => next == (CloudBackupState {
                cloud_only_operation: CloudOnlyOperation::Failed { error },
                ..self
            }),
            StateChange::DetailRefreshed(detail) => next == (CloudBackupState {
                detail: Some(detail),
                ..self
            }),
            StateChange::Reset => next == Self::initial(),
        }
    }
}

impl Default for CloudBackupState {
    fn default() -> (state: Self)
        ensures
            state == CloudBackupState::initial(),
    {
        CloudBackupState {
            status: CloudBackupStatus::Disabled,
            progress: None,
            restore_progress: None,
            restore_report: None,
            sync_error: None,
            has_pending_upload_verification: false,
            should_prompt_verification: false,
            is_unverified: false,
            is_configured: false,
            last_verified_at: None,
            detail: None,
            verification: VerificationState::Idle,
            sync: SyncState::Idle,
            recovery: RecoveryState::Idle,
            cloud_only: CloudOnlyState::NotFetched,
            cloud_only_operation: CloudOnlyOperation::Idle,
        }
    }
}

fn copy_detail(detail: &Option<CloudBackupDetail>) -> (copy: Option<CloudBackupDetail>)
    ensures
        same_detail(*detail, copy),
{
    match detail {
        Some(value) => Some(value.clone()),
        None => None,
    }
}

/// Drops the wallet of `record_id` from a list.
fn remove_item(wallets: &Vec<CloudBackupWalletItem>, record_id: &String) -> (left: Vec<
    CloudBackupWalletItem,
>)
    ensures
        left@ == items_without(wallets@, record_id@),
{
    let ghost keep = |item: CloudBackupWalletItem| item.record_id@ != record_id@;
    let mut left: Vec<CloudBackupWalletItem> = Vec::new();
    let mut i: usize = 0;
    proof {
        lemma_filter_ends(wallets@, keep);
    }
    while i < wallets.len()
        invariant
            i <= wallets@.len(),
            keep == (|item: CloudBackupWalletItem| item.record_id@ != record_id@),
            left@ == wallets@.take(i as int).filter(keep),
        decreases wallets@.len() - i,
    {
        proof {
            lemma_filter_take(wallets@, i as int, keep);
        }
        if !(wallets[i].record_id == *record_id) {
            left.push(wallets[i].clone());
        }
        i += 1;
    }
    left
}

impl CloudBackupState {
    /// Sets the flags that the database decides.
    pub fn refresh_state_flags(&mut self, snapshot: &PersistedSnapshot)
        ensures
            *final(self) == old(self).with_flags(*snapshot),
    {
        self.is_unverified = snapshot.record.is_unverified();
        self.is_configured = snapshot.record.is_configured();
        self.last_verified_at = snapshot.record.last_verified_at;
        self.should_prompt_verification = snapshot.should_prompt_verification;
    }

    /// Takes over what a message says.
    pub fn tell(&mut self, message: &CloudBackupReconcileMessage)
        ensures
            old(self).told(*message, *final(self)),
    {
        match message {
            CloudBackupReconcileMessage::Updated => {},
            CloudBackupReconcileMessage::StatusChanged(status) => {
                self.status = status.clone();
                self.progress = None;
                self.restore_progress = None;
                if matches!(status, CloudBackupStatus::Enabling | CloudBackupStatus::Restoring) {
                    self.restore_report = None;
                }
            },
            CloudBackupReconcileMessage::VerificationPromptChanged { pending } => {
                self.should_prompt_verification = *pending;
            },
            CloudBackupReconcileMessage::ProgressUpdated { completed, total } => {
                self.progress = Some(CloudBackupProgress { completed: *completed, total: *total });
            },
            CloudBackupReconcileMessage::RestoreProgressUpdated(progress) => {
                self.restore_progress = Some(*progress);
            },
            CloudBackupReconcileMessage::EnableComplete => {
                self.progress = None;
            },
            CloudBackupReconcileMessage::RestoreComplete(report) => {
                self.restore_report = Some(report.clone());
                self.progress = None;
                self.restore_progress = None;
            },
            CloudBackupReconcileMessage::SyncFailed(error) => {
                self.sync_error = Some(error.clone());
            },
            CloudBackupReconcileMessage::PendingUploadVerificationChanged { pending } => {
                self.has_pending_upload_verification = *pending;
            },
            CloudBackupReconcileMessage::ExistingBackupFound
            | CloudBackupReconcileMessage::PasskeyDiscoveryCancelled => {},
        }
    }

    fn finish_verification(&mut self, result: DeepVerificationResult)
        ensures
            old(self).verified(result, *final(self)),
    {
        match result {
            DeepVerificationResult::Verified(report) => {
                if report.detail.is_some() {
                    self.detail = copy_detail(&report.detail);
                }
                self.verification = VerificationState::Verified(report);
                self.recovery = RecoveryState::Idle;
            },
            DeepVerificationResult::PasskeyConfirmed(detail) => {
                if detail.is_some() {
                    self.detail = detail;
                }
                self.verification = VerificationState::PasskeyConfirmed;
            },
            DeepVerificationResult::PasskeyMissing(detail) => {
                if detail.is_some() {
                    self.detail = detail;
                }
                self.verification = VerificationState::Idle;
                self.recovery = RecoveryState::Idle;
            },
            DeepVerificationResult::UserCancelled(detail) => {
                if detail.is_some() {
                    self.detail = detail;
                }
                self.verification = VerificationState::Cancelled;
            },
            DeepVerificationResult::NotEnabled => {},
            DeepVerificationResult::Failed(failure) => {
                if failure.detail.is_some() {
                    self.detail = copy_detail(&failure.detail);
                }
                self.verification = VerificationState::Failed(failure);
            },
        }
    }

    fn drop_cloud_only(&mut self, record_id: &String)
        ensures
            *final(self) == (CloudBackupState { cloud_only: final(self).cloud_only, ..*old(self) }),
            match old(self).cloud_only {
                CloudOnlyState::Loaded { wallets } => {
                    &&& final(self).cloud_only matches CloudOnlyState::Loaded { wallets: left }
                    &&& left@ == items_without(wallets@, record_id@)
                },
                _ => final(self).cloud_only == old(self).cloud_only,
            },
    {
        let mut left: Option<Vec<CloudBackupWalletItem>> = None;
        if let CloudOnlyState::Loaded { wallets } = &self.cloud_only {
            left = Some(remove_item(wallets, record_id));
        }
        if let Some(wallets) = left {
            self.cloud_only = CloudOnlyState::Loaded { wallets };
        }
    }

    /// Carries out a change.
    pub fn change(&mut self, change: StateChange)
        ensures
            old(self).changed(change, *final(self)),
    {
        match change {
            StateChange::VerificationStarted => {
                self.verification = VerificationState::Verifying;
            },
            StateChange::VerificationFinished(result) => {
                self.finish_verification(result);
            },
            StateChange::RecoveryStarted(action) => {
                self.recovery = RecoveryState::Recovering(action);
            },
            StateChange::RecoveryFinished => {
                self.recovery = RecoveryState::Idle;
            },
            StateChange::RecoveryFailed { action, error } => {
                self.recovery = RecoveryState::Failed { action, error };
            },
            StateChange::PasskeyRepaired => {
                self.recovery = RecoveryState::Idle;
                self.verification = VerificationState::Idle;
            },
            StateChange::SyncStarted => {
                self.sync = SyncState::Syncing;
            },
            StateChange::SyncFinished => {
                self.sync = SyncState::Idle;
            },
            StateChange::SyncFailed(error) => {
                self.sync = SyncState::Failed(error);
            },
            StateChange::CloudOnlyLoading => {
                self.cloud_only = CloudOnlyState::Loading;
            },
            StateChange::CloudOnlyLoaded(wallets) => {
                self.cloud_only = CloudOnlyState::Loaded { wallets };
            },
            StateChange::CloudOnlyOperating { record_id } => {
                self.cloud_only_operation = CloudOnlyOperation::Operating { record_id };
            },
            StateChange::CloudOnlyDone { record_id } => {
                self.cloud_only_operation = CloudOnlyOperation::Idle;
                self.drop_cloud_only(&record_id);
            },
            StateChange::CloudOnlyFailed(error) => {
                self.cloud_only_operation = CloudOnlyOperation::Failed { error };
            },
            StateChange::DetailRefreshed(detail) => {
                self.detail = Some(detail);
            },
            StateChange::Reset => {
                *self = CloudBackupState::default();
            },
        }
    }
}

/// The report of a restore stays until the next run: a status that ends a run keeps it, one that
/// begins a run drops it, and either drops the progress of the run before.
pub proof fn law_report_stays_until_next_run(
    before: CloudBackupState,
    status: CloudBackupStatus,
    after: CloudBackupState,
)
    requires
        before.told(CloudBackupReconcileMessage::StatusChanged(status), after),
    ensures
        after.status == status,
        after.progress is None,
        after.restore_progress is None,
        if status is Enabling || status is Restoring {
            after.restore_report is None
        } else {
            after.restore_report == before.restore_report
        },
{
}

} // verus!
