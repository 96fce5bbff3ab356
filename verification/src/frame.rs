//! One running operation of any kind.

pub mod laws;

use vstd::prelude::*;

use crate::error::CloudBackupError;
use crate::flows::cloud_only::{DeleteCloudWalletFlow, FetchCloudOnlyFlow};
use crate::flows::detail::RefreshDetailFlow;
use crate::flows::enable::EnableFlow;
use crate::flows::entry::WalletEntryFlow;
use crate::flows::handlers::{
    HandleCloudWalletFlow, HandleFetchCloudOnlyFlow, HandleRecoveryFlow, HandleRefreshDetailFlow,
    HandleRepairFlow, HandleSyncFlow, HandleVerificationFlow,
};
use crate::flows::integrity::{DowngradeFlow, IntegrityFlow, PromoteFlow};
use crate::flows::passkey::{AuthenticateFlow, PrfKeyFlow};
use crate::flows::queue::{CleanupFlow, EnqueueFlow, PendingUploadVerifier, RemoveFlow};
use crate::flows::restore::{RestoreAllFlow, RestoreCloudWalletFlow, RestoreWalletFlow};
use crate::flows::uploads::{
    BackupNewWalletFlow, BackupWalletsFlow, PersistEnabledFlow, ReuploadFlow, SyncFlow,
    UploadWalletsFlow,
};
use crate::flows::verification::{DeepVerifyFlow, FinalizeRepairFlow, RepairPasskeyFlow};
use crate::protocol::{
    Operation, Outcome, PasskeyAuthOutcome, Progress, Reply, RestoredWallet, UnpersistedPrfKey,
};
use crate::state::{CloudBackupDetailResult, CloudBackupWalletItem, DeepVerificationResult};
use crate::wallet::WalletEntry;

verus! {

/// A running operation of any kind, which waits for one reply.
pub enum Frame {
    BuildWalletEntry(WalletEntryFlow),
    UploadWallets(UploadWalletsFlow),
    BackupWallets(BackupWalletsFlow),
    SyncUnsyncedWallets(SyncFlow),
    ReuploadAllWallets(ReuploadFlow),
    PersistEnabled(PersistEnabledFlow),
    BackupNewWallet(BackupNewWalletFlow),
    EnqueueUploads(EnqueueFlow),
    RemoveUploads(RemoveFlow),
    CleanupListed(CleanupFlow),
    VerifyPendingUploads(PendingUploadVerifier),
    PrfKey(PrfKeyFlow),
    Authenticate(AuthenticateFlow),
    Enable(EnableFlow),
    RestoreWallet(RestoreWalletFlow),
    RestoreCloudWallet(RestoreCloudWalletFlow),
    RestoreAll(RestoreAllFlow),
    FetchCloudOnly(FetchCloudOnlyFlow),
    DeleteCloudWallet(DeleteCloudWalletFlow),
    RefreshDetail(RefreshDetailFlow),
    PromoteVerified(PromoteFlow),
    PersistDowngrade(DowngradeFlow),
    VerifyIntegrity(IntegrityFlow),
    DeepVerify(DeepVerifyFlow),
    RepairPasskey(RepairPasskeyFlow),
    FinalizeRepair(FinalizeRepairFlow),
    HandleVerification(HandleVerificationFlow),
    HandleRecovery(HandleRecoveryFlow),
    HandleRepair(HandleRepairFlow),
    HandleSync(HandleSyncFlow),
    HandleFetchCloudOnly(HandleFetchCloudOnlyFlow),
    HandleCloudWallet(HandleCloudWalletFlow),
    HandleRefreshDetail(HandleRefreshDetailFlow),
}

/// A kind of operation: where its value stands among all running operations, and where its result
/// stands among all results.
pub trait Flow: Sized {
    type Value;

    /// The operation among all running operations.
    spec fn framed(self) -> Frame;

    /// The result among all results.
    spec fn returned(value: Self::Value) -> Outcome;

    /// The operation among all running operations.
    fn into_frame(self) -> (frame: Frame)
        ensures
            frame == self.framed(),
    ;

    /// The result among all results.
    fn into_outcome(value: Self::Value) -> (outcome: Outcome)
        ensures
            outcome == Self::returned(value),
    ;
}

/// One step of an operation among all running operations.
pub open spec fn lifted<F: Flow>(progress: Progress<F, F::Value>) -> Progress<Frame, Outcome> {
    match progress {
        Progress::Ask { flow, effects, request } => Progress::Ask {
            flow: flow.framed(),
            effects,
            request,
        },
        Progress::Done { effects, value } => Progress::Done { effects, value: F::returned(value) },
        Progress::Refused { flow } => Progress::Refused { flow: flow.framed() },
    }
}

fn lift<F: Flow>(progress: Progress<F, F::Value>) -> (step: Progress<Frame, Outcome>)
    ensures
        step == lifted(progress),
{
    match progress {
        Progress::Ask { flow, effects, request } => Progress::Ask {
            flow: flow.into_frame(),
            effects,
            request,
        },
        Progress::Done { effects, value } => Progress::Done {
            effects,
            value: F::into_outcome(value),
        },
        Progress::Refused { flow } => Progress::Refused { flow: flow.into_frame() },
    }
}

impl Flow for WalletEntryFlow {
    type Value = Result<WalletEntry, CloudBackupError>;

    open spec fn framed(self) -> Frame {
        Frame::BuildWalletEntry(self)
    }

    open spec fn returned(value: Self::Value) -> Outcome {
        Outcome::Entry(value)
    }

    fn into_frame(self) -> Frame {
        Frame::BuildWalletEntry(self)
    }

    fn into_outcome(value: Self::Value) -> Outcome {
        Outcome::Entry(value)
    }
}

impl Flow for UploadWalletsFlow {
    type Value = Result<Vec<String>, CloudBackupError>;

    open spec fn framed(self) -> Frame {
        Frame::UploadWallets(self)
    }

    open spec fn returned(value: Self::Value) -> Outcome {
        Outcome::Uploaded(value)
    }

    fn into_frame(self) -> Frame {
        Frame::UploadWallets(self)
    }

    fn into_outcome(value: Self::Value) -> Outcome {
        Outcome::Uploaded(value)
    }
}

impl Flow for BackupWalletsFlow {
    type Value = Result<(), CloudBackupError>;

    open spec fn framed(self) -> Frame {
        Frame::BackupWallets(self)
    }

    open spec fn returned(value: Self::Value) -> Outcome {
        Outcome::Finished(value)
    }

    fn into_frame(self) -> Frame {
        Frame::BackupWallets(self)
    }

    fn into_outcome(value: Self::Value) -> Outcome {
        Outcome::Finished(value)
    }
}

impl Flow for SyncFlow {
    type Value = Result<(), CloudBackupError>;

    open spec fn framed(self) -> Frame {
        Frame::SyncUnsyncedWallets(self)
    }

    open spec fn returned(value: Self::Value) -> Outcome {
        Outcome::Finished(value)
    }

    fn into_frame(self) -> Frame {
        Frame::SyncUnsyncedWallets(self)
    }

    fn into_outcome(value: Self::Value) -> Outcome {
        Outcome::Finished(value)
    }
}

impl Flow for ReuploadFlow {
    type Value = Result<(), CloudBackupError>;

    open spec fn framed(self) -> Frame {
        Frame::ReuploadAllWallets(self)
    }

    open spec fn returned(value: Self::Value) -> Outcome {
        Outcome::Finished(value)
    }

    fn into_frame(self) -> Frame {
        Frame::ReuploadAllWallets(self)
    }

    fn into_outcome(value: Self::Value) -> Outcome {
        Outcome::Finished(value)
    }
}

impl Flow for PersistEnabledFlow {
    type Value = Result<(), CloudBackupError>;

    open spec fn framed(self) -> Frame {
        Frame::PersistEnabled(self)
    }

    open spec fn returned(value: Self::Value) -> Outcome {
        Outcome::Finished(value)
    }

    fn into_frame(self) -> Frame {
        Frame::PersistEnabled(self)
    }

    fn into_outcome(value: Self::Value) -> Outcome {
        Outcome::Finished(value)
    }
}

impl Flow for BackupNewWalletFlow {
    type Value = ();

    open spec fn framed(self) -> Frame {
        Frame::BackupNewWallet(self)
    }

    open spec fn returned(value: Self::Value) -> Outcome {
        Outcome::Nothing
    }

    fn into_frame(self) -> Frame {
        Frame::BackupNewWallet(self)
    }

    fn into_outcome(_value: Self::Value) -> Outcome {
        Outcome::Nothing
    }
}

impl Flow for EnqueueFlow {
    type Value = Result<(), CloudBackupError>;

    open spec fn framed(self) -> Frame {
        Frame::EnqueueUploads(self)
    }

    open spec fn returned(value: Self::Value) -> Outcome {
        Outcome::Finished(value)
    }

    fn into_frame(self) -> Frame {
        Frame::EnqueueUploads(self)
    }

    fn into_outcome(value: Self::Value) -> Outcome {
        Outcome::Finished(value)
    }
}

impl Flow for RemoveFlow {
    type Value = Result<(), CloudBackupError>;

    open spec fn framed(self) -> Frame {
        Frame::RemoveUploads(self)
    }

    open spec fn returned(value: Self::Value) -> Outcome {
        Outcome::Finished(value)
    }

    fn into_frame(self) -> Frame {
        Frame::RemoveUploads(self)
    }

    fn into_outcome(value: Self::Value) -> Outcome {
        Outcome::Finished(value)
    }
}

impl Flow for CleanupFlow {
    type Value = ();

    open spec fn framed(self) -> Frame {
        Frame::CleanupListed(self)
    }

    open spec fn returned(value: Self::Value) -> Outcome {
        Outcome::Nothing
    }

    fn into_frame(self) -> Frame {
        Frame::CleanupListed(self)
    }

    fn into_outcome(_value: Self::Value) -> Outcome {
        Outcome::Nothing
    }
}

impl Flow for PendingUploadVerifier {
    type Value = bool;

    open spec fn framed(self) -> Frame {
        Frame::VerifyPendingUploads(self)
    }

    open spec fn returned(value: Self::Value) -> Outcome {
        Outcome::StillPending(value)
    }

    fn into_frame(self) -> Frame {
        Frame::VerifyPendingUploads(self)
    }

    fn into_outcome(value: Self::Value) -> Outcome {
        Outcome::StillPending(value)
    }
}

impl Flow for PrfKeyFlow {
    type Value = Result<UnpersistedPrfKey, CloudBackupError>;

    open spec fn framed(self) -> Frame {
        Frame::PrfKey(self)
    }

    open spec fn returned(value: Self::Value) -> Outcome {
        Outcome::PrfKey(value)
    }

    fn into_frame(self) -> Frame {
        Frame::PrfKey(self)
    }

    fn into_outcome(value: Self::Value) -> Outcome {
        Outcome::PrfKey(value)
    }
}

impl Flow for AuthenticateFlow {
    type Value = Result<PasskeyAuthOutcome, CloudBackupError>;

    open spec fn framed(self) -> Frame {
        Frame::Authenticate(self)
    }

    open spec fn returned(value: Self::Value) -> Outcome {
        Outcome::Authenticated(value)
    }

    fn into_frame(self) -> Frame {
        Frame::Authenticate(self)
    }

    fn into_outcome(value: Self::Value) -> Outcome {
        Outcome::Authenticated(value)
    }
}

impl Flow for EnableFlow {
    type Value = Result<(), CloudBackupError>;

    open spec fn framed(self) -> Frame {
        Frame::Enable(self)
    }

    open spec fn returned(value: Self::Value) -> Outcome {
        Outcome::Finished(value)
    }

    fn into_frame(self) -> Frame {
        Frame::Enable(self)
    }

    fn into_outcome(value: Self::Value) -> Outcome {
        Outcome::Finished(value)
    }
}

impl Flow for RestoreWalletFlow {
    type Value = RestoredWallet;

    open spec fn framed(self) -> Frame {
        Frame::RestoreWallet(self)
    }

    open spec fn returned(value: Self::Value) -> Outcome {
        Outcome::WalletRestored(value)
    }

    fn into_frame(self) -> Frame {
        Frame::RestoreWallet(self)
    }

    fn into_outcome(value: Self::Value) -> Outcome {
        Outcome::WalletRestored(value)
    }
}

impl Flow for RestoreCloudWalletFlow {
    type Value = Result<(), CloudBackupError>;

    open spec fn framed(self) -> Frame {
        Frame::RestoreCloudWallet(self)
    }

    open spec fn returned(value: Self::Value) -> Outcome {
        Outcome::Finished(value)
    }

    fn into_frame(self) -> Frame {
        Frame::RestoreCloudWallet(self)
    }

    fn into_outcome(value: Self::Value) -> Outcome {
        Outcome::Finished(value)
    }
}

impl Flow for RestoreAllFlow {
    type Value = Result<(), CloudBackupError>;

    open spec fn framed(self) -> Frame {
        Frame::RestoreAll(self)
    }

    open spec fn returned(value: Self::Value) -> Outcome {
        Outcome::Finished(value)
    }

    fn into_frame(self) -> Frame {
        Frame::RestoreAll(self)
    }

    fn into_outcome(value: Self::Value) -> Outcome {
        Outcome::Finished(value)
    }
}

impl Flow for FetchCloudOnlyFlow {
    type Value = Result<Vec<CloudBackupWalletItem>, CloudBackupError>;

    open spec fn framed(self) -> Frame {
        Frame::FetchCloudOnly(self)
    }

    open spec fn returned(value: Self::Value) -> Outcome {
        Outcome::CloudOnly(value)
    }

    fn into_frame(self) -> Frame {
        Frame::FetchCloudOnly(self)
    }

    fn into_outcome(value: Self::Value) -> Outcome {
        Outcome::CloudOnly(value)
    }
}

impl Flow for DeleteCloudWalletFlow {
    type Value = Result<(), CloudBackupError>;

    open spec fn framed(self) -> Frame {
        Frame::DeleteCloudWallet(self)
    }

    open spec fn returned(value: Self::Value) -> Outcome {
        Outcome::Finished(value)
    }

    fn into_frame(self) -> Frame {
        Frame::DeleteCloudWallet(self)
    }

    fn into_outcome(value: Self::Value) -> Outcome {
        Outcome::Finished(value)
    }
}

impl Flow for RefreshDetailFlow {
    type Value = Option<CloudBackupDetailResult>;

    open spec fn framed(self) -> Frame {
        Frame::RefreshDetail(self)
    }

    open spec fn returned(value: Self::Value) -> Outcome {
        Outcome::Detail(value)
    }

    fn into_frame(self) -> Frame {
        Frame::RefreshDetail(self)
    }

    fn into_outcome(value: Self::Value) -> Outcome {
        Outcome::Detail(value)
    }
}

impl Flow for PromoteFlow {
    type Value = ();

    open spec fn framed(self) -> Frame {
        Frame::PromoteVerified(self)
    }

    open spec fn returned(value: Self::Value) -> Outcome {
        Outcome::Nothing
    }

    fn into_frame(self) -> Frame {
        Frame::PromoteVerified(self)
    }

    fn into_outcome(_value: Self::Value) -> Outcome {
        Outcome::Nothing
    }
}

impl Flow for DowngradeFlow {
    type Value = ();

    open spec fn framed(self) -> Frame {
        Frame::PersistDowngrade(self)
    }

    open spec fn returned(value: Self::Value) -> Outcome {
        Outcome::Nothing
    }

    fn into_frame(self) -> Frame {
        Frame::PersistDowngrade(self)
    }

    fn into_outcome(_value: Self::Value) -> Outcome {
        Outcome::Nothing
    }
}

impl Flow for IntegrityFlow {
    type Value = Option<String>;

    open spec fn framed(self) -> Frame {
        Frame::VerifyIntegrity(self)
    }

    open spec fn returned(value: Self::Value) -> Outcome {
        Outcome::Integrity(value)
    }

    fn into_frame(self) -> Frame {
        Frame::VerifyIntegrity(self)
    }

    fn into_outcome(value: Self::Value) -> Outcome {
        Outcome::Integrity(value)
    }
}

impl Flow for DeepVerifyFlow {
    type Value = DeepVerificationResult;

    open spec fn framed(self) -> Frame {
        Frame::DeepVerify(self)
    }

    open spec fn returned(value: Self::Value) -> Outcome {
        Outcome::Verification(value)
    }

    fn into_frame(self) -> Frame {
        Frame::DeepVerify(self)
    }

    fn into_outcome(value: Self::Value) -> Outcome {
        Outcome::Verification(value)
    }
}

impl Flow for RepairPasskeyFlow {
    type Value = Result<(), CloudBackupError>;

    open spec fn framed(self) -> Frame {
        Frame::RepairPasskey(self)
    }

    open spec fn returned(value: Self::Value) -> Outcome {
        Outcome::Finished(value)
    }

    fn into_frame(self) -> Frame {
        Frame::RepairPasskey(self)
    }

    fn into_outcome(value: Self::Value) -> Outcome {
        Outcome::Finished(value)
    }
}

impl Flow for FinalizeRepairFlow {
    type Value = Result<(), CloudBackupError>;

    open spec fn framed(self) -> Frame {
        Frame::FinalizeRepair(self)
    }

    open spec fn returned(value: Self::Value) -> Outcome {
        Outcome::Finished(value)
    }

    fn into_frame(self) -> Frame {
        Frame::FinalizeRepair(self)
    }

    fn into_outcome(value: Self::Value) -> Outcome {
        Outcome::Finished(value)
    }
}

impl Flow for HandleVerificationFlow {
    type Value = ();

    open spec fn framed(self) -> Frame {
        Frame::HandleVerification(self)
    }

    open spec fn returned(value: Self::Value) -> Outcome {
        Outcome::Nothing
    }

    fn into_frame(self) -> Frame {
        Frame::HandleVerification(self)
    }

    fn into_outcome(_value: Self::Value) -> Outcome {
        Outcome::Nothing
    }
}

impl Flow for HandleRecoveryFlow {
    type Value = ();

    open spec fn framed(self) -> Frame {
        Frame::HandleRecovery(self)
    }

    open spec fn returned(value: Self::Value) -> Outcome {
        Outcome::Nothing
    }

    fn into_frame(self) -> Frame {
        Frame::HandleRecovery(self)
    }

    fn into_outcome(_value: Self::Value) -> Outcome {
        Outcome::Nothing
    }
}

impl Flow for HandleRepairFlow {
    type Value = ();

    open spec fn framed(self) -> Frame {
        Frame::HandleRepair(self)
    }

    open spec fn returned(value: Self::Value) -> Outcome {
        Outcome::Nothing
    }

    fn into_frame(self) -> Frame {
        Frame::HandleRepair(self)
    }

    fn into_outcome(_value: Self::Value) -> Outcome {
        Outcome::Nothing
    }
}

impl Flow for HandleSyncFlow {
    type Value = ();

    open spec fn framed(self) -> Frame {
        Frame::HandleSync(self)
    }

    open spec fn returned(value: Self::Value) -> Outcome {
        Outcome::Nothing
    }

    fn into_frame(self) -> Frame {
        Frame::HandleSync(self)
    }

    fn into_outcome(_value: Self::Value) -> Outcome {
        Outcome::Nothing
    }
}

impl Flow for HandleFetchCloudOnlyFlow {
    type Value = ();

    open spec fn framed(self) -> Frame {
        Frame::HandleFetchCloudOnly(self)
    }

    open spec fn returned(value: Self::Value) -> Outcome {
        Outcome::Nothing
    }

    fn into_frame(self) -> Frame {
        Frame::HandleFetchCloudOnly(self)
    }

    fn into_outcome(_value: Self::Value) -> Outcome {
        Outcome::Nothing
    }
}

impl Flow for HandleCloudWalletFlow {
    type Value = ();

    open spec fn framed(self) -> Frame {
        Frame::HandleCloudWallet(self)
    }

    open spec fn returned(value: Self::Value) -> Outcome {
        Outcome::Nothing
    }

    fn into_frame(self) -> Frame {
        Frame::HandleCloudWallet(self)
    }

    fn into_outcome(_value: Self::Value) -> Outcome {
        Outcome::Nothing
    }
}

impl Flow for HandleRefreshDetailFlow {
    type Value = ();

    open spec fn framed(self) -> Frame {
        Frame::HandleRefreshDetail(self)
    }

    open spec fn returned(value: Self::Value) -> Outcome {
        Outcome::Nothing
    }

    fn into_frame(self) -> Frame {
        Frame::HandleRefreshDetail(self)
    }

    fn into_outcome(_value: Self::Value) -> Outcome {
        Outcome::Nothing
    }
}

impl Frame {
    /// The frame is one that an operation can get to.
    pub open spec fn wf(self) -> bool {
        match self {
            Frame::UploadWallets(flow) => flow.wf(),
            Frame::VerifyPendingUploads(flow) => flow.wf(),
            Frame::RestoreAll(flow) => flow.wf(),
            Frame::FetchCloudOnly(flow) => flow.wf(),
            _ => true,
        }
    }

    /// The first step of an operation.
    pub open spec fn began(operation: Operation, progress: Progress<Frame, Outcome>) -> bool {
        match operation {
            Operation::BuildWalletEntry { wallet, mode } => exists|inner| #[trigger]
                WalletEntryFlow::began(wallet, mode, inner) && progress == lifted(inner),
            Operation::UploadWallets { namespace, key, wallets } => exists|inner| #[trigger]
                UploadWalletsFlow::began(namespace, key, wallets, inner)
                    && progress == lifted(inner),
            Operation::BackupWallets { wallets } => exists|inner| #[trigger]
                BackupWalletsFlow::began(wallets, inner) && progress == lifted(inner),
            Operation::SyncUnsyncedWallets => exists|inner| #[trigger]
                SyncFlow::began(inner) && progress == lifted(inner),
            Operation::ReuploadAllWallets => exists|inner| #[trigger]
                ReuploadFlow::began(inner) && progress == lifted(inner),
            Operation::PersistEnabled { wallet_count } => exists|inner| #[trigger]
                PersistEnabledFlow::began(wallet_count, inner) && progress == lifted(inner),
            Operation::BackupNewWallet { wallet } => exists|inner| #[trigger]
                BackupNewWalletFlow::began(wallet, inner) && progress == lifted(inner),
            Operation::EnqueueUploads { namespace, record_ids } => exists|inner| #[trigger]
                EnqueueFlow::began(namespace, record_ids, inner) && progress == lifted(inner),
            Operation::RemoveUploads { namespace, record_ids } => exists|inner| #[trigger]
                RemoveFlow::began(namespace, record_ids, inner) && progress == lifted(inner),
            Operation::CleanupListed { listed } => exists|inner| #[trigger]
                CleanupFlow::began(listed, inner) && progress == lifted(inner),
            Operation::VerifyPendingUploads => exists|inner| #[trigger]
                PendingUploadVerifier::began(inner) && progress == lifted(inner),
            Operation::ObtainPrfKey => exists|inner| #[trigger]
                PrfKeyFlow::began(true, inner) && progress == lifted(inner),
            Operation::CreatePrfKey => exists|inner| #[trigger]
                PrfKeyFlow::began(false, inner) && progress == lifted(inner),
            Operation::Authenticate { prf_salt } => exists|inner| #[trigger]
                AuthenticateFlow::began(prf_salt, inner) && progress == lifted(inner),
            Operation::Enable => exists|inner| #[trigger]
                EnableFlow::began(inner) && progress == lifted(inner),
            Operation::RestoreWallet { namespace, record_id, key, known } => exists|inner|
                #[trigger] RestoreWalletFlow::began(namespace, record_id, key, known, inner)
                    && progress == lifted(inner),
            Operation::RestoreCloudWallet { record_id } => exists|inner| #[trigger]
                RestoreCloudWalletFlow::began(record_id, inner) && progress == lifted(inner),
            Operation::RestoreAll => exists|inner| #[trigger]
                RestoreAllFlow::began(inner) && progress == lifted(inner),
            Operation::FetchCloudOnly => exists|inner| #[trigger]
                FetchCloudOnlyFlow::began(inner) && progress == lifted(inner),
            Operation::DeleteCloudWallet { record_id } => exists|inner| #[trigger]
                DeleteCloudWalletFlow::began(record_id, inner) && progress == lifted(inner),
            Operation::RefreshDetail => exists|inner| #[trigger]
                RefreshDetailFlow::began(inner) && progress == lifted(inner),
            Operation::PromoteVerified => exists|inner| #[trigger]
                PromoteFlow::began(inner) && progress == lifted(inner),
            Operation::PersistDowngrade { downgrade } => exists|inner| #[trigger]
                DowngradeFlow::began(downgrade, inner) && progress == lifted(inner),
            Operation::VerifyIntegrity => exists|inner| #[trigger]
                IntegrityFlow::began(inner) && progress == lifted(inner),
            Operation::DeepVerify { force_discoverable } => exists|inner| #[trigger]
                DeepVerifyFlow::began(force_discoverable, inner) && progress == lifted(inner),
            Operation::RepairPasskey { strategy } => exists|inner| #[trigger]
                RepairPasskeyFlow::began(strategy, inner) && progress == lifted(inner),
            Operation::FinalizeRepair => exists|inner| #[trigger]
                FinalizeRepairFlow::began(inner) && progress == lifted(inner),
            Operation::HandleVerification { force_discoverable } => exists|inner| #[trigger]
                HandleVerificationFlow::began(force_discoverable, inner)
                    && progress == lifted(inner),
            Operation::HandleRecovery { action } => exists|inner| #[trigger]
                HandleRecoveryFlow::began(action, inner) && progress == lifted(inner),
            Operation::HandleRepair { no_discovery } => exists|inner| #[trigger]
                HandleRepairFlow::began(no_discovery, inner) && progress == lifted(inner),
            Operation::HandleSync => exists|inner| #[trigger]
                HandleSyncFlow::began(inner) && progress == lifted(inner),
            Operation::HandleFetchCloudOnly => exists|inner| #[trigger]
                HandleFetchCloudOnlyFlow::began(inner) && progress == lifted(inner),
            Operation::HandleRestoreCloudWallet { record_id } => exists|inner| #[trigger]
                HandleCloudWalletFlow::began_restore(record_id, inner) && progress == lifted(inner),
            Operation::HandleDeleteCloudWallet { record_id } => exists|inner| #[trigger]
                HandleCloudWalletFlow::began_delete(record_id, inner) && progress == lifted(inner),
            Operation::HandleRefreshDetail => exists|inner| #[trigger]
                HandleRefreshDetailFlow::began(inner) && progress == lifted(inner),
        }
    }

    /// What follows a reply.
    pub open spec fn next(self, reply: Reply, progress: Progress<Frame, Outcome>) -> bool {
        match self {
            Frame::BuildWalletEntry(flow) => exists|inner| #[trigger]
                flow.next(reply, inner) && progress == lifted(inner),
            Frame::UploadWallets(flow) => exists|inner| #[trigger]
                flow.next(reply, inner) && progress == lifted(inner),
            Frame::BackupWallets(flow) => exists|inner| #[trigger]
                flow.next(reply, inner) && progress == lifted(inner),
            Frame::SyncUnsyncedWallets(flow) => exists|inner| #[trigger]
                flow.next(reply, inner) && progress == lifted(inner),
            Frame::ReuploadAllWallets(flow) => exists|inner| #[trigger]
                flow.next(reply, inner) && progress == lifted(inner),
            Frame::PersistEnabled(flow) => exists|inner| #[trigger]
                flow.next(reply, inner) && progress == lifted(inner),
            Frame::BackupNewWallet(flow) => exists|inner| #[trigger]
                flow.next(reply, inner) && progress == lifted(inner),
            Frame::EnqueueUploads(flow) => exists|inner| #[trigger]
                flow.next(reply, inner) && progress == lifted(inner),
            Frame::RemoveUploads(flow) => exists|inner| #[trigger]
                flow.next(reply, inner) && progress == lifted(inner),
            Frame::CleanupListed(flow) => exists|inner| #[trigger]
                flow.next(reply, inner) && progress == lifted(inner),
            Frame::VerifyPendingUploads(flow) => exists|inner| #[trigger]
                flow.next(reply, inner) && progress == lifted(inner),
            Frame::PrfKey(flow) => exists|inner| #[trigger]
                flow.next(reply, inner) && progress == lifted(inner),
            Frame::Authenticate(flow) => exists|inner| #[trigger]
                flow.next(reply, inner) && progress == lifted(inner),
            Frame::Enable(flow) => exists|inner| #[trigger]
                flow.next(reply, inner) && progress == lifted(inner),
            Frame::RestoreWallet(flow) => exists|inner| #[trigger]
                flow.next(reply, inner) && progress == lifted(inner),
            Frame::RestoreCloudWallet(flow) => exists|inner| #[trigger]
                flow.next(reply, inner) && progress == lifted(inner),
            Frame::RestoreAll(flow) => exists|inner| #[trigger]
                flow.next(reply, inner) && progress == lifted(inner),
            Frame::FetchCloudOnly(flow) => exists|inner| #[trigger]
                flow.next(reply, inner) && progress == lifted(inner),
            Frame::DeleteCloudWallet(flow) => exists|inner| #[trigger]
                flow.next(reply, inner) && progress == lifted(inner),
            Frame::RefreshDetail(flow) => exists|inner| #[trigger]
                flow.next(reply, inner) && progress == lifted(inner),
            Frame::PromoteVerified(flow) => exists|inner| #[trigger]
                flow.next(reply, inner) && progress == lifted(inner),
            Frame::PersistDowngrade(flow) => exists|inner| #[trigger]
                flow.next(reply, inner) && progress == lifted(inner),
            Frame::VerifyIntegrity(flow) => exists|inner| #[trigger]
                flow.next(reply, inner) && progress == lifted(inner),
            Frame::DeepVerify(flow) => exists|inner| #[trigger]
                flow.next(reply, inner) && progress == lifted(inner),
            Frame::RepairPasskey(flow) => exists|inner| #[trigger]
                flow.next(reply, inner) && progress == lifted(inner),
            Frame::FinalizeRepair(flow) => exists|inner| #[trigger]
                flow.next(reply, inner) && progress == lifted(inner),
            Frame::HandleVerification(flow) => exists|inner| #[trigger]
                flow.next(reply, inner) && progress == lifted(inner),
            Frame::HandleRecovery(flow) => exists|inner| #[trigger]
                flow.next(reply, inner) && progress == lifted(inner),
            Frame::HandleRepair(flow) => exists|inner| #[trigger]
                flow.next(reply, inner) && progress == lifted(inner),
            Frame::HandleSync(flow) => exists|inner| #[trigger]
                flow.next(reply, inner) && progress == lifted(inner),
            Frame::HandleFetchCloudOnly(flow) => exists|inner| #[trigger]
                flow.next(reply, inner) && progress == lifted(inner),
            Frame::HandleCloudWallet(flow) => exists|inner| #[trigger]
                flow.next(reply, inner) && progress == lifted(inner),
            Frame::HandleRefreshDetail(flow) => exists|inner| #[trigger]
                flow.next(reply, inner) && progress == lifted(inner),
        }
    }

    /// Starts an operation.
    pub fn begin(operation: Operation) -> (progress: Progress<Frame, Outcome>)
        ensures
            Self::began(operation, progress),
            progress matches Progress::Ask { flow, .. } ==> flow.wf(),
            !(progress is Refused),
    {
        match operation {
            Operation::BuildWalletEntry { wallet, mode } => lift(
                WalletEntryFlow::start(wallet, mode),
            ),
            Operation::UploadWallets { namespace, key, wallets } => lift(
                UploadWalletsFlow::start(namespace, key, wallets),
            ),
            Operation::BackupWallets { wallets } => lift(BackupWalletsFlow::start(wallets)),
            Operation::SyncUnsyncedWallets => lift(SyncFlow::start()),
            Operation::ReuploadAllWallets => lift(ReuploadFlow::start()),
            Operation::PersistEnabled { wallet_count } => lift(
                PersistEnabledFlow::start(wallet_count),
            ),
            Operation::BackupNewWallet { wallet } => lift(BackupNewWalletFlow::start(wallet)),
            Operation::EnqueueUploads { namespace, record_ids } => lift(
                EnqueueFlow::start(namespace, record_ids),
            ),
            Operation::RemoveUploads { namespace, record_ids } => lift(
                RemoveFlow::start(namespace, record_ids),
            ),
            Operation::CleanupListed { listed } => lift(CleanupFlow::start(listed)),
            Operation::VerifyPendingUploads => lift(PendingUploadVerifier::start()),
            Operation::ObtainPrfKey => lift(PrfKeyFlow::start(true)),
            Operation::CreatePrfKey => lift(PrfKeyFlow::start(false)),
            Operation::Authenticate { prf_salt } => lift(AuthenticateFlow::start(prf_salt)),
            Operation::Enable => lift(EnableFlow::start()),
            Operation::RestoreWallet { namespace, record_id, key, known } => lift(
                RestoreWalletFlow::start(namespace, record_id, key, known),
            ),
            Operation::RestoreCloudWallet { record_id } => lift(
                RestoreCloudWalletFlow::start(record_id),
            ),
            Operation::RestoreAll => lift(RestoreAllFlow::start()),
            Operation::FetchCloudOnly => lift(FetchCloudOnlyFlow::start()),
            Operation::DeleteCloudWallet { record_id } => lift(
                DeleteCloudWalletFlow::start(record_id),
            ),
            Operation::RefreshDetail => lift(RefreshDetailFlow::start()),
            Operation::PromoteVerified => lift(PromoteFlow::start()),
            Operation::PersistDowngrade { downgrade } => lift(DowngradeFlow::start(downgrade)),
            Operation::VerifyIntegrity => lift(IntegrityFlow::start()),
            Operation::DeepVerify { force_discoverable } => lift(
                DeepVerifyFlow::start(force_discoverable),
            ),
            Operation::RepairPasskey { strategy } => lift(RepairPasskeyFlow::start(strategy)),
            Operation::FinalizeRepair => lift(FinalizeRepairFlow::start()),
            Operation::HandleVerification { force_discoverable } => lift(
                HandleVerificationFlow::start(force_discoverable),
            ),
            Operation::HandleRecovery { action } => lift(HandleRecoveryFlow::start(action)),
            Operation::HandleRepair { no_discovery } => lift(HandleRepairFlow::start(no_discovery)),
            Operation::HandleSync => lift(HandleSyncFlow::start()),
            Operation::HandleFetchCloudOnly => lift(HandleFetchCloudOnlyFlow::start()),
            Operation::HandleRestoreCloudWallet { record_id } => lift(
                HandleCloudWalletFlow::start_restore(record_id),
            ),
            Operation::HandleDeleteCloudWallet { record_id } => lift(
                HandleCloudWalletFlow::start_delete(record_id),
            ),
            Operation::HandleRefreshDetail => lift(HandleRefreshDetailFlow::start()),
        }
    }

    /// Goes on with a reply.
    pub fn resume(self, reply: Reply) -> (progress: Progress<Frame, Outcome>)
        requires
            self.wf(),
        ensures
            self.next(reply, progress),
            progress matches Progress::Ask { flow, .. } ==> flow.wf(),
            progress matches Progress::Refused { flow } ==> flow.wf(),
    {
        match self {
            Frame::BuildWalletEntry(flow) => lift(flow.step(reply)),
            Frame::UploadWallets(flow) => lift(flow.step(reply)),
            Frame::BackupWallets(flow) => lift(flow.step(reply)),
            Frame::SyncUnsyncedWallets(flow) => lift(flow.step(reply)),
            Frame::ReuploadAllWallets(flow) => lift(flow.step(reply)),
            Frame::PersistEnabled(flow) => lift(flow.step(reply)),
            Frame::BackupNewWallet(flow) => lift(flow.step(reply)),
            Frame::EnqueueUploads(flow) => lift(flow.step(reply)),
            Frame::RemoveUploads(flow) => lift(flow.step(reply)),
            Frame::CleanupListed(flow) => lift(flow.step(reply)),
            Frame::VerifyPendingUploads(flow) => lift(flow.step(reply)),
            Frame::PrfKey(flow) => lift(flow.step(reply)),
            Frame::Authenticate(flow) => lift(flow.step(reply)),
            Frame::Enable(flow) => lift(flow.step(reply)),
            Frame::RestoreWallet(flow) => lift(flow.step(reply)),
            Frame::RestoreCloudWallet(flow) => lift(flow.step(reply)),
            Frame::RestoreAll(flow) => lift(flow.step(reply)),
            Frame::FetchCloudOnly(flow) => lift(flow.step(reply)),
            Frame::DeleteCloudWallet(flow) => lift(flow.step(reply)),
            Frame::RefreshDetail(flow) => lift(flow.step(reply)),
            Frame::PromoteVerified(flow) => lift(flow.step(reply)),
            Frame::PersistDowngrade(flow) => lift(flow.step(reply)),
            Frame::VerifyIntegrity(flow) => lift(flow.step(reply)),
            Frame::DeepVerify(flow) => lift(flow.step(reply)),
            Frame::RepairPasskey(flow) => lift(flow.step(reply)),
            Frame::FinalizeRepair(flow) => lift(flow.step(reply)),
            Frame::HandleVerification(flow) => lift(flow.step(reply)),
            Frame::HandleRecovery(flow) => lift(flow.step(reply)),
            Frame::HandleRepair(flow) => lift(flow.step(reply)),
            Frame::HandleSync(flow) => lift(flow.step(reply)),
            Frame::HandleFetchCloudOnly(flow) => lift(flow.step(reply)),
            Frame::HandleCloudWallet(flow) => lift(flow.step(reply)),
            Frame::HandleRefreshDetail(flow) => lift(flow.step(reply)),
        }
    }
}

} // verus!
