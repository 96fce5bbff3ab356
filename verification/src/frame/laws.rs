//! What a running operation keeps of what it was started with, and of its own steps.

use vstd::prelude::*;

use crate::error::CloudBackupError;
use crate::flows::cloud_only::{DeleteCloudWalletFlow, FetchCloudOnlyFlow};
use crate::flows::detail::RefreshDetailFlow;
use crate::flows::enable::EnableFlow;
use crate::flows::entry::WalletEntryFlow;
use crate::flows::handlers::HandleCloudWalletFlow;
use crate::flows::integrity::{DowngradeFlow, IntegrityFlow};
use crate::flows::passkey::{AuthenticateFlow, PrfKeyFlow};
use crate::flows::queue::{CleanupFlow, EnqueueFlow, PendingUploadVerifier, RemoveFlow};
use crate::flows::restore::{
    RestoreAllFlow, RestoreCloudWalletFlow, RestoreWalletFlow, RestoreWalletPhase,
};
use crate::flows::uploads::{
    BackupWalletsFlow, PersistEnabledFlow, ReuploadFlow, SyncFlow, UploadWalletsFlow,
};
use crate::flows::verification::{DeepVerifyFlow, FinalizeRepairFlow, RepairPasskeyFlow};
use crate::frame::{lifted, Flow, Frame};
use crate::protocol::{
    Effect, KeychainKey, Operation, Outcome, PasskeyAuthOutcome, Progress, Request, RestoredWallet,
    UnpersistedPrfKey, WrapperRepairStrategy,
};
use crate::state::{
    CloudBackupDetailResult, CloudBackupReconcileMessage, CloudBackupStatus, CloudBackupWalletItem,
    DeepVerificationResult, RecoveryAction, StateChange,
};
use crate::wallet::{WalletEntry, WalletType};

verus! {

/// A step of an operation stays the same step among all running operations: the same effects in the
/// same order, the same request, and an end where it ends.
pub proof fn law_running_operation_takes_its_own_steps<F: Flow>(step: Progress<F, F::Value>)
    ensures
        match (step, lifted(step)) {
            (
                Progress::Ask { effects, request, .. },
                Progress::Ask { effects: done, request: made, .. },
            ) => done == effects && made == request,
            (Progress::Done { effects, .. }, Progress::Done { effects: done, .. }) => done
                == effects,
            (Progress::Refused { .. }, Progress::Refused { .. }) => true,
            _ => false,
        },
{
}

/// What an operation gives back reaches the caller as it is, whether it succeeded or failed.
pub proof fn law_outcome_is_what_the_operation_gave(
    result: Result<(), CloudBackupError>,
    entry: Result<WalletEntry, CloudBackupError>,
    uploaded: Result<Vec<String>, CloudBackupError>,
    passkey: Result<UnpersistedPrfKey, CloudBackupError>,
    authenticated: Result<PasskeyAuthOutcome, CloudBackupError>,
    restored: RestoredWallet,
    wallets: Result<Vec<CloudBackupWalletItem>, CloudBackupError>,
    detail: Option<CloudBackupDetailResult>,
    warning: Option<String>,
    verification: DeepVerificationResult,
    pending: bool,
)
    ensures
        WalletEntryFlow::returned(entry) == Outcome::Entry(entry),
        UploadWalletsFlow::returned(uploaded) == Outcome::Uploaded(uploaded),
        BackupWalletsFlow::returned(result) == Outcome::Finished(result),
        SyncFlow::returned(result) == Outcome::Finished(result),
        ReuploadFlow::returned(result) == Outcome::Finished(result),
        PersistEnabledFlow::returned(result) == Outcome::Finished(result),
        EnqueueFlow::returned(result) == Outcome::Finished(result),
        RemoveFlow::returned(result) == Outcome::Finished(result),
        PendingUploadVerifier::returned(pending) == Outcome::StillPending(pending),
        PrfKeyFlow::returned(passkey) == Outcome::PrfKey(passkey),
        AuthenticateFlow::returned(authenticated) == Outcome::Authenticated(authenticated),
        EnableFlow::returned(result) == Outcome::Finished(result),
        RestoreWalletFlow::returned(restored) == Outcome::WalletRestored(restored),
        RestoreCloudWalletFlow::returned(result) == Outcome::Finished(result),
        RestoreAllFlow::returned(result) == Outcome::Finished(result),
        FetchCloudOnlyFlow::returned(wallets) == Outcome::CloudOnly(wallets),
        DeleteCloudWalletFlow::returned(result) == Outcome::Finished(result),
        RefreshDetailFlow::returned(detail) == Outcome::Detail(detail),
        IntegrityFlow::returned(warning) == Outcome::Integrity(warning),
        DeepVerifyFlow::returned(verification) == Outcome::Verification(verification),
        RepairPasskeyFlow::returned(result) == Outcome::Finished(result),
        FinalizeRepairFlow::returned(result) == Outcome::Finished(result),
{
}

/// An operation on wallets begins with the wallets, the namespace and the key that it was started
/// with. Without wallets there is nothing to upload, and the operation is over at once.
pub proof fn law_wallet_operation_begins_with_what_it_was_given(
    operation: Operation,
    progress: Progress<Frame, Outcome>,
)
    requires
        Frame::began(operation, progress),
    ensures
        match operation {
            Operation::BuildWalletEntry { wallet, mode } => {
                &&& progress matches Progress::Ask {
                    flow: Frame::BuildWalletEntry(flow),
                    request,
                    ..
                }
                &&& flow.wallet == wallet
                &&& flow.mode == mode
                &&& match wallet.wallet_type {
                    WalletType::Hot => request == (Request::ReadMnemonic { wallet_id: wallet.id }),
                    WalletType::Cold => request == if wallet.is_tap_signer {
                        Request::ReadTapSignerBackup { wallet_id: wallet.id }
                    } else {
                        Request::ReadXpub { wallet_id: wallet.id }
                    },
                    _ => request == (Request::ReadXpub { wallet_id: wallet.id }),
                }
            },
            Operation::UploadWallets { namespace, key, wallets } => if wallets@.len() == 0 {
                &&& progress matches Progress::Done { value: Outcome::Uploaded(Ok(ids)), .. }
                &&& ids@.len() == 0
            } else {
                &&& progress matches Progress::Ask { flow: Frame::UploadWallets(flow), .. }
                &&& flow.namespace == namespace
                &&& flow.key == key
                &&& flow.wallets == wallets
                &&& flow.index == 0
            },
            Operation::BackupWallets { wallets } => if wallets@.len() == 0 {
                progress matches Progress::Done { value: Outcome::Finished(Ok(_)), .. }
            } else {
                &&& progress matches Progress::Ask { flow: Frame::BackupWallets(flow), request, .. }
                &&& flow == (BackupWalletsFlow::Namespace { wallets })
                &&& request == Request::ReadKeychain(KeychainKey::NamespaceId)
            },
            Operation::PersistEnabled { wallet_count } => {
                &&& progress matches Progress::Ask {
                    flow: Frame::PersistEnabled(flow),
                    request,
                    ..
                }
                &&& flow == (PersistEnabledFlow::Clock { wallet_count })
                &&& request is ReadClock
            },
            Operation::BackupNewWallet { wallet } => {
                &&& progress matches Progress::Ask {
                    request: Request::Call(Operation::BackupWallets { wallets }),
                    ..
                }
                &&& wallets@.len() == 1
                &&& wallets@[0] == wallet
            },
            Operation::RestoreWallet { namespace, record_id, key, known } => {
                &&& progress matches Progress::Ask {
                    flow: Frame::RestoreWallet(flow),
                    request: Request::DownloadWalletBackup { namespace: source, record_id: wanted },
                    ..
                }
                &&& flow.known == known
                &&& flow.phase == (RestoreWalletPhase::Download { record_id, key })
                &&& source == namespace
                &&& wanted == record_id
            },
            Operation::RestoreCloudWallet { record_id } => {
                &&& progress matches Progress::Ask { flow: Frame::RestoreCloudWallet(flow), .. }
                &&& flow == (RestoreCloudWalletFlow::Namespace { record_id })
            },
            Operation::DeleteCloudWallet { record_id } => {
                &&& progress matches Progress::Ask { flow: Frame::DeleteCloudWallet(flow), .. }
                &&& flow == (DeleteCloudWalletFlow::Namespace { record_id })
            },
            _ => true,
        },
{
}

/// An operation on the queue of uploads begins with the records that it was started with.
pub proof fn law_queue_operation_begins_with_what_it_was_given(
    operation: Operation,
    progress: Progress<Frame, Outcome>,
)
    requires
        Frame::began(operation, progress),
    ensures
        match operation {
            Operation::EnqueueUploads { namespace, record_ids } => {
                &&& progress matches Progress::Ask {
                    flow: Frame::EnqueueUploads(flow),
                    request,
                    ..
                }
                &&& flow == (EnqueueFlow::Clock { namespace, record_ids })
                &&& request is ReadClock
            },
            Operation::RemoveUploads { namespace, record_ids } => {
                &&& progress matches Progress::Ask { flow: Frame::RemoveUploads(flow), request, .. }
                &&& flow == (RemoveFlow::Read { namespace, record_ids })
                &&& request is ReadPendingUploads
            },
            Operation::CleanupListed { listed } => {
                &&& progress matches Progress::Ask { flow: Frame::CleanupListed(flow), request, .. }
                &&& flow == (CleanupFlow::Read { listed })
                &&& request is ReadPendingUploads
            },
            Operation::VerifyPendingUploads => {
                &&& progress matches Progress::Ask {
                    flow: Frame::VerifyPendingUploads(_),
                    request,
                    ..
                }
                &&& request is ReadPendingUploads
            },
            _ => true,
        },
{
}

/// An operation on the passkey or on the record begins with what it was started with. Only the one
/// that keeps its passkey forgets the passkey that was stored before.
pub proof fn law_check_begins_with_what_it_was_given(
    operation: Operation,
    progress: Progress<Frame, Outcome>,
)
    requires
        Frame::began(operation, progress),
    ensures
        match operation {
            Operation::ObtainPrfKey => {
                &&& progress matches Progress::Ask { flow: Frame::PrfKey(flow), effects, request }
                &&& flow.persist
                &&& effects@ == seq![
                    Effect::ForgetKeychain(KeychainKey::CredentialId),
                    Effect::ForgetKeychain(KeychainKey::PrfSalt),
                ]
                &&& request is DrawPasskeySeed
            },
            Operation::CreatePrfKey => {
                &&& progress matches Progress::Ask { flow: Frame::PrfKey(flow), effects, request }
                &&& !flow.persist
                &&& effects@.len() == 0
                &&& request is DrawPasskeySeed
            },
            Operation::Authenticate { prf_salt } => {
                &&& progress matches Progress::Ask { flow: Frame::Authenticate(flow), request, .. }
                &&& flow.prf_salt == prf_salt
                &&& request == Request::ReadKeychain(KeychainKey::CredentialId)
            },
            Operation::PersistDowngrade { downgrade } => match downgrade {
                Some(downgrade) => {
                    &&& progress matches Progress::Ask {
                        flow: Frame::PersistDowngrade(flow),
                        request,
                        ..
                    }
                    &&& flow == (DowngradeFlow::Current { downgrade })
                    &&& request is ReadCloudBackup
                },
                None => progress matches Progress::Done { value: Outcome::Nothing, .. },
            },
            Operation::DeepVerify { force_discoverable } => {
                &&& progress matches Progress::Ask { flow: Frame::DeepVerify(flow), request, .. }
                &&& flow == (DeepVerifyFlow::Status { force_discoverable })
                &&& request is ReadStatus
            },
            Operation::RepairPasskey { strategy } => {
                &&& progress matches Progress::Ask { flow: Frame::RepairPasskey(flow), request, .. }
                &&& flow == (RepairPasskeyFlow::Namespace { strategy })
                &&& request == Request::ReadKeychain(KeychainKey::NamespaceId)
            },
            _ => true,
        },
{
}

/// What the user asks for runs as it was asked for: the screen shows first that it runs, and the
/// operation that does the work gets the same arguments.
pub proof fn law_screen_begins_with_what_the_user_asked(
    operation: Operation,
    progress: Progress<Frame, Outcome>,
)
    requires
        Frame::began(operation, progress),
    ensures
        match operation {
            Operation::HandleVerification { force_discoverable } => {
                &&& progress matches Progress::Ask { effects, request, .. }
                &&& effects@ == seq![Effect::Update(StateChange::VerificationStarted)]
                &&& request == Request::Call(Operation::DeepVerify { force_discoverable })
            },
            Operation::HandleRecovery { action } => {
                &&& progress matches Progress::Ask { effects, request, .. }
                &&& effects@ == seq![Effect::Update(StateChange::RecoveryStarted(action))]
                &&& match action {
                    RecoveryAction::RecreateManifest => request == Request::Call(
                        Operation::ReuploadAllWallets,
                    ),
                    RecoveryAction::ReinitializeBackup => request == Request::Call(
                        Operation::Enable,
                    ),
                    RecoveryAction::RepairPasskey => request matches Request::Call(
                        Operation::RepairPasskey { .. },
                    ),
                }
            },
            Operation::HandleRepair { no_discovery } => {
                &&& progress matches Progress::Ask { effects, request, .. }
                &&& effects@ == seq![
                    Effect::Update(StateChange::RecoveryStarted(RecoveryAction::RepairPasskey)),
                ]
                &&& request matches Request::Call(Operation::RepairPasskey { strategy })
                &&& strategy == if no_discovery {
                    WrapperRepairStrategy::CreateNew
                } else {
                    WrapperRepairStrategy::DiscoverOrCreate
                }
            },
            Operation::HandleSync => {
                &&& progress matches Progress::Ask { effects, request, .. }
                &&& effects@ == seq![Effect::Update(StateChange::SyncStarted)]
                &&& request == Request::Call(Operation::SyncUnsyncedWallets)
            },
            Operation::HandleFetchCloudOnly => {
                &&& progress matches Progress::Ask { effects, request, .. }
                &&& effects@ == seq![Effect::Update(StateChange::CloudOnlyLoading)]
                &&& request == Request::Call(Operation::FetchCloudOnly)
            },
            Operation::HandleRestoreCloudWallet { record_id } => {
                &&& progress matches Progress::Ask {
                    flow: Frame::HandleCloudWallet(flow),
                    effects,
                    request,
                }
                &&& flow == (HandleCloudWalletFlow::Operate { record_id })
                &&& effects@ == seq![Effect::Update(StateChange::CloudOnlyOperating { record_id })]
                &&& request == Request::Call(Operation::RestoreCloudWallet { record_id })
            },
            Operation::HandleDeleteCloudWallet { record_id } => {
                &&& progress matches Progress::Ask {
                    flow: Frame::HandleCloudWallet(flow),
                    effects,
                    request,
                }
                &&& flow == (HandleCloudWalletFlow::Operate { record_id })
                &&& effects@ == seq![Effect::Update(StateChange::CloudOnlyOperating { record_id })]
                &&& request == Request::Call(Operation::DeleteCloudWallet { record_id })
            },
            Operation::HandleRefreshDetail => {
                &&& progress matches Progress::Ask { effects, request, .. }
                &&& effects@.len() == 0
                &&& request == Request::Call(Operation::RefreshDetail)
            },
            Operation::Enable => {
                &&& progress matches Progress::Ask { flow: Frame::Enable(_), effects, request }
                &&& effects@ == seq![
                    Effect::Notify(
                        CloudBackupReconcileMessage::StatusChanged(CloudBackupStatus::Enabling),
                    ),
                ]
                &&& request is IsPrfSupported
            },
            Operation::RestoreAll => {
                &&& progress matches Progress::Ask { flow: Frame::RestoreAll(_), effects, request }
                &&& effects@ == seq![
                    Effect::Notify(
                        CloudBackupReconcileMessage::StatusChanged(CloudBackupStatus::Restoring),
                    ),
                ]
                &&& request is ListNamespaces
            },
            _ => true,
        },
{
}

} // verus!
