//! Deep verification of the backup, and the repair of its passkey.

pub mod laws;

use vstd::prelude::*;

use crate::error::{
    from_storage_error, internal_error, CloudBackupError, CloudBackupErrorView, CloudStorageError,
};
use crate::flows::integrity::{announce_record, announces_record};
use crate::protocol::{
    announce, announces, current_namespace_id, fail, fails, namespace_missing, one_effect, Attempt,
    Effect, KeychainKey, Operation, Outcome, Progress, Reply, Request, WrapperRepairStrategy,
};
use crate::record::CloudBackup;
use crate::state::{
    CloudBackupDetailResult, CloudBackupStatus, DeepVerificationFailure, DeepVerificationResult,
    StateChange, VerificationFailureKind,
};
use crate::text::{owned, prefixed, prefixed_text};
use crate::wallet::MasterKey;

verus! {

/// The record after a verification, if the result has a say in it.
pub open spec fn record_after(current: CloudBackup, result: DeepVerificationResult) -> Option<
    CloudBackup,
> {
    let last_sync = current.last_sync();
    let wallet_count = current.wallet_count();
    if current is Disabled {
        None
    } else {
        match result {
            DeepVerificationResult::Verified(_) => Some(
                CloudBackup::Enabled { last_sync, wallet_count },
            ),
            DeepVerificationResult::PasskeyMissing(_) => Some(
                CloudBackup::PasskeyMissing { last_sync, wallet_count },
            ),
            DeepVerificationResult::UserCancelled(_) => Some(
                CloudBackup::Unverified { last_sync, wallet_count },
            ),
            DeepVerificationResult::Failed(_) => Some(
                CloudBackup::Unverified { last_sync, wallet_count },
            ),
            DeepVerificationResult::PasskeyConfirmed(_) => None,
            DeepVerificationResult::NotEnabled => None,
        }
    }
}

/// No verification changes when the wallets were last synced or how many there are, and none turns
/// on a backup that is off.
pub proof fn law_verification_keeps_counts(current: CloudBackup, result: DeepVerificationResult)
    ensures
        record_after(current, result) matches Some(updated) ==> {
            &&& updated.last_sync() == current.last_sync()
            &&& updated.wallet_count() == current.wallet_count()
            &&& !(updated is Disabled)
        },
        current is Disabled ==> record_after(current, result) is None,
{
}

/// The record after a verification, or `None` if the result has no say in it.
pub fn verified_record(current: &CloudBackup, result: &DeepVerificationResult) -> (updated: Option<
    CloudBackup,
>)
    ensures
        updated == record_after(*current, *result),
{
    let (last_sync, wallet_count): (Option<u64>, Option<u32>) = match current {
        CloudBackup::Enabled { last_sync, wallet_count }
        | CloudBackup::Unverified { last_sync, wallet_count }
        | CloudBackup::PasskeyMissing { last_sync, wallet_count } => (*last_sync, *wallet_count),
        CloudBackup::Disabled => {
            return None;
        },
    };
    match result {
        DeepVerificationResult::Verified(_) => Some(
            CloudBackup::Enabled { last_sync, wallet_count },
        ),
        DeepVerificationResult::PasskeyConfirmed(_) => None,
        DeepVerificationResult::PasskeyMissing(_) => Some(
            CloudBackup::PasskeyMissing { last_sync, wallet_count },
        ),
        DeepVerificationResult::UserCancelled(_) | DeepVerificationResult::Failed(_) => Some(
            CloudBackup::Unverified { last_sync, wallet_count },
        ),
        DeepVerificationResult::NotEnabled => None,
    }
}

/// Verifies the backup and records the result.
pub enum DeepVerifyFlow {
    Status { force_discoverable: bool },
    Session,
    Record { result: DeepVerificationResult },
    Save { result: DeepVerificationResult, updated: CloudBackup },
}

impl DeepVerifyFlow {
    /// The result for a session that could not be run: a failure that is safe to retry.
    pub open spec fn is_failure(
        result: DeepVerificationResult,
        error: CloudBackupErrorView,
    ) -> bool {
        &&& result matches DeepVerificationResult::Failed(failure)
        &&& failure.kind == VerificationFailureKind::Retry
        &&& failure.message@ == error.message()
        &&& failure.detail is None
    }

    /// What follows a reply. The record is written only if it changes.
    pub open spec fn next(
        self,
        reply: Reply,
        progress: Progress<Self, DeepVerificationResult>,
    ) -> bool {
        match (self, reply) {
            (DeepVerifyFlow::Status { force_discoverable }, Reply::Status(status)) =>
                if status is Enabled || status is PasskeyMissing {
                progress.asks(
                    DeepVerifyFlow::Session,
                    Request::RunVerificationSession { force_discoverable },
                )
            } else {
                progress.ends(DeepVerificationResult::NotEnabled)
            },
            (DeepVerifyFlow::Session, Reply::Verification(Ok(result))) => progress.asks(
                DeepVerifyFlow::Record { result },
                Request::ReadCloudBackup,
            ),
            (DeepVerifyFlow::Session, Reply::Verification(Err(error))) => {
                &&& progress matches Progress::Ask {
                    flow: DeepVerifyFlow::Record { result },
                    effects,
                    request,
                }
                &&& Self::is_failure(result, error@)
                &&& effects@ == Seq::<Effect>::empty()
                &&& request == Request::ReadCloudBackup
            },
            (DeepVerifyFlow::Record { result }, Reply::CloudBackup(current)) => match record_after(
                current,
                result,
            ) {
                Some(updated) => if updated == current {
                    progress.ends(result)
                } else {
                    progress.asks(
                        DeepVerifyFlow::Save { result, updated },
                        Request::SaveCloudBackup(updated),
                    )
                },
                None => progress.ends(result),
            },
            (DeepVerifyFlow::Save { result, updated }, Reply::Written(Ok(_))) =>
                progress.ends_after(announces_record(updated), result),
            (DeepVerifyFlow::Save { result, updated }, Reply::Written(Err(_))) => progress.ends(
                result,
            ),
            _ => progress.refuses(self),
        }
    }

    /// The first step.
    pub open spec fn began(
        force_discoverable: bool,
        progress: Progress<Self, DeepVerificationResult>,
    ) -> bool {
        progress.asks(DeepVerifyFlow::Status { force_discoverable }, Request::ReadStatus)
    }

    /// Starts with the status.
    pub fn start(force_discoverable: bool) -> (progress: Progress<Self, DeepVerificationResult>)
        ensures
            Self::began(force_discoverable, progress),
    {
        Progress::ask(DeepVerifyFlow::Status { force_discoverable }, Request::ReadStatus)
    }

    /// Goes on with a reply.
    pub fn step(self, reply: Reply) -> (progress: Progress<Self, DeepVerificationResult>)
        ensures
            self.next(reply, progress),
    {
        match (self, reply) {
            (DeepVerifyFlow::Status { force_discoverable }, Reply::Status(status)) => {
                if matches!(
                    status,
                    CloudBackupStatus::Enabled | CloudBackupStatus::PasskeyMissing
                ) {
                    Progress::ask(
                        DeepVerifyFlow::Session,
                        Request::RunVerificationSession { force_discoverable },
                    )
                } else {
                    Progress::end(DeepVerificationResult::NotEnabled)
                }
            },
            (DeepVerifyFlow::Session, Reply::Verification(Ok(result))) => Progress::ask(
                DeepVerifyFlow::Record { result },
                Request::ReadCloudBackup,
            ),
            (DeepVerifyFlow::Session, Reply::Verification(Err(error))) => {
                let result = DeepVerificationResult::Failed(
                    DeepVerificationFailure {
                        kind: VerificationFailureKind::Retry,
                        message: error.message(),
                        detail: None,
                    },
                );
                Progress::ask(DeepVerifyFlow::Record { result }, Request::ReadCloudBackup)
            },
            (DeepVerifyFlow::Record { result }, Reply::CloudBackup(current)) => {
                match verified_record(&current, &result) {
                    Some(updated) => {
                        if updated == current {
                            Progress::end(result)
                        } else {
                            Progress::ask(
                                DeepVerifyFlow::Save { result, updated },
                                Request::SaveCloudBackup(updated),
                            )
                        }
                    },
                    None => Progress::end(result),
                }
            },
            (DeepVerifyFlow::Save { result, updated }, Reply::Written(Ok(_))) => Progress::Done {
                effects: announce_record(&updated),
                value: result,
            },
            (DeepVerifyFlow::Save { result, .. }, Reply::Written(Err(_))) => Progress::end(result),
            (flow, _) => Progress::Refused { flow },
        }
    }
}

/// Wraps the local master key with another passkey.
pub enum RepairPasskeyFlow {
    Namespace { strategy: WrapperRepairStrategy },
    Key { strategy: WrapperRepairStrategy, namespace: String },
    Listing { strategy: WrapperRepairStrategy, namespace: String, key: MasterKey },
    Repair,
}

impl RepairPasskeyFlow {
    /// What follows a reply. A namespace that is gone holds no wallets.
    pub open spec fn next(self, reply: Reply, progress: Attempt<Self, ()>) -> bool {
        match (self, reply) {
            (RepairPasskeyFlow::Namespace { strategy }, Reply::Keychain(Some(namespace))) =>
                progress.asks(
                RepairPasskeyFlow::Key { strategy, namespace },
                Request::LoadMasterKey,
            ),
            (RepairPasskeyFlow::Namespace { strategy }, Reply::Keychain(None)) => fails(
                progress,
                namespace_missing(),
            ),
            (
                RepairPasskeyFlow::Key { strategy, namespace },
                Reply::StoredMasterKey(Ok(Some(key))),
            ) => progress.asks(
                RepairPasskeyFlow::Listing { strategy, namespace, key },
                Request::ListWalletBackups { namespace },
            ),
            (RepairPasskeyFlow::Key { strategy, namespace }, Reply::StoredMasterKey(Ok(None))) =>
                fails(progress, CloudBackupErrorView::Internal("no local master key"@)),
            (RepairPasskeyFlow::Key { strategy, namespace }, Reply::StoredMasterKey(Err(error))) =>
                fails(
                progress,
                CloudBackupErrorView::Internal(prefixed_text("load local master key"@, error@)),
            ),
            (
                RepairPasskeyFlow::Listing { strategy, namespace, key },
                Reply::Listed(Ok(record_ids)),
            ) => progress.asks(
                RepairPasskeyFlow::Repair,
                Request::RunWrapperRepair { namespace, key, record_ids, strategy },
            ),
            (
                RepairPasskeyFlow::Listing { strategy, namespace, key },
                Reply::Listed(Err(CloudStorageError::NotFound(_))),
            ) => {
                &&& progress matches Progress::Ask {
                    flow,
                    effects,
                    request: Request::RunWrapperRepair {
                        namespace: source,
                        key: wrapped,
                        record_ids,
                        strategy: chosen,
                    },
                }
                &&& flow == RepairPasskeyFlow::Repair
                &&& effects@ == Seq::<Effect>::empty()
                &&& source == namespace
                &&& wrapped == key
                &&& record_ids@.len() == 0
                &&& chosen == strategy
            },
            (
                RepairPasskeyFlow::Listing { strategy, namespace, key },
                Reply::Listed(Err(CloudStorageError::Other(text))),
            ) => fails(
                progress,
                CloudBackupErrorView::Cloud(prefixed_text("list wallet backups"@, text@)),
            ),
            (RepairPasskeyFlow::Repair, Reply::Repaired(result)) => progress.ends(result),
            _ => progress.refuses(self),
        }
    }

    /// The first step.
    pub open spec fn began(strategy: WrapperRepairStrategy, progress: Attempt<Self, ()>) -> bool {
        progress.asks(
            RepairPasskeyFlow::Namespace { strategy },
            Request::ReadKeychain(KeychainKey::NamespaceId),
        )
    }

    /// Starts with the namespace.
    pub fn start(strategy: WrapperRepairStrategy) -> (progress: Attempt<Self, ()>)
        ensures
            Self::began(strategy, progress),
    {
        Progress::ask(
            RepairPasskeyFlow::Namespace { strategy },
            Request::ReadKeychain(KeychainKey::NamespaceId),
        )
    }

    /// Goes on with a reply.
    pub fn step(self, reply: Reply) -> (progress: Attempt<Self, ()>)
        ensures
            self.next(reply, progress),
    {
        match (self, reply) {
            (RepairPasskeyFlow::Namespace { strategy }, Reply::Keychain(stored)) => {
                match current_namespace_id(stored) {
                    Ok(namespace) => Progress::ask(
                        RepairPasskeyFlow::Key { strategy, namespace },
                        Request::LoadMasterKey,
                    ),
                    Err(error) => fail(error),
                }
            },
            (
                RepairPasskeyFlow::Key { strategy, namespace },
                Reply::StoredMasterKey(Ok(Some(key))),
            ) => {
                let source: String = namespace.clone();
                Progress::ask(
                    RepairPasskeyFlow::Listing { strategy, namespace, key },
                    Request::ListWalletBackups { namespace: source },
                )
            },
            (RepairPasskeyFlow::Key { .. }, Reply::StoredMasterKey(Ok(None))) => fail(
                CloudBackupError::Internal(owned("no local master key")),
            ),
            (RepairPasskeyFlow::Key { .. }, Reply::StoredMasterKey(Err(error))) => fail(
                internal_error("load local master key", &error),
            ),
            (
                RepairPasskeyFlow::Listing { strategy, namespace, key },
                Reply::Listed(Ok(record_ids)),
            ) => Progress::ask(
                RepairPasskeyFlow::Repair,
                Request::RunWrapperRepair { namespace, key, record_ids, strategy },
            ),
            (
                RepairPasskeyFlow::Listing { strategy, namespace, key },
                Reply::Listed(Err(CloudStorageError::NotFound(_))),
            ) => Progress::ask(
                RepairPasskeyFlow::Repair,
                Request::RunWrapperRepair { namespace, key, record_ids: Vec::new(), strategy },
            ),
            (
                RepairPasskeyFlow::Listing { .. },
                Reply::Listed(Err(CloudStorageError::Other(text))),
            ) => fail(
                CloudBackupError::Cloud(prefixed("list wallet backups", text.as_str())),
            ),
            (RepairPasskeyFlow::Repair, Reply::Repaired(result)) => Progress::end(result),
            (flow, _) => Progress::Refused { flow },
        }
    }
}

/// Records that a repaired backup is enabled, and refreshes what is shown of it.
pub enum FinalizeRepairFlow {
    Namespace,
    Listing,
    Persist,
    Refresh,
}

impl FinalizeRepairFlow {
    /// What follows a reply. That the detail could not be refreshed is no failure.
    pub open spec fn next(self, reply: Reply, progress: Attempt<Self, ()>) -> bool {
        match (self, reply) {
            (FinalizeRepairFlow::Namespace, Reply::Keychain(Some(namespace))) => progress.asks(
                FinalizeRepairFlow::Listing,
                Request::ListWalletBackups { namespace },
            ),
            (FinalizeRepairFlow::Namespace, Reply::Keychain(None)) => fails(
                progress,
                namespace_missing(),
            ),
            (FinalizeRepairFlow::Listing, Reply::Listed(Ok(listed))) => progress.asks(
                FinalizeRepairFlow::Persist,
                Request::Call(Operation::PersistEnabled { wallet_count: listed.len() as u32 }),
            ),
            (FinalizeRepairFlow::Listing, Reply::Listed(Err(error))) => fails(
                progress,
                CloudBackupErrorView::Cloud(error.text()@),
            ),
            (FinalizeRepairFlow::Persist, Reply::Returned(Outcome::Finished(Ok(_)))) =>
                progress.asks_after(
                seq![announces(CloudBackupStatus::Enabled)],
                FinalizeRepairFlow::Refresh,
                Request::Call(Operation::RefreshDetail),
            ),
            (FinalizeRepairFlow::Persist, Reply::Returned(Outcome::Finished(Err(error)))) =>
                progress.ends(Err(error)),
            (
                FinalizeRepairFlow::Refresh,
                Reply::Returned(Outcome::Detail(Some(CloudBackupDetailResult::Success(detail)))),
            ) => progress.ends_after(
                seq![Effect::Update(StateChange::DetailRefreshed(detail))],
                Ok(()),
            ),
            (FinalizeRepairFlow::Refresh, Reply::Returned(Outcome::Detail(_))) => progress.ends(
                Ok(()),
            ),
            _ => progress.refuses(self),
        }
    }

    /// The first step.
    pub open spec fn began(progress: Attempt<Self, ()>) -> bool {
        progress.asks(
            FinalizeRepairFlow::Namespace,
            Request::ReadKeychain(KeychainKey::NamespaceId),
        )
    }

    /// Starts with the namespace.
    pub fn start() -> (progress: Attempt<Self, ()>)
        ensures
            Self::began(progress),
    {
        Progress::ask(
            FinalizeRepairFlow::Namespace,
            Request::ReadKeychain(KeychainKey::NamespaceId),
        )
    }

    /// Goes on with a reply.
    pub fn step(self, reply: Reply) -> (progress: Attempt<Self, ()>)
        ensures
            self.next(reply, progress),
    {
        match (self, reply) {
            (FinalizeRepairFlow::Namespace, Reply::Keychain(stored)) => match current_namespace_id(
                stored,
            ) {
                Ok(namespace) => Progress::ask(
                    FinalizeRepairFlow::Listing,
                    Request::ListWalletBackups { namespace },
                ),
                Err(error) => fail(error),
            },
            (FinalizeRepairFlow::Listing, Reply::Listed(Ok(listed))) => {
                let wallet_count: u32 = listed.len() as u32;
                Progress::ask(
                    FinalizeRepairFlow::Persist,
                    Request::Call(Operation::PersistEnabled { wallet_count }),
                )
            },
            (FinalizeRepairFlow::Listing, Reply::Listed(Err(error))) => fail(
                from_storage_error(error),
            ),
            (FinalizeRepairFlow::Persist, Reply::Returned(Outcome::Finished(Ok(_)))) =>
                Progress::Ask {
                flow: FinalizeRepairFlow::Refresh,
                effects: one_effect(announce(CloudBackupStatus::Enabled)),
                request: Request::Call(Operation::RefreshDetail),
            },
            (FinalizeRepairFlow::Persist, Reply::Returned(Outcome::Finished(Err(error)))) =>
                Progress::end(Err(error)),
            (
                FinalizeRepairFlow::Refresh,
                Reply::Returned(Outcome::Detail(Some(CloudBackupDetailResult::Success(detail)))),
            ) => Progress::Done {
                effects: one_effect(Effect::Update(StateChange::DetailRefreshed(detail))),
                value: Ok(()),
            },
            (FinalizeRepairFlow::Refresh, Reply::Returned(Outcome::Detail(_))) => Progress::end(
                Ok(()),
            ),
            (flow, _) => Progress::Refused { flow },
        }
    }
}

} // verus!
