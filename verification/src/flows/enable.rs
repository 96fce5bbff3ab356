//! Turning the cloud backup on.

pub mod laws;

use vstd::prelude::*;

use crate::error::{
    from_seal_error, from_storage_error, internal_error, seal_failure, CloudBackupError,
    CloudBackupErrorView,
};
use crate::protocol::{
    announce, announces, fail, fails, one_effect, two_effects, Attempt, Effect, KeychainKey,
    Operation, Outcome, Progress, Reply, Request,
};
use crate::state::{CloudBackupReconcileMessage, CloudBackupStatus};
use crate::text::{owned, prefixed_text};
use crate::wallet::MasterKey;

verus! {

/// Makes a passkey, wraps the master key with it, and uploads the master key and every wallet.
pub enum EnableFlow {
    Support,
    Key,
    Passkey { key: MasterKey },
    Seal { key: MasterKey },
    UploadKey { key: MasterKey },
    Wallets { key: MasterKey },
    Upload { namespace: String },
    SaveNamespace { namespace: String, record_ids: Vec<String> },
    Persist { namespace: String, record_ids: Vec<String> },
    MasterKeyRecord { namespace: String, record_ids: Vec<String> },
    Enqueue,
}

impl EnableFlow {
    /// What follows a reply.
    pub open spec fn next(self, reply: Reply, progress: Attempt<Self, ()>) -> bool {
        match (self, reply) {
            (EnableFlow::Support, Reply::Flag(supported)) => if supported {
                progress.asks(EnableFlow::Key, Request::GetOrCreateMasterKey)
            } else {
                fails(
                    progress,
                    CloudBackupErrorView::NotSupported(
                        "PRF extension not supported on this device"@,
                    ),
                )
            },
            (EnableFlow::Key, Reply::MasterKey(Ok(key))) => progress.asks(
                EnableFlow::Passkey { key },
                Request::Call(Operation::ObtainPrfKey),
            ),
            (EnableFlow::Key, Reply::MasterKey(Err(error))) => fails(
                progress,
                CloudBackupErrorView::Internal(prefixed_text("master key"@, error@)),
            ),
            (EnableFlow::Passkey { key }, Reply::Returned(Outcome::PrfKey(Ok(passkey)))) =>
                progress.asks(
                EnableFlow::Seal { key },
                Request::SealMasterKey {
                    key,
                    prf_key: passkey.prf_key,
                    prf_salt: passkey.prf_salt,
                },
            ),
            (EnableFlow::Passkey { key }, Reply::Returned(Outcome::PrfKey(Err(error)))) =>
                progress.ends(Err(error)),
            (EnableFlow::Seal { key }, Reply::Sealed(Ok(bytes))) => progress.asks(
                EnableFlow::UploadKey { key },
                Request::UploadMasterKeyBackup { namespace: key.namespace_id, bytes },
            ),
            (EnableFlow::Seal { key }, Reply::Sealed(Err(error))) => fails(
                progress,
                seal_failure(error),
            ),
            (EnableFlow::UploadKey { key }, Reply::Stored(Ok(_))) => progress.asks(
                EnableFlow::Wallets { key },
                Request::ReadLocalWallets,
            ),
            (EnableFlow::UploadKey { key }, Reply::Stored(Err(error))) => fails(
                progress,
                CloudBackupErrorView::Cloud(error.text()@),
            ),
            (EnableFlow::Wallets { key }, Reply::LocalWallets(wallets)) => progress.asks(
                EnableFlow::Upload { namespace: key.namespace_id },
                Request::Call(
                    Operation::UploadWallets { namespace: key.namespace_id, key, wallets },
                ),
            ),
            (
                EnableFlow::Upload { namespace },
                Reply::Returned(Outcome::Uploaded(Ok(record_ids))),
            ) => progress.asks(
                EnableFlow::SaveNamespace { namespace, record_ids },
                Request::SaveKeychain { key: KeychainKey::NamespaceId, value: namespace },
            ),
            (EnableFlow::Upload { namespace }, Reply::Returned(Outcome::Uploaded(Err(error)))) =>
                progress.ends(Err(error)),
            (EnableFlow::SaveNamespace { namespace, record_ids }, Reply::Written(Ok(_))) =>
                progress.asks(
                EnableFlow::Persist { namespace, record_ids },
                Request::Call(
                    Operation::PersistEnabled { wallet_count: record_ids.len() as u32 },
                ),
            ),
            (EnableFlow::SaveNamespace { namespace, record_ids }, Reply::Written(Err(error))) =>
                fails(
                progress,
                CloudBackupErrorView::Internal(prefixed_text("save namespace_id"@, error@)),
            ),
            (
                EnableFlow::Persist { namespace, record_ids },
                Reply::Returned(Outcome::Finished(Ok(_))),
            ) => progress.asks(
                EnableFlow::MasterKeyRecord { namespace, record_ids },
                Request::ReadMasterKeyRecordId,
            ),
            (
                EnableFlow::Persist { namespace, record_ids },
                Reply::Returned(Outcome::Finished(Err(error))),
            ) => progress.ends(Err(error)),
            (EnableFlow::MasterKeyRecord { namespace, record_ids }, Reply::RecordId(id)) => {
                &&& progress matches Progress::Ask {
                    flow,
                    effects,
                    request: Request::Call(
                        Operation::EnqueueUploads { namespace: target, record_ids: watched },
                    ),
                }
                &&& flow == EnableFlow::Enqueue
                &&& effects@ == Seq::<Effect>::empty()
                &&& target == namespace
                &&& watched@ == seq![id] + record_ids@
            },
            (EnableFlow::Enqueue, Reply::Returned(Outcome::Finished(Ok(_)))) =>
                progress.ends_after(
                seq![
                    Effect::Notify(CloudBackupReconcileMessage::EnableComplete),
                    announces(CloudBackupStatus::Enabled),
                ],
                Ok(()),
            ),
            (EnableFlow::Enqueue, Reply::Returned(Outcome::Finished(Err(error)))) => progress.ends(
                Err(error),
            ),
            _ => progress.refuses(self),
        }
    }

    /// The first step.
    pub open spec fn began(progress: Attempt<Self, ()>) -> bool {
        progress.asks_after(
            seq![announces(CloudBackupStatus::Enabling)],
            EnableFlow::Support,
            Request::IsPrfSupported,
        )
    }

    /// Announces the start, and asks first whether passkeys can serve.
    pub fn start() -> (progress: Attempt<Self, ()>)
        ensures
            Self::began(progress),
    {
        Progress::Ask {
            flow: EnableFlow::Support,
            effects: one_effect(announce(CloudBackupStatus::Enabling)),
            request: Request::IsPrfSupported,
        }
    }

    /// Goes on with a reply.
    pub fn step(self, reply: Reply) -> (progress: Attempt<Self, ()>)
        ensures
            self.next(reply, progress),
    {
        match (self, reply) {
            (EnableFlow::Support, Reply::Flag(supported)) => {
                if supported {
                    Progress::ask(EnableFlow::Key, Request::GetOrCreateMasterKey)
                } else {
                    fail(
                        CloudBackupError::NotSupported(
                            owned("PRF extension not supported on this device"),
                        ),
                    )
                }
            },
            (EnableFlow::Key, Reply::MasterKey(Ok(key))) => Progress::ask(
                EnableFlow::Passkey { key },
                Request::Call(Operation::ObtainPrfKey),
            ),
            (EnableFlow::Key, Reply::MasterKey(Err(error))) => fail(
                internal_error("master key", &error),
            ),
            (EnableFlow::Passkey { key }, Reply::Returned(Outcome::PrfKey(Ok(passkey)))) => {
                let wrapped: MasterKey = key.clone();
                Progress::ask(
                    EnableFlow::Seal { key },
                    Request::SealMasterKey {
                        key: wrapped,
                        prf_key: passkey.prf_key,
                        prf_salt: passkey.prf_salt,
                    },
                )
            },
            (EnableFlow::Passkey { .. }, Reply::Returned(Outcome::PrfKey(Err(error)))) =>
                Progress::end(Err(error)),
            (EnableFlow::Seal { key }, Reply::Sealed(Ok(bytes))) => {
                let namespace: String = key.namespace_id.clone();
                Progress::ask(
                    EnableFlow::UploadKey { key },
                    Request::UploadMasterKeyBackup { namespace, bytes },
                )
            },
            (EnableFlow::Seal { .. }, Reply::Sealed(Err(error))) => fail(from_seal_error(error)),
            (EnableFlow::UploadKey { key }, Reply::Stored(Ok(_))) => Progress::ask(
                EnableFlow::Wallets { key },
                Request::ReadLocalWallets,
            ),
            (EnableFlow::UploadKey { .. }, Reply::Stored(Err(error))) => fail(
                from_storage_error(error),
            ),
            (EnableFlow::Wallets { key }, Reply::LocalWallets(wallets)) => {
                let namespace: String = key.namespace_id.clone();
                let target: String = key.namespace_id.clone();
                Progress::ask(
                    EnableFlow::Upload { namespace },
                    Request::Call(Operation::UploadWallets { namespace: target, key, wallets }),
                )
            },
            (
                EnableFlow::Upload { namespace },
                Reply::Returned(Outcome::Uploaded(Ok(record_ids))),
            ) => {
                let value: String = namespace.clone();
                Progress::ask(
                    EnableFlow::SaveNamespace { namespace, record_ids },
                    Request::SaveKeychain { key: KeychainKey::NamespaceId, value },
                )
            },
            (EnableFlow::Upload { .. }, Reply::Returned(Outcome::Uploaded(Err(error)))) =>
                Progress::end(Err(error)),
            (EnableFlow::SaveNamespace { namespace, record_ids }, Reply::Written(Ok(_))) => {
                let wallet_count: u32 = record_ids.len() as u32;
                Progress::ask(
                    EnableFlow::Persist { namespace, record_ids },
                    Request::Call(Operation::PersistEnabled { wallet_count }),
                )
            },
            (EnableFlow::SaveNamespace { .. }, Reply::Written(Err(error))) => fail(
                internal_error("save namespace_id", &error),
            ),
            (
                EnableFlow::Persist { namespace, record_ids },
                Reply::Returned(Outcome::Finished(Ok(_))),
            ) => Progress::ask(
                EnableFlow::MasterKeyRecord { namespace, record_ids },
                Request::ReadMasterKeyRecordId,
            ),
            (EnableFlow::Persist { .. }, Reply::Returned(Outcome::Finished(Err(error)))) =>
                Progress::end(Err(error)),
            (EnableFlow::MasterKeyRecord { namespace, record_ids }, Reply::RecordId(id)) => {
                let mut uploaded: Vec<String> = record_ids;
                let mut watched: Vec<String> = Vec::new();
                watched.push(id);
                watched.append(&mut uploaded);
                Progress::ask(
                    EnableFlow::Enqueue,
                    Request::Call(Operation::EnqueueUploads { namespace, record_ids: watched }),
                )
            },
            (EnableFlow::Enqueue, Reply::Returned(Outcome::Finished(Ok(_)))) => Progress::Done {
                effects: two_effects(
                    Effect::Notify(CloudBackupReconcileMessage::EnableComplete),
                    announce(CloudBackupStatus::Enabled),
                ),
                value: Ok(()),
            },
            (EnableFlow::Enqueue, Reply::Returned(Outcome::Finished(Err(error)))) => Progress::end(
                Err(error),
            ),
            (flow, _) => Progress::Refused { flow },
        }
    }
}

/// Turning the backup on rests on nothing that an earlier attempt left behind: no step reads the
/// keychain, the record of the backup or the queue of uploads. So it can be tried again.
pub proof fn law_enable_ignores_earlier_attempts(
    flow: EnableFlow,
    reply: Reply,
    progress: Attempt<EnableFlow, ()>,
)
    requires
        EnableFlow::began(progress) || flow.next(reply, progress),
    ensures
        progress matches Progress::Ask { request, .. } ==> {
            &&& !(request is ReadKeychain)
            &&& !(request is ReadCloudBackup)
            &&& !(request is ReadPendingUploads)
        },
{
}

impl EnableFlow {
    /// How many steps were taken.
    pub open spec fn steps_taken(self) -> nat {
        match self {
            EnableFlow::Support => 0,
            EnableFlow::Key => 1,
            EnableFlow::Passkey { .. } => 2,
            EnableFlow::Seal { .. } => 3,
            EnableFlow::UploadKey { .. } => 4,
            EnableFlow::Wallets { .. } => 5,
            EnableFlow::Upload { .. } => 6,
            EnableFlow::SaveNamespace { .. } => 7,
            EnableFlow::Persist { .. } => 8,
            EnableFlow::MasterKeyRecord { .. } => 9,
            EnableFlow::Enqueue => 10,
        }
    }

    /// Whether a reply is a success.
    pub open spec fn succeeded(reply: Reply) -> bool {
        match reply {
            Reply::Flag(supported) => supported,
            Reply::MasterKey(result) => result is Ok,
            Reply::Sealed(result) => result is Ok,
            Reply::Stored(result) => result is Ok,
            Reply::Written(result) => result is Ok,
            Reply::Returned(Outcome::PrfKey(result)) => result is Ok,
            Reply::Returned(Outcome::Uploaded(result)) => result is Ok,
            Reply::Returned(Outcome::Finished(result)) => result is Ok,
            _ => true,
        }
    }
}

/// No step is left out, and the first one that fails ends it: the backup is announced as enabled
/// only after the passkey was made, the master key and every wallet were handed to the cloud, the
/// namespace and the record were stored, and the uploads are being watched.
pub proof fn law_enable_takes_every_step(
    flow: EnableFlow,
    reply: Reply,
    progress: Attempt<EnableFlow, ()>,
)
    requires
        flow.next(reply, progress),
    ensures
        match progress {
            Progress::Ask { flow: later, .. } => {
                &&& later.steps_taken() == flow.steps_taken() + 1
                &&& EnableFlow::succeeded(reply)
            },
            Progress::Done { effects, value: Ok(_) } => {
                &&& flow == EnableFlow::Enqueue
                &&& EnableFlow::succeeded(reply)
                &&& effects@.last() == announces(CloudBackupStatus::Enabled)
            },
            Progress::Done { effects, value: Err(_) } => {
                &&& !EnableFlow::succeeded(reply)
                &&& effects@.len() == 0
            },
            Progress::Refused { .. } => true,
        },
{
}

} // verus!
