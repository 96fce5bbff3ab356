//! What turning the backup on does, from its first step to its last.

use vstd::prelude::*;

use crate::conversation::{continues, is_conversation, lemma_stop_is_last, Stepwise};
use crate::error::{CloudBackupError, SealError};
use crate::flows::enable::EnableFlow;
use crate::protocol::{Attempt, Effect, KeychainKey, Operation, Outcome, Progress, Reply, Request};
use crate::state::{CloudBackupReconcileMessage, CloudBackupStatus};

verus! {

impl Stepwise for EnableFlow {
    type Value = Result<(), CloudBackupError>;

    open spec fn follows(self, reply: Reply, progress: Attempt<Self, ()>) -> bool {
        self.next(reply, progress)
    }
}

/// A backup that was turned on holds the master key of the key store, sealed with the key and under
/// the salt of the passkey that was just made, and every wallet of the device, all under the
/// namespace of that master key. That namespace is the one that the keychain names from then on,
/// the record counts the uploaded wallets, and the master key and every uploaded record are
/// watched.
pub proof fn law_enabled_backup_is_whole(
    steps: Seq<Attempt<EnableFlow, ()>>,
    replies: Seq<Reply>,
)
    requires
        EnableFlow::began(steps[0]),
        is_conversation(steps, replies),
        steps.last() matches Progress::Done { value: Ok(_), .. },
    ensures
        replies.len() == 11,
        steps[0].requests(Request::IsPrfSupported),
        replies[0] == Reply::Flag(true),
        steps[1].requests(Request::GetOrCreateMasterKey),
        steps[2].requests(Request::Call(Operation::ObtainPrfKey)),
        replies[1] matches Reply::MasterKey(Ok(key)) && (replies[2] matches Reply::Returned(
            Outcome::PrfKey(Ok(passkey)),
        ) && (replies[3] matches Reply::Sealed(Ok(bytes)) && (
        replies[5] matches Reply::LocalWallets(wallets) && (replies[6] matches Reply::Returned(
            Outcome::Uploaded(Ok(uploaded)),
        ) && (replies[9] matches Reply::RecordId(master_key_record) && {
            &&& steps[3].requests(
                Request::SealMasterKey {
                    key,
                    prf_key: passkey.prf_key,
                    prf_salt: passkey.prf_salt,
                },
            )
            &&& steps[4].requests(
                Request::UploadMasterKeyBackup { namespace: key.namespace_id, bytes },
            )
            &&& steps[5].requests(Request::ReadLocalWallets)
            &&& steps[6].requests(
                Request::Call(
                    Operation::UploadWallets { namespace: key.namespace_id, key, wallets },
                ),
            )
            &&& steps[7].requests(
                Request::SaveKeychain { key: KeychainKey::NamespaceId, value: key.namespace_id },
            )
            &&& steps[8].requests(
                Request::Call(Operation::PersistEnabled { wallet_count: uploaded@.len() as u32 }),
            )
            &&& steps[9].requests(Request::ReadMasterKeyRecordId)
            &&& steps[10] matches Progress::Ask {
                request: Request::Call(Operation::EnqueueUploads { namespace, record_ids }),
                ..
            }
            &&& namespace == key.namespace_id
            &&& record_ids@ == seq![master_key_record] + uploaded@
        }))))),
        replies[4] matches Reply::Stored(Ok(_)),
        replies[7] matches Reply::Written(Ok(_)),
        replies[8] matches Reply::Returned(Outcome::Finished(Ok(_))),
        replies[10] matches Reply::Returned(Outcome::Finished(Ok(_))),
{
    assert(continues(steps[0], replies[0], steps[1]));
    assert(continues(steps[1], replies[1], steps[2]));
    assert(continues(steps[2], replies[2], steps[3]));
    assert(continues(steps[3], replies[3], steps[4]));
    assert(continues(steps[4], replies[4], steps[5]));
    assert(continues(steps[5], replies[5], steps[6]));
    assert(continues(steps[6], replies[6], steps[7]));
    assert(continues(steps[7], replies[7], steps[8]));
    assert(continues(steps[8], replies[8], steps[9]));
    assert(continues(steps[9], replies[9], steps[10]));
    assert(continues(steps[10], replies[10], steps[11]));
    lemma_stop_is_last(steps, replies, 11);
}

/// What the user is told on the way: that the backup is being turned on, before anything is asked
/// for, and at the end, if it succeeds and only then, that it is on. A failure of a part is handed
/// on as it is.
pub proof fn law_enable_tells_start_and_end(
    steps: Seq<Attempt<EnableFlow, ()>>,
    replies: Seq<Reply>,
    at: int,
)
    requires
        EnableFlow::began(steps[0]),
        is_conversation(steps, replies),
        0 <= at < steps.len(),
    ensures
        match steps[at] {
            Progress::Ask { effects, .. } => effects@ == if at == 0 {
                seq![
                    Effect::Notify(
                        CloudBackupReconcileMessage::StatusChanged(CloudBackupStatus::Enabling),
                    ),
                ]
            } else {
                Seq::empty()
            },
            Progress::Done { effects, value: Ok(_) } => effects@ == seq![
                Effect::Notify(CloudBackupReconcileMessage::EnableComplete),
                Effect::Notify(
                    CloudBackupReconcileMessage::StatusChanged(CloudBackupStatus::Enabled),
                ),
            ],
            Progress::Done { effects, value: Err(error) } => {
                &&& effects@.len() == 0
                &&& at > 0
                &&& match replies[at - 1] {
                    Reply::Returned(Outcome::PrfKey(Err(failure))) => failure == error,
                    Reply::Returned(Outcome::Uploaded(Err(failure))) => failure == error,
                    Reply::Returned(Outcome::Finished(Err(failure))) => failure == error,
                    Reply::Flag(supported) => !supported && (
                    error matches CloudBackupError::NotSupported(text) && text@
                        == "PRF extension not supported on this device"@),
                    Reply::MasterKey(Err(why)) => error matches CloudBackupError::Internal(text)
                        && text@ == "master key"@ + ": "@ + why@,
                    Reply::Sealed(Err(SealError::Crypto(why))) =>
                        error matches CloudBackupError::Crypto(text) && text@ == why@,
                    Reply::Sealed(Err(SealError::Encode(why))) =>
                        error matches CloudBackupError::Internal(text) && text@ == why@,
                    Reply::Stored(result) => result matches Err(failure) && (
                    error matches CloudBackupError::Cloud(text) && text@ == failure.text()@),
                    Reply::Written(Err(why)) => error matches CloudBackupError::Internal(text)
                        && text@ == "save namespace_id"@ + ": "@ + why@,
                    _ => false,
                }
            },
            Progress::Refused { .. } => true,
        },
{
    if at > 0 {
        assert(continues(steps[at - 1], replies[at - 1], steps[at]));
    }
}

} // verus!
