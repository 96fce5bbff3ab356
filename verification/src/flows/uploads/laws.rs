//! What sending wallets to the cloud does, from the first step to the last.

use vstd::prelude::*;

use crate::conversation::{continues, is_conversation, lemma_stop_is_last, Stepwise};
use crate::error::{CloudBackupError, SealError};
use crate::flows::uploads::{
    backed_up_records, law_backed_up_records, BackupNewWalletFlow, BackupWalletsFlow,
    PersistEnabledFlow, ReuploadFlow, SyncFlow, UploadWalletsFlow, UploadWalletsPhase,
};
use crate::protocol::{Attempt, Effect, KeychainKey, Operation, Outcome, Progress, Reply, Request};
use crate::record::CloudBackup;
use crate::state::CloudBackupReconcileMessage;
use crate::text::texts;
use crate::upload_queue::{queued_ids, PendingCloudUploadBlob};
use crate::wallet::{MasterKey, WalletMetadata};

verus! {

impl Stepwise for UploadWalletsFlow {
    type Value = Result<Vec<String>, CloudBackupError>;

    open spec fn follows(self, reply: Reply, progress: Attempt<Self, Vec<String>>) -> bool {
        self.next(reply, progress)
    }
}

impl Stepwise for PersistEnabledFlow {
    type Value = Result<(), CloudBackupError>;

    open spec fn follows(self, reply: Reply, progress: Attempt<Self, ()>) -> bool {
        self.next(reply, progress)
    }
}

impl Stepwise for BackupWalletsFlow {
    type Value = Result<(), CloudBackupError>;

    open spec fn follows(self, reply: Reply, progress: Attempt<Self, ()>) -> bool {
        self.next(reply, progress)
    }
}

impl Stepwise for SyncFlow {
    type Value = Result<(), CloudBackupError>;

    open spec fn follows(self, reply: Reply, progress: Attempt<Self, ()>) -> bool {
        self.next(reply, progress)
    }
}

impl Stepwise for ReuploadFlow {
    type Value = Result<(), CloudBackupError>;

    open spec fn follows(self, reply: Reply, progress: Attempt<Self, ()>) -> bool {
        self.next(reply, progress)
    }
}

impl Stepwise for BackupNewWalletFlow {
    type Value = ();

    open spec fn follows(self, reply: Reply, progress: Progress<Self, ()>) -> bool {
        self.next(reply, progress)
    }
}

/// Whether three steps and the replies to them upload one wallet: what is built for this wallet is
/// sealed with `key`, and what comes of that is stored under the wallet's own record in
/// `namespace`.
pub open spec fn uploads_wallet(
    namespace: String,
    key: MasterKey,
    wallet: WalletMetadata,
    steps: Seq<Attempt<UploadWalletsFlow, Vec<String>>>,
    replies: Seq<Reply>,
    at: int,
) -> bool {
    &&& steps[at].requests(
        Request::Call(Operation::BuildWalletEntry { wallet, mode: wallet.wallet_mode }),
    )
    &&& replies[at] matches Reply::Returned(Outcome::Entry(Ok(entry)))
    &&& steps[at + 1].requests(Request::SealWallet { entry, key })
    &&& replies[at + 1] matches Reply::Sealed(Ok(bytes))
    &&& steps[at + 2].requests(
        Request::UploadWalletBackup { namespace, record_id: wallet.record_id, bytes },
    )
    &&& replies[at + 2] matches Reply::Stored(Ok(_))
}

/// How far an upload of `wallets` is after `at` steps.
spec fn is_at(
    namespace: String,
    key: MasterKey,
    wallets: Vec<WalletMetadata>,
    flow: UploadWalletsFlow,
    at: int,
) -> bool {
    &&& flow.namespace == namespace
    &&& flow.key == key
    &&& flow.wallets == wallets
    &&& flow.index == at / 3
    &&& flow.index < wallets@.len()
    &&& flow.phase == if at % 3 == 0 {
        UploadWalletsPhase::Entry
    } else if at % 3 == 1 {
        UploadWalletsPhase::Seal
    } else {
        UploadWalletsPhase::Upload
    }
}

proof fn lemma_upload_order(
    namespace: String,
    key: MasterKey,
    wallets: Vec<WalletMetadata>,
    steps: Seq<Attempt<UploadWalletsFlow, Vec<String>>>,
    replies: Seq<Reply>,
    at: int,
)
    requires
        UploadWalletsFlow::began(namespace, key, wallets, steps[0]),
        is_conversation(steps, replies),
        0 <= at < steps.len(),
    ensures
        match steps[at] {
            Progress::Ask { flow, request, effects } => {
                &&& is_at(namespace, key, wallets, flow, at)
                &&& effects@.len() == 0
                &&& at % 3 == 0 ==> request == Request::Call(
                    Operation::BuildWalletEntry {
                        wallet: wallets@[at / 3],
                        mode: wallets@[at / 3].wallet_mode,
                    },
                )
                &&& at % 3 == 1 ==> (replies[at - 1] matches Reply::Returned(
                    Outcome::Entry(Ok(entry)),
                ) && request == Request::SealWallet { entry, key })
                &&& at % 3 == 2 ==> (replies[at - 1] matches Reply::Sealed(Ok(bytes)) && request
                    == Request::UploadWalletBackup {
                    namespace,
                    record_id: wallets@[at / 3].record_id,
                    bytes,
                })
                &&& at % 3 == 0 && at > 0 ==> (replies[at - 1] matches Reply::Stored(Ok(_)))
            },
            Progress::Done { effects, value: Ok(ids) } => {
                &&& effects@.len() == 0
                &&& at == 3 * wallets@.len()
                &&& at > 0 ==> (replies[at - 1] matches Reply::Stored(Ok(_)))
                &&& ids@.len() == wallets@.len()
                &&& forall|i: int|
                    0 <= i < ids@.len() ==> #[trigger] ids@[i] == wallets@[i].record_id
            },
            Progress::Done { effects, value: Err(error) } => {
                &&& effects@.len() == 0
                &&& at > 0
                &&& match replies[at - 1] {
                    Reply::Returned(Outcome::Entry(Err(failure))) => error == failure,
                    Reply::Sealed(Err(SealError::Crypto(why))) =>
                        error matches CloudBackupError::Crypto(text) && text@ == why@,
                    Reply::Sealed(Err(SealError::Encode(why))) =>
                        error matches CloudBackupError::Internal(text) && text@ == why@,
                    Reply::Stored(Err(failure)) => error matches CloudBackupError::Cloud(text)
                        && text@ == failure.text()@,
                    _ => false,
                }
            },
            Progress::Refused { flow } => is_at(namespace, key, wallets, flow, at - 1),
        },
    decreases at,
{
    if at > 0 {
        lemma_upload_order(namespace, key, wallets, steps, replies, at - 1);
        assert(continues(steps[at - 1], replies[at - 1], steps[at]));
        if let Progress::Ask { flow, .. } = steps[at - 1] {
            assert(flow.index < flow.wallets.len());
        }
    }
}

/// An upload that succeeds has uploaded every wallet, in order: each entry was built for its
/// wallet, sealed with the master key that was given, and stored in the namespace that was given
/// under the wallet's record. What it gives back are these records.
pub proof fn law_every_wallet_is_uploaded_under_its_record(
    namespace: String,
    key: MasterKey,
    wallets: Vec<WalletMetadata>,
    steps: Seq<Attempt<UploadWalletsFlow, Vec<String>>>,
    replies: Seq<Reply>,
    ids: Vec<String>,
)
    requires
        UploadWalletsFlow::began(namespace, key, wallets, steps[0]),
        is_conversation(steps, replies),
        steps.last() matches Progress::Done { value: Ok(given), .. } && given == ids,
    ensures
        replies.len() == 3 * wallets@.len(),
        forall|i: int|
            0 <= i < wallets@.len() ==> uploads_wallet(
                namespace,
                key,
                #[trigger] wallets@[i],
                steps,
                replies,
                3 * i,
            ),
        ids@.len() == wallets@.len(),
        forall|i: int| 0 <= i < ids@.len() ==> #[trigger] ids@[i] == wallets@[i].record_id,
{
    lemma_upload_order(namespace, key, wallets, steps, replies, steps.len() - 1);
    assert forall|i: int| 0 <= i < wallets@.len() implies uploads_wallet(
        namespace,
        key,
        #[trigger] wallets@[i],
        steps,
        replies,
        3 * i,
    ) by {
        let at = 3 * i;
        assert(continues(steps[at], replies[at], steps[at + 1]));
        assert(continues(steps[at + 1], replies[at + 1], steps[at + 2]));
        assert(continues(steps[at + 2], replies[at + 2], steps[at + 3]));
        lemma_upload_order(namespace, key, wallets, steps, replies, at);
        lemma_upload_order(namespace, key, wallets, steps, replies, at + 1);
        lemma_upload_order(namespace, key, wallets, steps, replies, at + 2);
        lemma_upload_order(namespace, key, wallets, steps, replies, at + 3);
        if at + 3 < replies.len() {
            assert(continues(steps[at + 3], replies[at + 3], steps[at + 4]));
        }
    }
}

/// Nothing is ever sent to the cloud but the sealed backup of one of the wallets, in the namespace
/// and under the record where it belongs, also where the upload fails later on.
pub proof fn law_upload_sends_only_sealed_wallets(
    namespace: String,
    key: MasterKey,
    wallets: Vec<WalletMetadata>,
    steps: Seq<Attempt<UploadWalletsFlow, Vec<String>>>,
    replies: Seq<Reply>,
    at: int,
)
    requires
        UploadWalletsFlow::began(namespace, key, wallets, steps[0]),
        is_conversation(steps, replies),
        0 <= at < steps.len(),
    ensures
        steps[at] matches Progress::Ask {
            request: Request::UploadWalletBackup { namespace: target, record_id, bytes },
            ..
        } ==> {
            &&& target == namespace
            &&& at >= 2
            &&& replies[at - 1] == Reply::Sealed(Ok(bytes))
            &&& replies[at - 2] matches Reply::Returned(Outcome::Entry(Ok(entry)))
            &&& steps[at - 1].requests(Request::SealWallet { entry, key })
            &&& 0 <= at / 3 < wallets@.len()
            &&& record_id == wallets@[at / 3].record_id
            &&& steps[at - 2].requests(
                Request::Call(
                    Operation::BuildWalletEntry {
                        wallet: wallets@[at / 3],
                        mode: wallets@[at / 3].wallet_mode,
                    },
                ),
            )
        },
{
    lemma_upload_order(namespace, key, wallets, steps, replies, at);
    if steps[at] matches Progress::Ask { request: Request::UploadWalletBackup { .. }, .. } {
        assert(continues(steps[at - 1], replies[at - 1], steps[at]));
        lemma_upload_order(namespace, key, wallets, steps, replies, at - 1);
        assert(continues(steps[at - 2], replies[at - 2], steps[at - 1]));
        lemma_upload_order(namespace, key, wallets, steps, replies, at - 2);
    }
}

/// An upload that fails says what failed: building the entry, sealing it or storing it.
pub proof fn law_failed_upload_says_why(
    namespace: String,
    key: MasterKey,
    wallets: Vec<WalletMetadata>,
    steps: Seq<Attempt<UploadWalletsFlow, Vec<String>>>,
    replies: Seq<Reply>,
    error: CloudBackupError,
)
    requires
        UploadWalletsFlow::began(namespace, key, wallets, steps[0]),
        is_conversation(steps, replies),
        steps.last() matches Progress::Done { value: Err(given), .. } && given == error,
    ensures
        replies.len() > 0 && match replies.last() {
            Reply::Returned(Outcome::Entry(Err(failure))) => error == failure,
            Reply::Sealed(Err(SealError::Crypto(why))) => error matches CloudBackupError::Crypto(
                text,
            ) && text@ == why@,
            Reply::Sealed(Err(SealError::Encode(why))) => error matches CloudBackupError::Internal(
                text,
            ) && text@ == why@,
            Reply::Stored(Err(failure)) => error matches CloudBackupError::Cloud(text) && text@
                == failure.text()@,
            _ => false,
        },
{
    lemma_upload_order(namespace, key, wallets, steps, replies, steps.len() - 1);
}

/// A backup that is recorded as enabled is so with the time that the clock gave and the number of
/// wallets that the caller gave; the recording succeeds if and only if the record was written.
pub proof fn law_enabled_record_holds_time_and_count(
    count: u32,
    steps: Seq<Attempt<PersistEnabledFlow, ()>>,
    replies: Seq<Reply>,
    value: Result<(), CloudBackupError>,
)
    requires
        PersistEnabledFlow::began(count, steps[0]),
        is_conversation(steps, replies),
        steps.last() matches Progress::Done { value: given, .. } && given == value,
    ensures
        replies.len() == 2,
        steps[0].requests(Request::ReadClock),
        replies[0] matches Reply::Time(now) && steps[1].requests(
            Request::SaveCloudBackup(
                CloudBackup::Enabled { last_sync: Some(now), wallet_count: Some(count) },
            ),
        ),
        replies[1] matches Reply::Written(written) && match written {
            Ok(_) => value is Ok,
            Err(why) => value matches Err(CloudBackupError::Internal(text)) && text@
                == "persist cloud backup state"@ + ": "@ + why@,
        },
{
    assert(continues(steps[0], replies[0], steps[1]));
    assert(continues(steps[1], replies[1], steps[2]));
    lemma_stop_is_last(steps, replies, 2);
}

/// A backup of wallets uploads exactly these, with the master key of the key store, to the
/// namespace that the keychain names; what was uploaded is watched there, and the record counts the
/// wallets on top of those that it counted before, if it counted any.
pub proof fn law_backup_uploads_watches_and_counts(
    wallets: Vec<WalletMetadata>,
    steps: Seq<Attempt<BackupWalletsFlow, ()>>,
    replies: Seq<Reply>,
)
    requires
        wallets@.len() > 0,
        BackupWalletsFlow::began(wallets, steps[0]),
        is_conversation(steps, replies),
        steps.last() matches Progress::Done { value: Ok(_), .. },
    ensures
        replies.len() == 6,
        steps[0].requests(Request::ReadKeychain(KeychainKey::NamespaceId)),
        steps[1].requests(Request::GetOrCreateMasterKey),
        replies[0] matches Reply::Keychain(Some(namespace)) && (
        replies[1] matches Reply::MasterKey(Ok(key)) && (replies[2] matches Reply::Returned(
            Outcome::Uploaded(Ok(record_ids)),
        ) && {
            &&& steps[2].requests(
                Request::Call(Operation::UploadWallets { namespace, key, wallets }),
            )
            &&& steps[3].requests(
                Request::Call(Operation::EnqueueUploads { namespace, record_ids }),
            )
        })),
        replies[3] matches Reply::Returned(Outcome::Finished(Ok(_))),
        steps[4].requests(Request::ReadCloudBackup),
        replies[4] matches Reply::CloudBackup(current) && {
            let counted: u32 = match current {
                CloudBackup::Enabled { wallet_count: Some(count), .. } => count,
                CloudBackup::Unverified { wallet_count: Some(count), .. } => count,
                _ => 0,
            };
            steps[5] matches Progress::Ask {
                request: Request::Call(Operation::PersistEnabled { wallet_count }),
                ..
            } && wallet_count == counted + (wallets@.len() as u32)
        },
        replies[5] matches Reply::Returned(Outcome::Finished(Ok(_))),
{
    assert(continues(steps[0], replies[0], steps[1]));
    assert(continues(steps[1], replies[1], steps[2]));
    assert(continues(steps[2], replies[2], steps[3]));
    assert(continues(steps[3], replies[3], steps[4]));
    assert(continues(steps[4], replies[4], steps[5]));
    assert(continues(steps[5], replies[5], steps[6]));
    lemma_stop_is_last(steps, replies, 6);
}

/// A backup of no wallets is nothing; a backup that fails says what failed, and neither a sync nor
/// a backup of wallets tells the user anything itself.
pub proof fn law_failed_backup_says_why(
    wallets: Vec<WalletMetadata>,
    steps: Seq<Attempt<BackupWalletsFlow, ()>>,
    replies: Seq<Reply>,
    effects: Vec<Effect>,
    value: Result<(), CloudBackupError>,
)
    requires
        BackupWalletsFlow::began(wallets, steps[0]),
        is_conversation(steps, replies),
        steps.last() matches Progress::Done { effects: told, value: given } && given == value
            && told == effects,
    ensures
        effects@.len() == 0,
        wallets@.len() == 0 ==> replies.len() == 0 && value is Ok,
        value matches Err(error) ==> replies.len() > 0 && match replies.last() {
            Reply::Keychain(None) => error matches CloudBackupError::Internal(text) && text@
                == "namespace_id not found in keychain"@,
            Reply::MasterKey(Err(why)) => error matches CloudBackupError::Internal(text) && text@
                == "master key"@ + ": "@ + why@,
            Reply::Returned(Outcome::Uploaded(Err(failure))) => error == failure,
            Reply::Returned(Outcome::Finished(Err(failure))) => error == failure,
            _ => false,
        },
{
    if replies.len() > 0 {
        let end = replies.len() - 1;
        assert(continues(steps[0], replies[0], steps[1]));
        assert(continues(steps[end], replies[end], steps[end + 1]));
    }
}

/// Whether a wallet is on its way to the cloud or there: the listing has its record, or its upload
/// is being watched, unless the watched record is that of the master key.
pub open spec fn is_accounted_for(
    wallet: WalletMetadata,
    listed: Seq<String>,
    watched: Seq<PendingCloudUploadBlob>,
    master_key_record: Seq<char>,
) -> bool {
    ||| exists|i: int| 0 <= i < listed.len() && (#[trigger] listed[i])@ == wallet.record_id@
    ||| wallet.record_id@ != master_key_record && exists|i: int|
        0 <= i < watched.len() && (#[trigger] watched[i]).record_id@ == wallet.record_id@
}

proof fn lemma_accounted_for(
    wallet: WalletMetadata,
    listed: Seq<String>,
    watched: Seq<PendingCloudUploadBlob>,
    id: Seq<char>,
)
    ensures
        backed_up_records(listed, watched, id).contains(wallet.record_id@) <==> is_accounted_for(
            wallet,
            listed,
            watched,
            id,
        ),
        texts(listed).contains(wallet.record_id@) <==> is_accounted_for(
            wallet,
            listed,
            Seq::empty(),
            id,
        ),
{
    let record_id = wallet.record_id@;
    law_backed_up_records(listed, watched, id, record_id);
    if texts(listed).contains(record_id) {
        let at = texts(listed).index_of(record_id);
        assert(listed[at]@ == record_id);
    }
    if queued_ids(watched).contains(record_id) {
        let at = queued_ids(watched).index_of(record_id);
        assert(watched[at].record_id@ == record_id);
    }
    if exists|i: int| 0 <= i < listed.len() && (#[trigger] listed[i])@ == record_id {
        let i = choose|i: int| 0 <= i < listed.len() && (#[trigger] listed[i])@ == record_id;
        assert(texts(listed)[i] == record_id);
    }
    if exists|i: int| 0 <= i < watched.len() && (#[trigger] watched[i]).record_id@ == record_id {
        let i = choose|i: int|
            0 <= i < watched.len() && (#[trigger] watched[i]).record_id@ == record_id;
        assert(queued_ids(watched)[i] == record_id);
    }
}

/// A sync backs up exactly the wallets of this device, in their order, that are neither listed in
/// the keychain's namespace nor on their way there; if there are none, it does nothing.
pub proof fn law_sync_backs_up_what_is_missing(
    steps: Seq<Attempt<SyncFlow, ()>>,
    replies: Seq<Reply>,
)
    requires
        SyncFlow::began(steps[0]),
        is_conversation(steps, replies),
        steps.last() matches Progress::Done { value: Ok(_), .. },
    ensures
        steps[0].requests(Request::ReadKeychain(KeychainKey::NamespaceId)),
        replies[0] matches Reply::Keychain(Some(namespace)) && steps[1].requests(
            Request::ListWalletBackups { namespace },
        ),
        replies[1] matches Reply::Listed(Ok(listed)) && (
        replies[2] matches Reply::PendingUploads(read) && ({
            let (watched, id, at) = match (read, replies[3]) {
                (Ok(Some(queue)), Reply::RecordId(id)) => (queue.blobs@, id@, 4int),
                (_, _) => (Seq::empty(), Seq::empty(), 3int),
            };
            &&& steps[2].requests(Request::ReadPendingUploads)
            &&& at == 4 ==> steps[3].requests(Request::ReadMasterKeyRecordId)
            &&& (read matches Ok(Some(_))) <==> at == 4
            &&& steps[at].requests(Request::ReadLocalWallets)
            &&& replies[at] matches Reply::LocalWallets(wallets) && {
                let missing = wallets@.filter(
                    |wallet: WalletMetadata| !is_accounted_for(wallet, listed@, watched, id),
                );
                if missing.len() == 0 {
                    replies.len() == at + 1
                } else {
                    &&& replies.len() == at + 2
                    &&& steps[at + 1] matches Progress::Ask {
                        request: Request::Call(Operation::BackupWallets { wallets: sent }),
                        ..
                    } && sent@ == missing
                    &&& replies[at + 1] matches Reply::Returned(Outcome::Finished(Ok(_)))
                }
            }
        })),
{
    assert(continues(steps[0], replies[0], steps[1]));
    assert(continues(steps[1], replies[1], steps[2]));
    assert(continues(steps[2], replies[2], steps[3]));
    let listed = match replies[1] {
        Reply::Listed(Ok(listed)) => listed@,
        _ => Seq::empty(),
    };
    let (watched, id, at) = match (replies[2], replies[3]) {
        (Reply::PendingUploads(Ok(Some(queue))), Reply::RecordId(id)) => (queue.blobs@, id@, 4int),
        (_, _) => (Seq::empty(), Seq::empty(), 3int),
    };
    assert(continues(steps[3], replies[3], steps[4]));
    if at == 4 {
        assert(continues(steps[4], replies[4], steps[5]));
    }
    if let Reply::LocalWallets(wallets) = replies[at] {
        let records = if at == 4 {
            backed_up_records(listed, watched, id)
        } else {
            texts(listed)
        };
        let absent = |wallet: WalletMetadata| !records.contains(wallet.record_id@);
        let missing = |wallet: WalletMetadata| !is_accounted_for(wallet, listed, watched, id);
        assert forall|wallet: WalletMetadata| #[trigger] absent(wallet) == missing(wallet) by {
            lemma_accounted_for(wallet, listed, watched, id);
        }
        assert(absent =~= missing);
    }
    if steps[at + 1] is Ask {
        assert(continues(steps[at + 1], replies[at + 1], steps[at + 2]));
        lemma_stop_is_last(steps, replies, at + 2);
    } else {
        lemma_stop_is_last(steps, replies, at + 1);
    }
}

/// A sync that fails says what failed.
pub proof fn law_failed_sync_says_why(
    steps: Seq<Attempt<SyncFlow, ()>>,
    replies: Seq<Reply>,
    error: CloudBackupError,
)
    requires
        SyncFlow::began(steps[0]),
        is_conversation(steps, replies),
        steps.last() matches Progress::Done { value: Err(given), .. } && given == error,
    ensures
        match replies.last() {
            Reply::Keychain(None) => error matches CloudBackupError::Internal(text) && text@
                == "namespace_id not found in keychain"@,
            Reply::Listed(Err(why)) => error matches CloudBackupError::Cloud(text) && text@
                == why.text()@,
            Reply::Returned(Outcome::Finished(Err(failure))) => error == failure,
            _ => false,
        },
{
    let end = replies.len() - 1;
    assert(continues(steps[end], replies[end], steps[end + 1]));
}

/// A re-upload sends every wallet of this device with the master key of the key store to the
/// namespace that the keychain names, records how many were sent, and has them all watched there.
pub proof fn law_reupload_sends_every_wallet(
    steps: Seq<Attempt<ReuploadFlow, ()>>,
    replies: Seq<Reply>,
)
    requires
        ReuploadFlow::began(steps[0]),
        is_conversation(steps, replies),
        steps.last() matches Progress::Done { value: Ok(_), .. },
    ensures
        replies.len() == 6,
        steps[0].requests(Request::ReadKeychain(KeychainKey::NamespaceId)),
        steps[1].requests(Request::GetOrCreateMasterKey),
        steps[2].requests(Request::ReadLocalWallets),
        replies[0] matches Reply::Keychain(Some(namespace)) && (
        replies[1] matches Reply::MasterKey(Ok(key)) && (replies[2] matches Reply::LocalWallets(
            wallets,
        ) && (replies[3] matches Reply::Returned(Outcome::Uploaded(Ok(record_ids))) && {
            &&& steps[3].requests(
                Request::Call(Operation::UploadWallets { namespace, key, wallets }),
            )
            &&& steps[4].requests(
                Request::Call(Operation::PersistEnabled { wallet_count: record_ids@.len() as u32 }),
            )
            &&& steps[5].requests(
                Request::Call(Operation::EnqueueUploads { namespace, record_ids }),
            )
        }))),
        replies[4] matches Reply::Returned(Outcome::Finished(Ok(_))),
        replies[5] matches Reply::Returned(Outcome::Finished(Ok(_))),
{
    assert(continues(steps[0], replies[0], steps[1]));
    assert(continues(steps[1], replies[1], steps[2]));
    assert(continues(steps[2], replies[2], steps[3]));
    assert(continues(steps[3], replies[3], steps[4]));
    assert(continues(steps[4], replies[4], steps[5]));
    assert(continues(steps[5], replies[5], steps[6]));
    lemma_stop_is_last(steps, replies, 6);
}

/// A re-upload that fails says what failed.
pub proof fn law_failed_reupload_says_why(
    steps: Seq<Attempt<ReuploadFlow, ()>>,
    replies: Seq<Reply>,
    error: CloudBackupError,
)
    requires
        ReuploadFlow::began(steps[0]),
        is_conversation(steps, replies),
        steps.last() matches Progress::Done { value: Err(given), .. } && given == error,
    ensures
        match replies.last() {
            Reply::Keychain(None) => error matches CloudBackupError::Internal(text) && text@
                == "namespace_id not found in keychain"@,
            Reply::MasterKey(Err(why)) => error matches CloudBackupError::Internal(text) && text@
                == "master key"@ + ": "@ + why@,
            Reply::Returned(Outcome::Uploaded(Err(failure))) => error == failure,
            Reply::Returned(Outcome::Finished(Err(failure))) => error == failure,
            _ => false,
        },
{
    let end = replies.len() - 1;
    assert(continues(steps[end], replies[end], steps[end + 1]));
}

/// A new wallet is backed up by itself; only if that fails are all wallets synced, and only if that
/// fails too is the user told, in the words of the second failure.
pub proof fn law_new_wallet_is_backed_up_or_synced(
    wallet: WalletMetadata,
    steps: Seq<Progress<BackupNewWalletFlow, ()>>,
    replies: Seq<Reply>,
    effects: Vec<Effect>,
)
    requires
        BackupNewWalletFlow::began(wallet, steps[0]),
        is_conversation(steps, replies),
        steps.last() matches Progress::Done { effects: told, .. } && told == effects,
    ensures
        steps[0] matches Progress::Ask {
            request: Request::Call(Operation::BackupWallets { wallets }),
            ..
        } && wallets@ == seq![wallet],
        replies[0] matches Reply::Returned(Outcome::Finished(first)) && match first {
            Ok(_) => replies.len() == 1 && effects@.len() == 0,
            Err(_) => {
                &&& replies.len() == 2
                &&& steps[1].requests(Request::Call(Operation::SyncUnsyncedWallets))
                &&& replies[1] matches Reply::Returned(Outcome::Finished(second))
                &&& match second {
                    Ok(_) => effects@.len() == 0,
                    Err(error) => {
                        &&& effects@.len() == 1
                        &&& effects@[0] matches Effect::Notify(
                            CloudBackupReconcileMessage::SyncFailed(text),
                        )
                        &&& text@ == error@.message()
                    },
                }
            },
        },
{
    assert(continues(steps[0], replies[0], steps[1]));
    if steps[1] is Ask {
        assert(continues(steps[1], replies[1], steps[2]));
        lemma_stop_is_last(steps, replies, 2);
    } else {
        lemma_stop_is_last(steps, replies, 1);
    }
}

} // verus!
