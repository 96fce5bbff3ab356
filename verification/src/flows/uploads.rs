//! Sending wallets to the cloud.

pub mod laws;

use vstd::prelude::*;

use crate::error::{
    from_seal_error, from_storage_error, internal_error, seal_failure, CloudBackupErrorView,
};
use crate::protocol::{
    current_namespace_id, fail, fails, namespace_missing, one_effect, Attempt, Effect, KeychainKey,
    Operation, Outcome, Progress, Reply, Request,
};
use crate::record::CloudBackup;
use crate::sequences::{lemma_filter_contains, lemma_filter_ends, lemma_filter_take};
use crate::state::CloudBackupReconcileMessage;
use crate::text::{prefixed_text, texts};
use crate::upload_queue::{queued_ids, PendingCloudUploadBlob, PendingCloudUploadVerification};
use crate::wallet::{
    law_missing_wallets, missing_wallets, record_ids, record_ids_of, wallets_missing_from,
    MasterKey, WalletMetadata,
};

verus! {

/// Encrypts wallets one after the other and hands each to the cloud.
pub struct UploadWalletsFlow {
    pub namespace: String,
    pub key: MasterKey,
    pub wallets: Vec<WalletMetadata>,
    /// The wallet being uploaded; those before it are in the cloud.
    pub index: usize,
    pub phase: UploadWalletsPhase,
}

/// How far the current wallet is.
#[derive(Debug, Clone, Copy, PartialEq, Eq, Structural)]
pub enum UploadWalletsPhase {
    Entry,
    Seal,
    Upload,
}

impl UploadWalletsFlow {
    /// There is a current wallet.
    pub open spec fn wf(self) -> bool {
        self.index < self.wallets@.len()
    }

    /// The request for what the backup of a wallet holds.
    pub open spec fn entry_request(wallet: WalletMetadata) -> Request {
        Request::Call(Operation::BuildWalletEntry { wallet, mode: wallet.wallet_mode })
    }

    /// The first wallet, or the end where there is none.
    pub open spec fn began(
        namespace: String,
        key: MasterKey,
        wallets: Vec<WalletMetadata>,
        progress: Attempt<Self, Vec<String>>,
    ) -> bool {
        if wallets@.len() == 0 {
            Self::uploaded(wallets@, progress)
        } else {
            progress.asks(
                UploadWalletsFlow {
                    namespace,
                    key,
                    wallets,
                    index: 0,
                    phase: UploadWalletsPhase::Entry,
                },
                Self::entry_request(wallets@[0]),
            )
        }
    }

    /// The end, with the record of every wallet.
    pub open spec fn uploaded(
        wallets: Seq<WalletMetadata>,
        progress: Attempt<Self, Vec<String>>,
    ) -> bool {
        &&& progress matches Progress::Done { effects, value: Ok(ids) }
        &&& effects@ == Seq::<Effect>::empty()
        &&& ids@ == record_ids_of(wallets)
    }

    /// What follows a reply.
    pub open spec fn next(self, reply: Reply, progress: Attempt<Self, Vec<String>>) -> bool {
        match (self.phase, reply) {
            (UploadWalletsPhase::Entry, Reply::Returned(Outcome::Entry(Ok(entry)))) =>
                progress.asks(
                UploadWalletsFlow { phase: UploadWalletsPhase::Seal, ..self },
                Request::SealWallet { entry, key: self.key },
            ),
            (UploadWalletsPhase::Entry, Reply::Returned(Outcome::Entry(Err(error)))) =>
                progress.ends(Err(error)),
            (UploadWalletsPhase::Seal, Reply::Sealed(Ok(bytes))) => progress.asks(
                UploadWalletsFlow { phase: UploadWalletsPhase::Upload, ..self },
                Request::UploadWalletBackup {
                    namespace: self.namespace,
                    record_id: self.wallets@[self.index as int].record_id,
                    bytes,
                },
            ),
            (UploadWalletsPhase::Seal, Reply::Sealed(Err(error))) => fails(
                progress,
                seal_failure(error),
            ),
            (UploadWalletsPhase::Upload, Reply::Stored(Ok(_))) => if self.index + 1
                < self.wallets@.len() {
                progress.asks(
                    UploadWalletsFlow {
                        index: (self.index + 1) as usize,
                        phase: UploadWalletsPhase::Entry,
                        ..self
                    },
                    Self::entry_request(self.wallets@[self.index + 1]),
                )
            } else {
                Self::uploaded(self.wallets@, progress)
            },
            (UploadWalletsPhase::Upload, Reply::Stored(Err(error))) => fails(
                progress,
                CloudBackupErrorView::Cloud(error.text()@),
            ),
            _ => progress.refuses(self),
        }
    }

    fn begin_wallet(
        namespace: String,
        key: MasterKey,
        wallets: Vec<WalletMetadata>,
        index: usize,
    ) -> (progress: Attempt<Self, Vec<String>>)
        ensures
            index < wallets@.len() ==> progress.asks(
                UploadWalletsFlow {
                    namespace,
                    key,
                    wallets,
                    index,
                    phase: UploadWalletsPhase::Entry,
                },
                Self::entry_request(wallets@[index as int]),
            ),
            index >= wallets@.len() ==> Self::uploaded(wallets@, progress),
    {
        if index < wallets.len() {
            let wallet: WalletMetadata = wallets[index].clone();
            let mode = wallet.wallet_mode;
            Progress::ask(
                UploadWalletsFlow {
                    namespace,
                    key,
                    wallets,
                    index,
                    phase: UploadWalletsPhase::Entry,
                },
                Request::Call(Operation::BuildWalletEntry { wallet, mode }),
            )
        } else {
            Progress::end(Ok(record_ids(&wallets)))
        }
    }

    /// Starts with the first wallet.
    pub fn start(
        namespace: String,
        key: MasterKey,
        wallets: Vec<WalletMetadata>,
    ) -> (progress: Attempt<Self, Vec<String>>)
        ensures
            Self::began(namespace, key, wallets, progress),
    {
        Self::begin_wallet(namespace, key, wallets, 0)
    }

    /// Goes on with a reply.
    pub fn step(self, reply: Reply) -> (progress: Attempt<Self, Vec<String>>)
        requires
            self.wf(),
        ensures
            self.next(reply, progress),
            progress matches Progress::Ask { flow, .. } ==> flow.wf(),
            progress matches Progress::Refused { flow } ==> flow.wf(),
    {
        let UploadWalletsFlow { namespace, key, wallets, index, phase } = self;
        assert(index < wallets.len());
        match (phase, reply) {
            (UploadWalletsPhase::Entry, Reply::Returned(Outcome::Entry(Ok(entry)))) => {
                let sealing: MasterKey = key.clone();
                Progress::ask(
                    UploadWalletsFlow {
                        namespace,
                        key,
                        wallets,
                        index,
                        phase: UploadWalletsPhase::Seal,
                    },
                    Request::SealWallet { entry, key: sealing },
                )
            },
            (UploadWalletsPhase::Entry, Reply::Returned(Outcome::Entry(Err(error)))) =>
                Progress::end(Err(error)),
            (UploadWalletsPhase::Seal, Reply::Sealed(Ok(bytes))) => {
                let target: String = namespace.clone();
                let record_id: String = wallets[index].record_id.clone();
                Progress::ask(
                    UploadWalletsFlow {
                        namespace,
                        key,
                        wallets,
                        index,
                        phase: UploadWalletsPhase::Upload,
                    },
                    Request::UploadWalletBackup { namespace: target, record_id, bytes },
                )
            },
            (UploadWalletsPhase::Seal, Reply::Sealed(Err(error))) => fail(from_seal_error(error)),
            (UploadWalletsPhase::Upload, Reply::Stored(Ok(_))) => Self::begin_wallet(
                namespace,
                key,
                wallets,
                index + 1,
            ),
            (UploadWalletsPhase::Upload, Reply::Stored(Err(error))) => fail(
                from_storage_error(error),
            ),
            (phase, _) => Progress::Refused {
                flow: UploadWalletsFlow { namespace, key, wallets, index, phase },
            },
        }
    }
}

/// Records that the backup is enabled, synced now, and holds so many wallets.
pub enum PersistEnabledFlow {
    Clock { wallet_count: u32 },
    Save,
}

impl PersistEnabledFlow {
    /// What follows a reply.
    pub open spec fn next(self, reply: Reply, progress: Attempt<Self, ()>) -> bool {
        match (self, reply) {
            (PersistEnabledFlow::Clock { wallet_count }, Reply::Time(now)) => progress.asks(
                PersistEnabledFlow::Save,
                Request::SaveCloudBackup(
                    CloudBackup::Enabled { last_sync: Some(now), wallet_count: Some(wallet_count) },
                ),
            ),
            (PersistEnabledFlow::Save, Reply::Written(Ok(_))) => progress.ends(Ok(())),
            (PersistEnabledFlow::Save, Reply::Written(Err(error))) => fails(
                progress,
                CloudBackupErrorView::Internal(
                    prefixed_text("persist cloud backup state"@, error@),
                ),
            ),
            _ => progress.refuses(self),
        }
    }

    /// The first step.
    pub open spec fn began(wallet_count: u32, progress: Attempt<Self, ()>) -> bool {
        progress.asks(PersistEnabledFlow::Clock { wallet_count }, Request::ReadClock)
    }

    /// Starts with the time.
    pub fn start(wallet_count: u32) -> (progress: Attempt<Self, ()>)
        ensures
            Self::began(wallet_count, progress),
    {
        Progress::ask(PersistEnabledFlow::Clock { wallet_count }, Request::ReadClock)
    }

    /// Goes on with a reply.
    pub fn step(self, reply: Reply) -> (progress: Attempt<Self, ()>)
        ensures
            self.next(reply, progress),
    {
        match (self, reply) {
            (PersistEnabledFlow::Clock { wallet_count }, Reply::Time(now)) => Progress::ask(
                PersistEnabledFlow::Save,
                Request::SaveCloudBackup(
                    CloudBackup::Enabled { last_sync: Some(now), wallet_count: Some(wallet_count) },
                ),
            ),
            (PersistEnabledFlow::Save, Reply::Written(Ok(_))) => Progress::end(Ok(())),
            (PersistEnabledFlow::Save, Reply::Written(Err(error))) => fail(
                internal_error("persist cloud backup state", &error),
            ),
            (flow, _) => Progress::Refused { flow },
        }
    }
}

/// Uploads wallets and adds them to the record.
pub enum BackupWalletsFlow {
    Namespace { wallets: Vec<WalletMetadata> },
    Key { wallets: Vec<WalletMetadata>, namespace: String },
    Upload { count: usize, namespace: String },
    Enqueue { count: usize },
    Count { count: usize },
    Persist,
}

impl BackupWalletsFlow {
    /// Nothing for no wallets.
    pub open spec fn began(wallets: Vec<WalletMetadata>, progress: Attempt<Self, ()>) -> bool {
        if wallets@.len() == 0 {
            progress.ends(Ok(()))
        } else {
            progress.asks(
                BackupWalletsFlow::Namespace { wallets },
                Request::ReadKeychain(KeychainKey::NamespaceId),
            )
        }
    }

    /// What follows a reply. A number of wallets that the record cannot hold is refused.
    pub open spec fn next(self, reply: Reply, progress: Attempt<Self, ()>) -> bool {
        match (self, reply) {
            (BackupWalletsFlow::Namespace { wallets }, Reply::Keychain(Some(namespace))) =>
                progress.asks(
                BackupWalletsFlow::Key { wallets, namespace },
                Request::GetOrCreateMasterKey,
            ),
            (BackupWalletsFlow::Namespace { wallets }, Reply::Keychain(None)) => fails(
                progress,
                namespace_missing(),
            ),
            (BackupWalletsFlow::Key { wallets, namespace }, Reply::MasterKey(Ok(key))) =>
                progress.asks(
                BackupWalletsFlow::Upload { count: wallets.len(), namespace },
                Request::Call(Operation::UploadWallets { namespace, key, wallets }),
            ),
            (BackupWalletsFlow::Key { wallets, namespace }, Reply::MasterKey(Err(error))) => fails(
                progress,
                CloudBackupErrorView::Internal(prefixed_text("master key"@, error@)),
            ),
            (
                BackupWalletsFlow::Upload { count, namespace },
                Reply::Returned(Outcome::Uploaded(Ok(record_ids))),
            ) => progress.asks(
                BackupWalletsFlow::Enqueue { count },
                Request::Call(Operation::EnqueueUploads { namespace, record_ids }),
            ),
            (
                BackupWalletsFlow::Upload { count, namespace },
                Reply::Returned(Outcome::Uploaded(Err(error))),
            ) => progress.ends(Err(error)),
            (
                BackupWalletsFlow::Enqueue { count },
                Reply::Returned(Outcome::Finished(Ok(_))),
            ) => progress.asks(BackupWalletsFlow::Count { count }, Request::ReadCloudBackup),
            (
                BackupWalletsFlow::Enqueue { count },
                Reply::Returned(Outcome::Finished(Err(error))),
            ) => progress.ends(Err(error)),
            (BackupWalletsFlow::Count { count }, Reply::CloudBackup(current)) => {
                let total = current.synced_count() + (count as u32);
                if total <= u32::MAX {
                    progress.asks(
                        BackupWalletsFlow::Persist,
                        Request::Call(Operation::PersistEnabled { wallet_count: total as u32 }),
                    )
                } else {
                    progress.refuses(self)
                }
            },
            (BackupWalletsFlow::Persist, Reply::Returned(Outcome::Finished(result))) =>
                progress.ends(result),
            _ => progress.refuses(self),
        }
    }

    /// Starts with the namespace.
    pub fn start(wallets: Vec<WalletMetadata>) -> (progress: Attempt<Self, ()>)
        ensures
            Self::began(wallets, progress),
    {
        if wallets.is_empty() {
            Progress::end(Ok(()))
        } else {
            Progress::ask(
                BackupWalletsFlow::Namespace { wallets },
                Request::ReadKeychain(KeychainKey::NamespaceId),
            )
        }
    }

    /// Goes on with a reply.
    pub fn step(self, reply: Reply) -> (progress: Attempt<Self, ()>)
        ensures
            self.next(reply, progress),
    {
        match (self, reply) {
            (BackupWalletsFlow::Namespace { wallets }, Reply::Keychain(stored)) => {
                match current_namespace_id(stored) {
                    Ok(namespace) => Progress::ask(
                        BackupWalletsFlow::Key { wallets, namespace },
                        Request::GetOrCreateMasterKey,
                    ),
                    Err(error) => fail(error),
                }
            },
            (BackupWalletsFlow::Key { wallets, namespace }, Reply::MasterKey(Ok(key))) => {
                let count: usize = wallets.len();
                let target: String = namespace.clone();
                Progress::ask(
                    BackupWalletsFlow::Upload { count, namespace },
                    Request::Call(Operation::UploadWallets { namespace: target, key, wallets }),
                )
            },
            (BackupWalletsFlow::Key { .. }, Reply::MasterKey(Err(error))) => fail(
                internal_error("master key", &error),
            ),
            (
                BackupWalletsFlow::Upload { count, namespace },
                Reply::Returned(Outcome::Uploaded(Ok(record_ids))),
            ) => Progress::ask(
                BackupWalletsFlow::Enqueue { count },
                Request::Call(Operation::EnqueueUploads { namespace, record_ids }),
            ),
            (
                BackupWalletsFlow::Upload { .. },
                Reply::Returned(Outcome::Uploaded(Err(error))),
            ) => Progress::end(Err(error)),
            (
                BackupWalletsFlow::Enqueue { count },
                Reply::Returned(Outcome::Finished(Ok(_))),
            ) => Progress::ask(BackupWalletsFlow::Count { count }, Request::ReadCloudBackup),
            (
                BackupWalletsFlow::Enqueue { .. },
                Reply::Returned(Outcome::Finished(Err(error))),
            ) => Progress::end(Err(error)),
            (BackupWalletsFlow::Count { count }, Reply::CloudBackup(current)) => {
                let added: u32 = count as u32;
                match current.get_synced_count().checked_add(added) {
                    Some(wallet_count) => Progress::ask(
                        BackupWalletsFlow::Persist,
                        Request::Call(Operation::PersistEnabled { wallet_count }),
                    ),
                    None => Progress::Refused { flow: BackupWalletsFlow::Count { count } },
                }
            },
            (BackupWalletsFlow::Persist, Reply::Returned(Outcome::Finished(result))) =>
                Progress::end(result),
            (flow, _) => Progress::Refused { flow },
        }
    }
}

/// Whether a record is another one than `record_id`.
pub open spec fn other_than(record_id: Seq<char>) -> spec_fn(Seq<char>) -> bool {
    |other: Seq<char>| other != record_id
}

/// The records that count as backed up: those listed, and those whose upload is still being
/// watched, except the record of the master key.
pub open spec fn backed_up_records(
    listed: Seq<String>,
    blobs: Seq<PendingCloudUploadBlob>,
    master_key_id: Seq<char>,
) -> Seq<Seq<char>> {
    texts(listed) + queued_ids(blobs).filter(other_than(master_key_id))
}

/// Adds the records whose upload is still being watched to those listed.
fn with_pending_records(
    listed: Vec<String>,
    queue: &PendingCloudUploadVerification,
    master_key_id: &String,
) -> (records: Vec<String>)
    ensures
        texts(records@) == backed_up_records(listed@, queue.blobs@, master_key_id@),
{
    let ghost ids = queued_ids(queue.blobs@);
    let ghost keep = other_than(master_key_id@);
    let mut records: Vec<String> = listed;
    let mut i: usize = 0;
    proof {
        lemma_filter_ends(ids, keep);
        assert(texts(records@) =~= texts(listed@) + ids.take(0).filter(keep));
    }
    while i < queue.blobs.len()
        invariant
            i <= queue.blobs@.len(),
            ids == queued_ids(queue.blobs@),
            keep == other_than(master_key_id@),
            texts(records@) == texts(listed@) + ids.take(i as int).filter(keep),
        decreases queue.blobs@.len() - i,
    {
        proof {
            lemma_filter_take(ids, i as int, keep);
        }
        let ghost before = records@;
        if !(queue.blobs[i].record_id == *master_key_id) {
            records.push(queue.blobs[i].record_id.clone());
            assert(texts(records@) =~= texts(before).push(ids[i as int]));
        }
        assert(texts(records@) =~= texts(listed@) + ids.take(i + 1).filter(keep));
        i += 1;
    }
    records
}

/// Backs up the local wallets that the cloud does not hold.
pub enum SyncFlow {
    Namespace,
    Listing,
    Pending { listed: Vec<String> },
    MasterKeyRecord { listed: Vec<String>, queue: PendingCloudUploadVerification },
    Wallets { records: Vec<String> },
    Backup,
}

impl SyncFlow {
    /// What follows a reply. A queue that cannot be read counts as empty.
    pub open spec fn next(self, reply: Reply, progress: Attempt<Self, ()>) -> bool {
        match (self, reply) {
            (SyncFlow::Namespace, Reply::Keychain(Some(namespace))) => progress.asks(
                SyncFlow::Listing,
                Request::ListWalletBackups { namespace },
            ),
            (SyncFlow::Namespace, Reply::Keychain(None)) => fails(progress, namespace_missing()),
            (SyncFlow::Listing, Reply::Listed(Ok(listed))) => progress.asks(
                SyncFlow::Pending { listed },
                Request::ReadPendingUploads,
            ),
            (SyncFlow::Listing, Reply::Listed(Err(error))) => fails(
                progress,
                CloudBackupErrorView::Cloud(error.text()@),
            ),
            (SyncFlow::Pending { listed }, Reply::PendingUploads(Ok(Some(queue)))) => progress.asks(
                SyncFlow::MasterKeyRecord { listed, queue },
                Request::ReadMasterKeyRecordId,
            ),
            (SyncFlow::Pending { listed }, Reply::PendingUploads(_)) => progress.asks(
                SyncFlow::Wallets { records: listed },
                Request::ReadLocalWallets,
            ),
            (SyncFlow::MasterKeyRecord { listed, queue }, Reply::RecordId(id)) => {
                &&& progress matches Progress::Ask {
                    flow: SyncFlow::Wallets { records },
                    effects,
                    request,
                }
                &&& texts(records@) == backed_up_records(listed@, queue.blobs@, id@)
                &&& effects@ == Seq::<Effect>::empty()
                &&& request == Request::ReadLocalWallets
            },
            (SyncFlow::Wallets { records }, Reply::LocalWallets(wallets)) => {
                let unsynced = wallets_missing_from(wallets@, texts(records@));
                if unsynced.len() == 0 {
                    progress.ends(Ok(()))
                } else {
                    &&& progress matches Progress::Ask {
                        flow,
                        effects,
                        request: Request::Call(Operation::BackupWallets { wallets: sent }),
                    }
                    &&& flow == SyncFlow::Backup
                    &&& effects@ == Seq::<Effect>::empty()
                    &&& sent@ == unsynced
                }
            },
            (SyncFlow::Backup, Reply::Returned(Outcome::Finished(result))) => progress.ends(result),
            _ => progress.refuses(self),
        }
    }

    /// The first step.
    pub open spec fn began(progress: Attempt<Self, ()>) -> bool {
        progress.asks(SyncFlow::Namespace, Request::ReadKeychain(KeychainKey::NamespaceId))
    }

    /// Starts with the namespace.
    pub fn start() -> (progress: Attempt<Self, ()>)
        ensures
            Self::began(progress),
    {
        Progress::ask(SyncFlow::Namespace, Request::ReadKeychain(KeychainKey::NamespaceId))
    }

    /// Goes on with a reply.
    pub fn step(self, reply: Reply) -> (progress: Attempt<Self, ()>)
        ensures
            self.next(reply, progress),
    {
        match (self, reply) {
            (SyncFlow::Namespace, Reply::Keychain(stored)) => match current_namespace_id(stored) {
                Ok(namespace) => Progress::ask(
                    SyncFlow::Listing,
                    Request::ListWalletBackups { namespace },
                ),
                Err(error) => fail(error),
            },
            (SyncFlow::Listing, Reply::Listed(Ok(listed))) => Progress::ask(
                SyncFlow::Pending { listed },
                Request::ReadPendingUploads,
            ),
            (SyncFlow::Listing, Reply::Listed(Err(error))) => fail(from_storage_error(error)),
            (SyncFlow::Pending { listed }, Reply::PendingUploads(Ok(Some(queue)))) => Progress::ask(
                SyncFlow::MasterKeyRecord { listed, queue },
                Request::ReadMasterKeyRecordId,
            ),
            (SyncFlow::Pending { listed }, Reply::PendingUploads(_)) => Progress::ask(
                SyncFlow::Wallets { records: listed },
                Request::ReadLocalWallets,
            ),
            (SyncFlow::MasterKeyRecord { listed, queue }, Reply::RecordId(id)) => {
                let records: Vec<String> = with_pending_records(listed, &queue, &id);
                Progress::ask(SyncFlow::Wallets { records }, Request::ReadLocalWallets)
            },
            (SyncFlow::Wallets { records }, Reply::LocalWallets(wallets)) => {
                let unsynced: Vec<WalletMetadata> = missing_wallets(&wallets, &records);
                if unsynced.is_empty() {
                    Progress::end(Ok(()))
                } else {
                    Progress::ask(
                        SyncFlow::Backup,
                        Request::Call(Operation::BackupWallets { wallets: unsynced }),
                    )
                }
            },
            (SyncFlow::Backup, Reply::Returned(Outcome::Finished(result))) => Progress::end(result),
            (flow, _) => Progress::Refused { flow },
        }
    }
}

/// Re-uploads all local wallets with the master key of the keychain.
pub enum ReuploadFlow {
    Namespace,
    Key { namespace: String },
    Wallets { namespace: String, key: MasterKey },
    Upload { namespace: String },
    Persist { namespace: String, record_ids: Vec<String> },
    Enqueue,
}

impl ReuploadFlow {
    /// What follows a reply.
    pub open spec fn next(self, reply: Reply, progress: Attempt<Self, ()>) -> bool {
        match (self, reply) {
            (ReuploadFlow::Namespace, Reply::Keychain(Some(namespace))) => progress.asks(
                ReuploadFlow::Key { namespace },
                Request::GetOrCreateMasterKey,
            ),
            (ReuploadFlow::Namespace, Reply::Keychain(None)) => fails(
                progress,
                namespace_missing(),
            ),
            (ReuploadFlow::Key { namespace }, Reply::MasterKey(Ok(key))) => progress.asks(
                ReuploadFlow::Wallets { namespace, key },
                Request::ReadLocalWallets,
            ),
            (ReuploadFlow::Key { namespace }, Reply::MasterKey(Err(error))) => fails(
                progress,
                CloudBackupErrorView::Internal(prefixed_text("master key"@, error@)),
            ),
            (ReuploadFlow::Wallets { namespace, key }, Reply::LocalWallets(wallets)) =>
                progress.asks(
                ReuploadFlow::Upload { namespace },
                Request::Call(Operation::UploadWallets { namespace, key, wallets }),
            ),
            (
                ReuploadFlow::Upload { namespace },
                Reply::Returned(Outcome::Uploaded(Ok(record_ids))),
            ) => progress.asks(
                ReuploadFlow::Persist { namespace, record_ids },
                Request::Call(
                    Operation::PersistEnabled { wallet_count: record_ids.len() as u32 },
                ),
            ),
            (
                ReuploadFlow::Upload { namespace },
                Reply::Returned(Outcome::Uploaded(Err(error))),
            ) => progress.ends(Err(error)),
            (
                ReuploadFlow::Persist { namespace, record_ids },
                Reply::Returned(Outcome::Finished(Ok(_))),
            ) => progress.asks(
                ReuploadFlow::Enqueue,
                Request::Call(Operation::EnqueueUploads { namespace, record_ids }),
            ),
            (
                ReuploadFlow::Persist { namespace, record_ids },
                Reply::Returned(Outcome::Finished(Err(error))),
            ) => progress.ends(Err(error)),
            (ReuploadFlow::Enqueue, Reply::Returned(Outcome::Finished(result))) => progress.ends(
                result,
            ),
            _ => progress.refuses(self),
        }
    }

    /// The first step.
    pub open spec fn began(progress: Attempt<Self, ()>) -> bool {
        progress.asks(ReuploadFlow::Namespace, Request::ReadKeychain(KeychainKey::NamespaceId))
    }

    /// Starts with the namespace.
    pub fn start() -> (progress: Attempt<Self, ()>)
        ensures
            Self::began(progress),
    {
        Progress::ask(ReuploadFlow::Namespace, Request::ReadKeychain(KeychainKey::NamespaceId))
    }

    /// Goes on with a reply.
    pub fn step(self, reply: Reply) -> (progress: Attempt<Self, ()>)
        ensures
            self.next(reply, progress),
    {
        match (self, reply) {
            (ReuploadFlow::Namespace, Reply::Keychain(stored)) => match current_namespace_id(
                stored,
            ) {
                Ok(namespace) => Progress::ask(
                    ReuploadFlow::Key { namespace },
                    Request::GetOrCreateMasterKey,
                ),
                Err(error) => fail(error),
            },
            (ReuploadFlow::Key { namespace }, Reply::MasterKey(Ok(key))) => Progress::ask(
                ReuploadFlow::Wallets { namespace, key },
                Request::ReadLocalWallets,
            ),
            (ReuploadFlow::Key { .. }, Reply::MasterKey(Err(error))) => fail(
                internal_error("master key", &error),
            ),
            (ReuploadFlow::Wallets { namespace, key }, Reply::LocalWallets(wallets)) => {
                let target: String = namespace.clone();
                Progress::ask(
                    ReuploadFlow::Upload { namespace },
                    Request::Call(Operation::UploadWallets { namespace: target, key, wallets }),
                )
            },
            (
                ReuploadFlow::Upload { namespace },
                Reply::Returned(Outcome::Uploaded(Ok(record_ids))),
            ) => {
                let wallet_count: u32 = record_ids.len() as u32;
                Progress::ask(
                    ReuploadFlow::Persist { namespace, record_ids },
                    Request::Call(Operation::PersistEnabled { wallet_count }),
                )
            },
            (ReuploadFlow::Upload { .. }, Reply::Returned(Outcome::Uploaded(Err(error)))) =>
                Progress::end(Err(error)),
            (
                ReuploadFlow::Persist { namespace, record_ids },
                Reply::Returned(Outcome::Finished(Ok(_))),
            ) => Progress::ask(
                ReuploadFlow::Enqueue,
                Request::Call(Operation::EnqueueUploads { namespace, record_ids }),
            ),
            (ReuploadFlow::Persist { .. }, Reply::Returned(Outcome::Finished(Err(error)))) =>
                Progress::end(Err(error)),
            (ReuploadFlow::Enqueue, Reply::Returned(Outcome::Finished(result))) => Progress::end(
                result,
            ),
            (flow, _) => Progress::Refused { flow },
        }
    }
}

/// Backs up a wallet that was just created, and syncs all wallets if that fails.
#[derive(Debug, Clone, Copy, PartialEq, Eq, Structural)]
pub enum BackupNewWalletFlow {
    Backup,
    Sync,
}

impl BackupNewWalletFlow {
    /// What follows a reply. Only a sync that fails too is reported.
    pub open spec fn next(self, reply: Reply, progress: Progress<Self, ()>) -> bool {
        match (self, reply) {
            (BackupNewWalletFlow::Backup, Reply::Returned(Outcome::Finished(Ok(_)))) =>
                progress.ends(()),
            (BackupNewWalletFlow::Backup, Reply::Returned(Outcome::Finished(Err(_)))) =>
                progress.asks(
                BackupNewWalletFlow::Sync,
                Request::Call(Operation::SyncUnsyncedWallets),
            ),
            (BackupNewWalletFlow::Sync, Reply::Returned(Outcome::Finished(Ok(_)))) => progress.ends(
                (),
            ),
            (BackupNewWalletFlow::Sync, Reply::Returned(Outcome::Finished(Err(error)))) => {
                &&& progress matches Progress::Done { effects, value: () }
                &&& effects@.len() == 1
                &&& effects@[0] matches Effect::Notify(
                    CloudBackupReconcileMessage::SyncFailed(text),
                )
                &&& text@ == error@.message()
            },
            _ => progress.refuses(self),
        }
    }

    /// The first step.
    pub open spec fn began(wallet: WalletMetadata, progress: Progress<Self, ()>) -> bool {
        &&& progress matches Progress::Ask {
            flow,
            effects,
            request: Request::Call(Operation::BackupWallets { wallets }),
        }
        &&& flow == BackupNewWalletFlow::Backup
        &&& effects@ == Seq::<Effect>::empty()
        &&& wallets@ == seq![wallet]
    }

    /// Starts with the wallet's backup.
    pub fn start(wallet: WalletMetadata) -> (progress: Progress<Self, ()>)
        ensures
            Self::began(wallet, progress),
    {
        let mut wallets: Vec<WalletMetadata> = Vec::new();
        wallets.push(wallet);
        Progress::ask(
            BackupNewWalletFlow::Backup,
            Request::Call(Operation::BackupWallets { wallets }),
        )
    }

    /// Goes on with a reply.
    pub fn step(self, reply: Reply) -> (progress: Progress<Self, ()>)
        ensures
            self.next(reply, progress),
    {
        match (self, reply) {
            (BackupNewWalletFlow::Backup, Reply::Returned(Outcome::Finished(Ok(_)))) =>
                Progress::end(()),
            (BackupNewWalletFlow::Backup, Reply::Returned(Outcome::Finished(Err(_)))) =>
                Progress::ask(
                BackupNewWalletFlow::Sync,
                Request::Call(Operation::SyncUnsyncedWallets),
            ),
            (BackupNewWalletFlow::Sync, Reply::Returned(Outcome::Finished(Ok(_)))) =>
                Progress::end(()),
            (BackupNewWalletFlow::Sync, Reply::Returned(Outcome::Finished(Err(error)))) => {
                let failed = CloudBackupReconcileMessage::SyncFailed(error.message());
                Progress::Done { effects: one_effect(Effect::Notify(failed)), value: () }
            },
            (flow, _) => Progress::Refused { flow },
        }
    }
}

/// A record counts as backed up if it is listed or its upload is being watched, the record of the
/// master key aside.
pub proof fn law_backed_up_records(
    listed: Seq<String>,
    blobs: Seq<PendingCloudUploadBlob>,
    master_key_id: Seq<char>,
    record_id: Seq<char>,
)
    ensures
        backed_up_records(listed, blobs, master_key_id).contains(record_id) <==> texts(
            listed,
        ).contains(record_id) || (queued_ids(blobs).contains(record_id) && record_id
            != master_key_id),
{
    let keep = other_than(master_key_id);
    let queued = queued_ids(blobs).filter(keep);
    let all = backed_up_records(listed, blobs, master_key_id);
    lemma_filter_contains(queued_ids(blobs), keep, record_id);
    if all.contains(record_id) {
        let at = all.index_of(record_id);
        if at < listed.len() {
            assert(texts(listed)[at] == record_id);
        } else {
            assert(queued[at - listed.len()] == record_id);
        }
    }
    if texts(listed).contains(record_id) {
        let at = texts(listed).index_of(record_id);
        assert(all[at] == record_id);
    }
    if queued.contains(record_id) {
        let at = queued.index_of(record_id);
        assert(all[listed.len() + at] == record_id);
    }
}

/// A wallet whose upload is still being watched is not uploaded again by a sync.
pub proof fn law_sync_skips_watched_wallets(
    wallets: Seq<WalletMetadata>,
    listed: Seq<String>,
    blobs: Seq<PendingCloudUploadBlob>,
    master_key_id: Seq<char>,
    wallet: WalletMetadata,
)
    requires
        queued_ids(blobs).contains(wallet.record_id@),
        wallet.record_id@ != master_key_id,
    ensures
        !wallets_missing_from(wallets, backed_up_records(listed, blobs, master_key_id)).contains(
            wallet,
        ),
{
    law_backed_up_records(listed, blobs, master_key_id, wallet.record_id@);
    law_missing_wallets(wallets, backed_up_records(listed, blobs, master_key_id), wallet);
}

/// Wallets are uploaded in order and one at a time: the next one comes only once the cloud has
/// taken the current one, and the upload succeeds only once it has taken the last.
pub proof fn law_upload_needs_every_wallet_stored(
    flow: UploadWalletsFlow,
    reply: Reply,
    progress: Attempt<UploadWalletsFlow, Vec<String>>,
)
    requires
        flow.wf(),
        flow.next(reply, progress),
    ensures
        match progress {
            Progress::Ask { flow: later, request, .. } => {
                &&& later.wallets == flow.wallets
                &&& later.namespace == flow.namespace
                &&& later.index == flow.index || {
                    &&& later.index == flow.index + 1
                    &&& flow.phase == UploadWalletsPhase::Upload
                    &&& reply matches Reply::Stored(Ok(_))
                }
                &&& request matches Request::UploadWalletBackup { namespace, record_id, .. } ==> {
                    &&& namespace == flow.namespace
                    &&& record_id == flow.wallets@[flow.index as int].record_id
                }
            },
            Progress::Done { value: Ok(record_ids), .. } => {
                &&& flow.phase == UploadWalletsPhase::Upload
                &&& reply matches Reply::Stored(Ok(_))
                &&& flow.index + 1 == flow.wallets@.len()
                &&& record_ids@ == record_ids_of(flow.wallets@)
            },
            _ => true,
        },
{
    assert(flow.index < flow.wallets.len());
}

} // verus!
