//! Wallets that are in the cloud but not on this device.

pub mod laws;

use vstd::prelude::*;

use crate::error::{
    from_storage_error, internal_error, CloudBackupError, CloudBackupErrorView,
};
use crate::protocol::{
    current_namespace_id, fail, fails, namespace_missing, Attempt, Effect, KeychainKey, Operation,
    Outcome, Progress, Reply, Request,
};
use crate::record::CloudBackup;
use crate::state::{CloudBackupWalletItem, CloudBackupWalletStatus};
use crate::text::prefixed_text;
use crate::wallet::{
    law_orphan_records, orphan_records, records_without_wallet, MasterKey, WalletMetadata,
};

verus! {

/// The backups that are being read one after the other.
pub struct CloudOnlyFetch {
    pub namespace: String,
    pub key: MasterKey,
    pub record_ids: Vec<String>,
    /// The backup being read.
    pub index: usize,
    /// The wallets of the backups before it that could be read.
    pub items: Vec<CloudBackupWalletItem>,
}

/// Lists the wallets whose backup belongs to no wallet on this device.
pub enum FetchCloudOnlyFlow {
    Namespace,
    Listing { namespace: String },
    Wallets { namespace: String, listed: Vec<String> },
    Key { namespace: String, record_ids: Vec<String> },
    Download { fetch: CloudOnlyFetch },
    Parse { fetch: CloudOnlyFetch },
    Open { fetch: CloudOnlyFetch },
    Metadata { fetch: CloudOnlyFetch },
}

/// The entry of a wallet that only the cloud has.
pub open spec fn cloud_only_item(
    wallet: WalletMetadata,
    record_id: String,
) -> CloudBackupWalletItem {
    CloudBackupWalletItem {
        name: wallet.name,
        network: wallet.network,
        wallet_mode: wallet.wallet_mode,
        wallet_type: wallet.wallet_type,
        fingerprint: wallet.master_fingerprint,
        status: CloudBackupWalletStatus::DeletedFromDevice,
        record_id,
    }
}

impl FetchCloudOnlyFlow {
    /// There is a current backup.
    pub open spec fn wf(self) -> bool {
        match self {
            FetchCloudOnlyFlow::Download { fetch } => fetch.index < fetch.record_ids@.len(),
            FetchCloudOnlyFlow::Parse { fetch } => fetch.index < fetch.record_ids@.len(),
            FetchCloudOnlyFlow::Open { fetch } => fetch.index < fetch.record_ids@.len(),
            FetchCloudOnlyFlow::Metadata { fetch } => fetch.index < fetch.record_ids@.len(),
            _ => true,
        }
    }

    /// The backup at `index` is read, or the list is complete.
    pub open spec fn fetches(
        namespace: String,
        key: MasterKey,
        record_ids: Vec<String>,
        index: int,
        items: Seq<CloudBackupWalletItem>,
        progress: Attempt<Self, Vec<CloudBackupWalletItem>>,
    ) -> bool {
        if index < record_ids@.len() {
            &&& progress matches Progress::Ask {
                flow: FetchCloudOnlyFlow::Download { fetch },
                effects,
                request,
            }
            &&& fetch.namespace == namespace
            &&& fetch.key == key
            &&& fetch.record_ids == record_ids
            &&& fetch.index == index
            &&& fetch.items@ == items
            &&& effects@ == Seq::<Effect>::empty()
            &&& request == Request::DownloadWalletBackup {
                namespace,
                record_id: record_ids@[index],
            }
        } else {
            &&& progress matches Progress::Done { effects, value: Ok(listed) }
            &&& effects@ == Seq::<Effect>::empty()
            &&& listed@ == items
        }
    }

    /// The current backup cannot be read, and is passed over.
    pub open spec fn passes_over(
        fetch: CloudOnlyFetch,
        progress: Attempt<Self, Vec<CloudBackupWalletItem>>,
    ) -> bool {
        Self::fetches(
            fetch.namespace,
            fetch.key,
            fetch.record_ids,
            fetch.index + 1,
            fetch.items@,
            progress,
        )
    }

    /// What follows a reply.
    pub open spec fn next(
        self,
        reply: Reply,
        progress: Attempt<Self, Vec<CloudBackupWalletItem>>,
    ) -> bool {
        match (self, reply) {
            (FetchCloudOnlyFlow::Namespace, Reply::Keychain(Some(namespace))) => progress.asks(
                FetchCloudOnlyFlow::Listing { namespace },
                Request::ListWalletBackups { namespace },
            ),
            (FetchCloudOnlyFlow::Namespace, Reply::Keychain(None)) => fails(
                progress,
                namespace_missing(),
            ),
            (FetchCloudOnlyFlow::Listing { namespace }, Reply::Listed(Ok(listed))) => progress.asks(
                FetchCloudOnlyFlow::Wallets { namespace, listed },
                Request::ReadLocalWallets,
            ),
            (FetchCloudOnlyFlow::Listing { namespace }, Reply::Listed(Err(error))) => fails(
                progress,
                CloudBackupErrorView::Cloud(error.text()@),
            ),
            (
                FetchCloudOnlyFlow::Wallets { namespace, listed },
                Reply::LocalWallets(wallets),
            ) => {
                let orphans = records_without_wallet(listed@, wallets@);
                if orphans.len() == 0 {
                    &&& progress matches Progress::Done { effects, value: Ok(items) }
                    &&& effects@ == Seq::<Effect>::empty()
                    &&& items@.len() == 0
                } else {
                    &&& progress matches Progress::Ask {
                        flow: FetchCloudOnlyFlow::Key { namespace: source, record_ids },
                        effects,
                        request,
                    }
                    &&& source == namespace
                    &&& record_ids@ == orphans
                    &&& effects@ == Seq::<Effect>::empty()
                    &&& request == Request::GetOrCreateMasterKey
                }
            },
            (FetchCloudOnlyFlow::Key { namespace, record_ids }, Reply::MasterKey(Ok(key))) =>
                Self::fetches(namespace, key, record_ids, 0, Seq::empty(), progress),
            (FetchCloudOnlyFlow::Key { namespace, record_ids }, Reply::MasterKey(Err(error))) =>
                fails(
                progress,
                CloudBackupErrorView::Internal(prefixed_text("master key"@, error@)),
            ),
            (FetchCloudOnlyFlow::Download { fetch }, Reply::Downloaded(Ok(bytes))) => progress.asks(
                FetchCloudOnlyFlow::Parse { fetch },
                Request::ParseWalletBackup { bytes },
            ),
            (FetchCloudOnlyFlow::Download { fetch }, Reply::Downloaded(Err(_))) =>
                Self::passes_over(fetch, progress),
            (FetchCloudOnlyFlow::Parse { fetch }, Reply::WalletBackup(Ok(backup))) => progress.asks(
                FetchCloudOnlyFlow::Open { fetch },
                Request::OpenWallet { backup, key: fetch.key },
            ),
            (FetchCloudOnlyFlow::Parse { fetch }, Reply::WalletBackup(Err(_))) => Self::passes_over(
                fetch,
                progress,
            ),
            (FetchCloudOnlyFlow::Open { fetch }, Reply::Wallet(Ok(entry))) => progress.asks(
                FetchCloudOnlyFlow::Metadata { fetch },
                Request::ParseMetadata { json: entry.metadata },
            ),
            (FetchCloudOnlyFlow::Open { fetch }, Reply::Wallet(Err(_))) => Self::passes_over(
                fetch,
                progress,
            ),
            (FetchCloudOnlyFlow::Metadata { fetch }, Reply::Metadata(Ok(wallet))) => Self::fetches(
                fetch.namespace,
                fetch.key,
                fetch.record_ids,
                fetch.index + 1,
                fetch.items@.push(
                    cloud_only_item(wallet, fetch.record_ids@[fetch.index as int]),
                ),
                progress,
            ),
            (FetchCloudOnlyFlow::Metadata { fetch }, Reply::Metadata(Err(_))) => Self::passes_over(
                fetch,
                progress,
            ),
            _ => progress.refuses(self),
        }
    }

    fn fetch_at(
        namespace: String,
        key: MasterKey,
        record_ids: Vec<String>,
        index: usize,
        items: Vec<CloudBackupWalletItem>,
    ) -> (progress: Attempt<Self, Vec<CloudBackupWalletItem>>)
        ensures
            Self::fetches(namespace, key, record_ids, index as int, items@, progress),
            progress matches Progress::Ask { flow, .. } ==> flow.wf(),
            !(progress is Refused),
    {
        if index < record_ids.len() {
            let source: String = namespace.clone();
            let record_id: String = record_ids[index].clone();
            Progress::ask(
                FetchCloudOnlyFlow::Download {
                    fetch: CloudOnlyFetch { namespace, key, record_ids, index, items },
                },
                Request::DownloadWalletBackup { namespace: source, record_id },
            )
        } else {
            Progress::end(Ok(items))
        }
    }

    fn pass_over(fetch: CloudOnlyFetch) -> (progress: Attempt<Self, Vec<CloudBackupWalletItem>>)
        requires
            fetch.index < fetch.record_ids@.len(),
        ensures
            Self::passes_over(fetch, progress),
            progress matches Progress::Ask { flow, .. } ==> flow.wf(),
            !(progress is Refused),
    {
        let CloudOnlyFetch { namespace, key, record_ids, index, items } = fetch;
        assert(index < record_ids.len());
        Self::fetch_at(namespace, key, record_ids, index + 1, items)
    }

    fn take_over(fetch: CloudOnlyFetch, wallet: WalletMetadata) -> (progress: Attempt<
        Self,
        Vec<CloudBackupWalletItem>,
    >)
        requires
            fetch.index < fetch.record_ids@.len(),
        ensures
            Self::fetches(
                fetch.namespace,
                fetch.key,
                fetch.record_ids,
                fetch.index + 1,
                fetch.items@.push(
                    cloud_only_item(wallet, fetch.record_ids@[fetch.index as int]),
                ),
                progress,
            ),
            progress matches Progress::Ask { flow, .. } ==> flow.wf(),
            !(progress is Refused),
    {
        let CloudOnlyFetch { namespace, key, record_ids, index, items } = fetch;
        assert(index < record_ids.len());
        let mut items: Vec<CloudBackupWalletItem> = items;
        items.push(
            CloudBackupWalletItem {
                name: wallet.name,
                network: wallet.network,
                wallet_mode: wallet.wallet_mode,
                wallet_type: wallet.wallet_type,
                fingerprint: wallet.master_fingerprint,
                status: CloudBackupWalletStatus::DeletedFromDevice,
                record_id: record_ids[index].clone(),
            },
        );
        Self::fetch_at(namespace, key, record_ids, index + 1, items)
    }

    /// The first step.
    pub open spec fn began(progress: Attempt<Self, Vec<CloudBackupWalletItem>>) -> bool {
        progress.asks(
            FetchCloudOnlyFlow::Namespace,
            Request::ReadKeychain(KeychainKey::NamespaceId),
        )
    }

    /// Starts with the namespace.
    pub fn start() -> (progress: Attempt<Self, Vec<CloudBackupWalletItem>>)
        ensures
            Self::began(progress),
    {
        Progress::ask(
            FetchCloudOnlyFlow::Namespace,
            Request::ReadKeychain(KeychainKey::NamespaceId),
        )
    }

    /// Goes on with a reply.
    pub fn step(self, reply: Reply) -> (progress: Attempt<Self, Vec<CloudBackupWalletItem>>)
        requires
            self.wf(),
        ensures
            self.next(reply, progress),
            progress matches Progress::Ask { flow, .. } ==> flow.wf(),
            progress matches Progress::Refused { flow } ==> flow.wf(),
    {
        match (self, reply) {
            (FetchCloudOnlyFlow::Namespace, Reply::Keychain(stored)) => match current_namespace_id(
                stored,
            ) {
                Ok(namespace) => {
                    let source: String = namespace.clone();
                    Progress::ask(
                        FetchCloudOnlyFlow::Listing { namespace },
                        Request::ListWalletBackups { namespace: source },
                    )
                },
                Err(error) => fail(error),
            },
            (FetchCloudOnlyFlow::Listing { namespace }, Reply::Listed(Ok(listed))) => Progress::ask(
                FetchCloudOnlyFlow::Wallets { namespace, listed },
                Request::ReadLocalWallets,
            ),
            (FetchCloudOnlyFlow::Listing { .. }, Reply::Listed(Err(error))) => fail(
                from_storage_error(error),
            ),
            (
                FetchCloudOnlyFlow::Wallets { namespace, listed },
                Reply::LocalWallets(wallets),
            ) => {
                let record_ids: Vec<String> = orphan_records(&listed, &wallets);
                if record_ids.is_empty() {
                    Progress::end(Ok(Vec::new()))
                } else {
                    Progress::ask(
                        FetchCloudOnlyFlow::Key { namespace, record_ids },
                        Request::GetOrCreateMasterKey,
                    )
                }
            },
            (FetchCloudOnlyFlow::Key { namespace, record_ids }, Reply::MasterKey(Ok(key))) =>
                Self::fetch_at(namespace, key, record_ids, 0, Vec::new()),
            (FetchCloudOnlyFlow::Key { .. }, Reply::MasterKey(Err(error))) => fail(
                internal_error("master key", &error),
            ),
            (FetchCloudOnlyFlow::Download { fetch }, Reply::Downloaded(Ok(bytes))) => Progress::ask(
                FetchCloudOnlyFlow::Parse { fetch },
                Request::ParseWalletBackup { bytes },
            ),
            (FetchCloudOnlyFlow::Download { fetch }, Reply::Downloaded(Err(_))) => Self::pass_over(
                fetch,
            ),
            (FetchCloudOnlyFlow::Parse { fetch }, Reply::WalletBackup(Ok(backup))) => {
                let key: MasterKey = fetch.key.clone();
                Progress::ask(
                    FetchCloudOnlyFlow::Open { fetch },
                    Request::OpenWallet { backup, key },
                )
            },
            (FetchCloudOnlyFlow::Parse { fetch }, Reply::WalletBackup(Err(_))) => Self::pass_over(
                fetch,
            ),
            (FetchCloudOnlyFlow::Open { fetch }, Reply::Wallet(Ok(entry))) => Progress::ask(
                FetchCloudOnlyFlow::Metadata { fetch },
                Request::ParseMetadata { json: entry.metadata },
            ),
            (FetchCloudOnlyFlow::Open { fetch }, Reply::Wallet(Err(_))) => Self::pass_over(fetch),
            (FetchCloudOnlyFlow::Metadata { fetch }, Reply::Metadata(Ok(wallet))) =>
                Self::take_over(fetch, wallet),
            (FetchCloudOnlyFlow::Metadata { fetch }, Reply::Metadata(Err(_))) => Self::pass_over(
                fetch,
            ),
            (flow, _) => Progress::Refused { flow },
        }
    }
}

/// Deletes the backup of one wallet.
pub enum DeleteCloudWalletFlow {
    Namespace { record_id: String },
    Delete { record_id: String, namespace: String },
    Dequeue { namespace: String },
    Listing,
    Record { wallet_count: u32 },
    Save,
}

impl DeleteCloudWalletFlow {
    /// What follows a reply. That the record could not be written is no failure.
    pub open spec fn next(self, reply: Reply, progress: Attempt<Self, ()>) -> bool {
        match (self, reply) {
            (DeleteCloudWalletFlow::Namespace { record_id }, Reply::Keychain(Some(namespace))) =>
                progress.asks(
                DeleteCloudWalletFlow::Delete { record_id, namespace },
                Request::DeleteWalletBackup { namespace, record_id },
            ),
            (DeleteCloudWalletFlow::Namespace { record_id }, Reply::Keychain(None)) => fails(
                progress,
                namespace_missing(),
            ),
            (DeleteCloudWalletFlow::Delete { record_id, namespace }, Reply::Stored(Ok(_))) => {
                &&& progress matches Progress::Ask {
                    flow,
                    effects,
                    request: Request::Call(
                        Operation::RemoveUploads { namespace: source, record_ids },
                    ),
                }
                &&& flow == DeleteCloudWalletFlow::Dequeue { namespace }
                &&& effects@ == Seq::<Effect>::empty()
                &&& source == namespace
                &&& record_ids@ == seq![record_id]
            },
            (DeleteCloudWalletFlow::Delete { record_id, namespace }, Reply::Stored(Err(error))) =>
                fails(progress, CloudBackupErrorView::Cloud(error.text()@)),
            (
                DeleteCloudWalletFlow::Dequeue { namespace },
                Reply::Returned(Outcome::Finished(Ok(_))),
            ) => progress.asks(
                DeleteCloudWalletFlow::Listing,
                Request::ListWalletBackups { namespace },
            ),
            (
                DeleteCloudWalletFlow::Dequeue { namespace },
                Reply::Returned(Outcome::Finished(Err(error))),
            ) => progress.ends(Err(error)),
            (DeleteCloudWalletFlow::Listing, Reply::Listed(Ok(listed))) => progress.asks(
                DeleteCloudWalletFlow::Record { wallet_count: listed.len() as u32 },
                Request::ReadCloudBackup,
            ),
            (DeleteCloudWalletFlow::Listing, Reply::Listed(Err(error))) => fails(
                progress,
                CloudBackupErrorView::Cloud(error.text()@),
            ),
            (DeleteCloudWalletFlow::Record { wallet_count }, Reply::CloudBackup(current)) =>
                progress.asks(
                DeleteCloudWalletFlow::Save,
                Request::SaveCloudBackup(
                    CloudBackup::Enabled {
                        last_sync: current.last_sync(),
                        wallet_count: Some(wallet_count),
                    },
                ),
            ),
            (DeleteCloudWalletFlow::Save, Reply::Written(_)) => progress.ends(Ok(())),
            _ => progress.refuses(self),
        }
    }

    /// The first step.
    pub open spec fn began(record_id: String, progress: Attempt<Self, ()>) -> bool {
        progress.asks(
            DeleteCloudWalletFlow::Namespace { record_id },
            Request::ReadKeychain(KeychainKey::NamespaceId),
        )
    }

    /// Starts with the namespace.
    pub fn start(record_id: String) -> (progress: Attempt<Self, ()>)
        ensures
            Self::began(record_id, progress),
    {
        Progress::ask(
            DeleteCloudWalletFlow::Namespace { record_id },
            Request::ReadKeychain(KeychainKey::NamespaceId),
        )
    }

    /// Goes on with a reply.
    pub fn step(self, reply: Reply) -> (progress: Attempt<Self, ()>)
        ensures
            self.next(reply, progress),
    {
        match (self, reply) {
            (DeleteCloudWalletFlow::Namespace { record_id }, Reply::Keychain(stored)) => {
                match current_namespace_id(stored) {
                    Ok(namespace) => {
                        let source: String = namespace.clone();
                        let deleted: String = record_id.clone();
                        Progress::ask(
                            DeleteCloudWalletFlow::Delete { record_id, namespace },
                            Request::DeleteWalletBackup { namespace: source, record_id: deleted },
                        )
                    },
                    Err(error) => fail(error),
                }
            },
            (DeleteCloudWalletFlow::Delete { record_id, namespace }, Reply::Stored(Ok(_))) => {
                let source: String = namespace.clone();
                let mut record_ids: Vec<String> = Vec::new();
                record_ids.push(record_id);
                Progress::ask(
                    DeleteCloudWalletFlow::Dequeue { namespace },
                    Request::Call(Operation::RemoveUploads { namespace: source, record_ids }),
                )
            },
            (DeleteCloudWalletFlow::Delete { .. }, Reply::Stored(Err(error))) => fail(
                from_storage_error(error),
            ),
            (
                DeleteCloudWalletFlow::Dequeue { namespace },
                Reply::Returned(Outcome::Finished(Ok(_))),
            ) => Progress::ask(
                DeleteCloudWalletFlow::Listing,
                Request::ListWalletBackups { namespace },
            ),
            (
                DeleteCloudWalletFlow::Dequeue { .. },
                Reply::Returned(Outcome::Finished(Err(error))),
            ) => Progress::end(Err(error)),
            (DeleteCloudWalletFlow::Listing, Reply::Listed(Ok(listed))) => {
                let wallet_count: u32 = listed.len() as u32;
                Progress::ask(
                    DeleteCloudWalletFlow::Record { wallet_count },
                    Request::ReadCloudBackup,
                )
            },
            (DeleteCloudWalletFlow::Listing, Reply::Listed(Err(error))) => fail(
                from_storage_error(error),
            ),
            (DeleteCloudWalletFlow::Record { wallet_count }, Reply::CloudBackup(current)) => {
                let last_sync: Option<u64> = current.get_last_sync();
                Progress::ask(
                    DeleteCloudWalletFlow::Save,
                    Request::SaveCloudBackup(
                        CloudBackup::Enabled { last_sync, wallet_count: Some(wallet_count) },
                    ),
                )
            },
            (DeleteCloudWalletFlow::Save, Reply::Written(_)) => Progress::end(Ok(())),
            (flow, _) => Progress::Refused { flow },
        }
    }
}

/// Whether every item of a list is a wallet that only the cloud has, under one of `record_ids`.
pub open spec fn only_in_cloud(
    items: Seq<CloudBackupWalletItem>,
    record_ids: Seq<String>,
) -> bool {
    forall|i: int|
        0 <= i < items.len() ==> {
            &&& (#[trigger] items[i]).status is DeletedFromDevice
            &&& record_ids.contains(items[i].record_id)
        }
}

impl FetchCloudOnlyFlow {
    /// Whether the backups being read are those under `orphans`, and the wallets listed so far are
    /// wallets that only the cloud has.
    pub open spec fn lists_only(self, orphans: Seq<String>) -> bool {
        match self {
            FetchCloudOnlyFlow::Key { record_ids, .. } => record_ids@ == orphans,
            FetchCloudOnlyFlow::Download { fetch } => fetch.lists_only(orphans),
            FetchCloudOnlyFlow::Parse { fetch } => fetch.lists_only(orphans),
            FetchCloudOnlyFlow::Open { fetch } => fetch.lists_only(orphans),
            FetchCloudOnlyFlow::Metadata { fetch } => fetch.lists_only(orphans),
            _ => false,
        }
    }
}

impl CloudOnlyFetch {
    /// Whether the backups being read are those under `orphans`, and the wallets listed so far are
    /// wallets that only the cloud has.
    pub open spec fn lists_only(self, orphans: Seq<String>) -> bool {
        &&& self.index < orphans.len()
        &&& self.record_ids@ == orphans
        &&& only_in_cloud(self.items@, orphans)
    }
}

proof fn lemma_step_lists_only(
    orphans: Seq<String>,
    flow: FetchCloudOnlyFlow,
    reply: Reply,
    progress: Attempt<FetchCloudOnlyFlow, Vec<CloudBackupWalletItem>>,
)
    requires
        flow.lists_only(orphans),
        flow.next(reply, progress),
    ensures
        match progress {
            Progress::Ask { flow: later, .. } => later.lists_only(orphans),
            Progress::Done { value: Ok(items), .. } => only_in_cloud(items@, orphans),
            _ => true,
        },
{
    if let FetchCloudOnlyFlow::Metadata { fetch } = flow {
        assert(orphans.contains(orphans[fetch.index as int]));
    }
}

/// What follows a reply to a step that is waiting for one.
pub open spec fn then_reply(
    before: Attempt<FetchCloudOnlyFlow, Vec<CloudBackupWalletItem>>,
    reply: Reply,
    after: Attempt<FetchCloudOnlyFlow, Vec<CloudBackupWalletItem>>,
) -> bool {
    before matches Progress::Ask { flow, .. } && flow.next(reply, after)
}

/// Whether `steps` are those of one list, from its start, with `replies` between them.
pub open spec fn is_run(
    steps: Seq<Attempt<FetchCloudOnlyFlow, Vec<CloudBackupWalletItem>>>,
    replies: Seq<Reply>,
) -> bool {
    &&& steps.len() == replies.len() + 1
    &&& FetchCloudOnlyFlow::began(steps[0])
    &&& forall|i: int|
        0 <= i < replies.len() ==> then_reply(steps[i], #[trigger] replies[i], steps[i + 1])
}

proof fn lemma_run_lists_only(
    orphans: Seq<String>,
    steps: Seq<Attempt<FetchCloudOnlyFlow, Vec<CloudBackupWalletItem>>>,
    replies: Seq<Reply>,
    at: int,
)
    requires
        is_run(steps, replies),
        3 <= at < steps.len(),
        steps[3] matches Progress::Ask { flow, .. } && flow.lists_only(orphans),
    ensures
        match steps[at] {
            Progress::Ask { flow, .. } => flow.lists_only(orphans),
            Progress::Done { value: Ok(items), .. } => only_in_cloud(items@, orphans),
            _ => true,
        },
    decreases at,
{
    if at > 3 {
        lemma_run_lists_only(orphans, steps, replies, at - 1);
        assert(then_reply(steps[at - 1], replies[at - 1], steps[at]));
        if let Progress::Ask { flow, .. } = steps[at - 1] {
            lemma_step_lists_only(orphans, flow, replies[at - 1], steps[at]);
        }
    }
}

/// Every wallet in the list is shown as deleted from the device, under a record that the cloud
/// listed and that belongs to no wallet on the device.
pub proof fn law_list_holds_only_cloud_wallets(
    steps: Seq<Attempt<FetchCloudOnlyFlow, Vec<CloudBackupWalletItem>>>,
    replies: Seq<Reply>,
    items: Vec<CloudBackupWalletItem>,
)
    requires
        is_run(steps, replies),
        steps.last() matches Progress::Done { value, .. } && value == Ok::<
            Vec<CloudBackupWalletItem>,
            CloudBackupError,
        >(items),
    ensures
        replies.len() >= 3,
        replies[1] matches Reply::Listed(Ok(listed)) && (
        replies[2] matches Reply::LocalWallets(wallets) && {
            &&& only_in_cloud(items@, records_without_wallet(listed@, wallets@))
            &&& forall|i: int, j: int|
                0 <= i < items@.len() && 0 <= j < wallets@.len() ==> (
                #[trigger] items@[i]).record_id@ != (#[trigger] wallets@[j]).record_id@
        }),
{
    assert(then_reply(steps[0], replies[0], steps[1]));
    assert(then_reply(steps[1], replies[1], steps[2]));
    assert(then_reply(steps[2], replies[2], steps[3]));
    if replies.len() > 3 {
        assert(then_reply(steps[3], replies[3], steps[4]));
    }
    if let (Reply::Listed(Ok(listed)), Reply::LocalWallets(wallets)) = (replies[1], replies[2]) {
        let orphans = records_without_wallet(listed@, wallets@);
        if steps[3] is Ask {
            lemma_run_lists_only(orphans, steps, replies, steps.len() - 1);
        }
        assert forall|i: int, j: int| 0 <= i < items@.len() && 0 <= j < wallets@.len() implies (
        #[trigger] items@[i]).record_id@ != (#[trigger] wallets@[j]).record_id@ by {
            law_orphan_records(listed@, wallets@, items@[i].record_id);
        }
    }
}

} // verus!
