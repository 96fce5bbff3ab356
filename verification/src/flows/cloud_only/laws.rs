//! What listing and deleting wallets of the cloud do, from the first step to the last.

use vstd::prelude::*;

use crate::conversation::{continues, is_conversation, lemma_stop_is_last, Stepwise};
use crate::error::CloudBackupError;
use crate::flows::cloud_only::{CloudOnlyFetch, DeleteCloudWalletFlow, FetchCloudOnlyFlow};
use crate::protocol::{Attempt, KeychainKey, Operation, Outcome, Progress, Reply, Request};
use crate::record::CloudBackup;
use crate::state::CloudBackupWalletItem;
use crate::wallet::{law_orphan_records, records_without_wallet, MasterKey, WalletMetadata};

verus! {

impl Stepwise for FetchCloudOnlyFlow {
    type Value = Result<Vec<CloudBackupWalletItem>, CloudBackupError>;

    open spec fn follows(
        self,
        reply: Reply,
        progress: Attempt<Self, Vec<CloudBackupWalletItem>>,
    ) -> bool {
        self.next(reply, progress)
    }
}

impl Stepwise for DeleteCloudWalletFlow {
    type Value = Result<(), CloudBackupError>;

    open spec fn follows(self, reply: Reply, progress: Attempt<Self, ()>) -> bool {
        self.next(reply, progress)
    }
}

/// The steps of a list.
pub type FetchSteps = Seq<Attempt<FetchCloudOnlyFlow, Vec<CloudBackupWalletItem>>>;

/// Whether the step at `at` downloads the backup under a record.
pub open spec fn downloads(
    namespace: String,
    record_id: String,
    steps: FetchSteps,
    at: int,
) -> bool {
    steps[at].requests(Request::DownloadWalletBackup { namespace, record_id })
}

/// Whether the bytes that came of such a download are parsed next.
pub open spec fn parses(
    namespace: String,
    record_id: String,
    steps: FetchSteps,
    replies: Seq<Reply>,
    at: int,
) -> bool {
    &&& downloads(namespace, record_id, steps, at)
    &&& replies[at] matches Reply::Downloaded(Ok(bytes))
    &&& steps[at + 1].requests(Request::ParseWalletBackup { bytes })
}

/// Whether the backup that came of that is decrypted next, with `key`.
pub open spec fn decrypts(
    namespace: String,
    key: MasterKey,
    record_id: String,
    steps: FetchSteps,
    replies: Seq<Reply>,
    at: int,
) -> bool {
    &&& parses(namespace, record_id, steps, replies, at)
    &&& replies[at + 1] matches Reply::WalletBackup(Ok(backup))
    &&& steps[at + 2].requests(Request::OpenWallet { backup, key })
}

/// Whether the metadata that came of that are read next.
pub open spec fn reads_metadata(
    namespace: String,
    key: MasterKey,
    record_id: String,
    steps: FetchSteps,
    replies: Seq<Reply>,
    at: int,
) -> bool {
    &&& decrypts(namespace, key, record_id, steps, replies, at)
    &&& replies[at + 2] matches Reply::Wallet(Ok(entry))
    &&& steps[at + 3].requests(Request::ParseMetadata { json: entry.metadata })
}

/// Whether the backup under a record, downloaded at the step `at`, turned out to be that of
/// `wallet`.
pub open spec fn is_backup_of(
    namespace: String,
    key: MasterKey,
    record_id: String,
    wallet: WalletMetadata,
    steps: FetchSteps,
    replies: Seq<Reply>,
    at: int,
) -> bool {
    &&& reads_metadata(namespace, key, record_id, steps, replies, at)
    &&& replies[at + 3] == Reply::Metadata(Ok(wallet))
}

/// Whether an item shows `wallet`, as one that is no longer on the device, under a record.
pub open spec fn shows_wallet(
    item: CloudBackupWalletItem,
    wallet: WalletMetadata,
    record_id: String,
) -> bool {
    &&& item.name == wallet.name
    &&& item.network == wallet.network
    &&& item.wallet_mode == wallet.wallet_mode
    &&& item.wallet_type == wallet.wallet_type
    &&& item.fingerprint == wallet.master_fingerprint
    &&& item.status is DeletedFromDevice
    &&& item.record_id == record_id
}

/// Whether an item shows a wallet as the metadata under its own record describe it.
pub open spec fn shows_what_was_read(
    namespace: String,
    key: MasterKey,
    item: CloudBackupWalletItem,
    steps: FetchSteps,
    replies: Seq<Reply>,
    until: int,
) -> bool {
    exists|at: int, wallet: WalletMetadata|
        {
            &&& 4 <= at
            &&& at + 4 <= until
            &&& #[trigger] is_backup_of(
                namespace,
                key,
                item.record_id,
                wallet,
                steps,
                replies,
                at,
            )
            &&& shows_wallet(item, wallet, item.record_id)
        }
}

/// Whether the backup under a record was tried, and listed if it could be read.
pub open spec fn is_tried(
    namespace: String,
    key: MasterKey,
    record_id: String,
    items: Seq<CloudBackupWalletItem>,
    steps: FetchSteps,
    replies: Seq<Reply>,
    until: int,
) -> bool {
    exists|at: int|
        {
            &&& 4 <= at < until
            &&& #[trigger] downloads(namespace, record_id, steps, at)
            &&& forall|wallet: WalletMetadata| #[trigger]
                is_backup_of(namespace, key, record_id, wallet, steps, replies, at)
                    ==> exists|i: int|
                    0 <= i < items.len() && shows_wallet(#[trigger] items[i], wallet, record_id)
        }
}

/// How far a list is: which backups were tried, and what was listed.
spec fn is_listed_so_far(
    namespace: String,
    key: MasterKey,
    orphans: Seq<String>,
    index: int,
    items: Seq<CloudBackupWalletItem>,
    steps: FetchSteps,
    replies: Seq<Reply>,
    until: int,
) -> bool {
    &&& forall|i: int|
        0 <= i < items.len() ==> shows_what_was_read(
            namespace,
            key,
            #[trigger] items[i],
            steps,
            replies,
            until,
        )
    &&& forall|r: int|
        0 <= r < index ==> is_tried(
            namespace,
            key,
            #[trigger] orphans[r],
            items,
            steps,
            replies,
            until,
        )
}

spec fn is_fetch_of(
    namespace: String,
    key: MasterKey,
    orphans: Seq<String>,
    fetch: CloudOnlyFetch,
    steps: FetchSteps,
    replies: Seq<Reply>,
    until: int,
) -> bool {
    &&& fetch.namespace == namespace
    &&& fetch.key == key
    &&& fetch.record_ids@ == orphans
    &&& fetch.index < orphans.len()
    &&& is_listed_so_far(
        namespace,
        key,
        orphans,
        fetch.index as int,
        fetch.items@,
        steps,
        replies,
        until,
    )
}

/// What a step of a list is, once backups are read.
spec fn is_fetch_step(
    namespace: String,
    key: MasterKey,
    orphans: Seq<String>,
    steps: FetchSteps,
    replies: Seq<Reply>,
    at: int,
) -> bool {
    match steps[at] {
        Progress::Ask { flow, effects, .. } => effects@.len() == 0 && match flow {
            FetchCloudOnlyFlow::Download { fetch } => {
                &&& is_fetch_of(namespace, key, orphans, fetch, steps, replies, at)
                &&& downloads(namespace, orphans[fetch.index as int], steps, at)
            },
            FetchCloudOnlyFlow::Parse { fetch } => {
                &&& is_fetch_of(namespace, key, orphans, fetch, steps, replies, at - 1)
                &&& at >= 5
                &&& parses(namespace, orphans[fetch.index as int], steps, replies, at - 1)
            },
            FetchCloudOnlyFlow::Open { fetch } => {
                &&& is_fetch_of(namespace, key, orphans, fetch, steps, replies, at - 2)
                &&& at >= 6
                &&& decrypts(namespace, key, orphans[fetch.index as int], steps, replies, at - 2)
            },
            FetchCloudOnlyFlow::Metadata { fetch } => {
                &&& is_fetch_of(namespace, key, orphans, fetch, steps, replies, at - 3)
                &&& at >= 7
                &&& reads_metadata(
                    namespace,
                    key,
                    orphans[fetch.index as int],
                    steps,
                    replies,
                    at - 3,
                )
            },
            _ => false,
        },
        Progress::Done { effects, value: Ok(items) } => {
            &&& effects@.len() == 0
            &&& is_listed_so_far(
                namespace,
                key,
                orphans,
                orphans.len() as int,
                items@,
                steps,
                replies,
                at,
            )
        },
        Progress::Done { .. } => false,
        Progress::Refused { .. } => true,
    }
}

proof fn lemma_listed_later(
    namespace: String,
    key: MasterKey,
    orphans: Seq<String>,
    index: int,
    items: Seq<CloudBackupWalletItem>,
    more: Seq<CloudBackupWalletItem>,
    steps: FetchSteps,
    replies: Seq<Reply>,
    until: int,
    later: int,
)
    requires
        is_listed_so_far(namespace, key, orphans, index, items, steps, replies, until),
        until <= later,
        items.len() <= more.len(),
        forall|i: int| 0 <= i < items.len() ==> #[trigger] more[i] == items[i],
        forall|i: int|
            items.len() <= i < more.len() ==> shows_what_was_read(
                namespace,
                key,
                #[trigger] more[i],
                steps,
                replies,
                later,
            ),
    ensures
        is_listed_so_far(namespace, key, orphans, index, more, steps, replies, later),
{
    assert forall|i: int| 0 <= i < more.len() implies shows_what_was_read(
        namespace,
        key,
        #[trigger] more[i],
        steps,
        replies,
        later,
    ) by {
        if i < items.len() {
            assert(shows_what_was_read(namespace, key, items[i], steps, replies, until));
        }
    }
    assert forall|r: int| 0 <= r < index implies is_tried(
        namespace,
        key,
        #[trigger] orphans[r],
        more,
        steps,
        replies,
        later,
    ) by {
        assert(is_tried(namespace, key, orphans[r], items, steps, replies, until));
        let at = choose|at: int|
            {
                &&& 4 <= at < until
                &&& #[trigger] downloads(namespace, orphans[r], steps, at)
                &&& forall|wallet: WalletMetadata| #[trigger]
                    is_backup_of(namespace, key, orphans[r], wallet, steps, replies, at)
                        ==> exists|i: int|
                        0 <= i < items.len() && shows_wallet(
                            #[trigger] items[i],
                            wallet,
                            orphans[r],
                        )
            };
        assert forall|wallet: WalletMetadata| #[trigger]
            is_backup_of(namespace, key, orphans[r], wallet, steps, replies, at) implies exists|
            i: int,
        |
            0 <= i < more.len() && shows_wallet(#[trigger] more[i], wallet, orphans[r]) by {
            let i = choose|i: int|
                0 <= i < items.len() && shows_wallet(#[trigger] items[i], wallet, orphans[r]);
            assert(shows_wallet(more[i], wallet, orphans[r]));
        }
        assert(downloads(namespace, orphans[r], steps, at));
    }
}

/// The next backup is tried after one that was downloaded at `at` and led to `items`.
proof fn lemma_next_backup(
    namespace: String,
    key: MasterKey,
    orphans: Seq<String>,
    fetch: CloudOnlyFetch,
    items: Seq<CloudBackupWalletItem>,
    steps: FetchSteps,
    replies: Seq<Reply>,
    at: int,
    later: int,
)
    requires
        4 <= at < later < steps.len(),
        fetch.record_ids@ == orphans,
        is_fetch_of(namespace, key, orphans, fetch, steps, replies, at),
        downloads(namespace, orphans[fetch.index as int], steps, at),
        FetchCloudOnlyFlow::fetches(
            namespace,
            key,
            fetch.record_ids,
            fetch.index + 1,
            items,
            steps[later],
        ),
        fetch.items@.len() <= items.len(),
        forall|i: int| 0 <= i < fetch.items@.len() ==> #[trigger] items[i] == fetch.items@[i],
        forall|i: int|
            fetch.items@.len() <= i < items.len() ==> shows_what_was_read(
                namespace,
                key,
                #[trigger] items[i],
                steps,
                replies,
                later,
            ),
        forall|wallet: WalletMetadata| #[trigger]
            is_backup_of(
                namespace,
                key,
                orphans[fetch.index as int],
                wallet,
                steps,
                replies,
                at,
            ) ==> exists|i: int|
                0 <= i < items.len() && shows_wallet(
                    #[trigger] items[i],
                    wallet,
                    orphans[fetch.index as int],
                ),
    ensures
        is_fetch_step(namespace, key, orphans, steps, replies, later),
{
    let index = fetch.index as int;
    lemma_listed_later(
        namespace,
        key,
        orphans,
        index,
        fetch.items@,
        items,
        steps,
        replies,
        at,
        later,
    );
    assert(is_tried(namespace, key, orphans[index], items, steps, replies, later)) by {
        assert(downloads(namespace, orphans[index], steps, at));
    }
    assert(is_listed_so_far(namespace, key, orphans, index + 1, items, steps, replies, later));
    assert(index + 1 >= orphans.len() ==> index + 1 == orphans.len());
}

proof fn lemma_fetch_steps(
    namespace: String,
    key: MasterKey,
    listed: Vec<String>,
    wallets: Vec<WalletMetadata>,
    steps: FetchSteps,
    replies: Seq<Reply>,
    at: int,
)
    requires
        FetchCloudOnlyFlow::began(steps[0]),
        is_conversation(steps, replies),
        4 <= at < steps.len(),
        replies[0] == Reply::Keychain(Some(namespace)),
        replies[1] == Reply::Listed(Ok(listed)),
        replies[2] == Reply::LocalWallets(wallets),
        replies[3] == Reply::MasterKey(Ok(key)),
    ensures
        is_fetch_step(
            namespace,
            key,
            records_without_wallet(listed@, wallets@),
            steps,
            replies,
            at,
        ),
    decreases at,
{
    let orphans = records_without_wallet(listed@, wallets@);
    assert(continues(steps[at - 1], replies[at - 1], steps[at]));
    if at == 4 {
        assert(continues(steps[0], replies[0], steps[1]));
        assert(continues(steps[1], replies[1], steps[2]));
        assert(continues(steps[2], replies[2], steps[3]));
    } else {
        lemma_fetch_steps(namespace, key, listed, wallets, steps, replies, at - 1);
        if let Progress::Ask { flow, .. } = steps[at - 1] {
            let reply = replies[at - 1];
            match flow {
                FetchCloudOnlyFlow::Download { fetch } => {
                    if let Reply::Downloaded(Err(_)) = reply {
                        lemma_next_backup(
                            namespace,
                            key,
                            orphans,
                            fetch,
                            fetch.items@,
                            steps,
                            replies,
                            at - 1,
                            at,
                        );
                    }
                },
                FetchCloudOnlyFlow::Parse { fetch } => {
                    if let Reply::WalletBackup(Err(_)) = reply {
                        lemma_next_backup(
                            namespace,
                            key,
                            orphans,
                            fetch,
                            fetch.items@,
                            steps,
                            replies,
                            at - 2,
                            at,
                        );
                    }
                },
                FetchCloudOnlyFlow::Open { fetch } => {
                    if let Reply::Wallet(Err(_)) = reply {
                        lemma_next_backup(
                            namespace,
                            key,
                            orphans,
                            fetch,
                            fetch.items@,
                            steps,
                            replies,
                            at - 3,
                            at,
                        );
                    }
                },
                FetchCloudOnlyFlow::Metadata { fetch } => {
                    let record_id = orphans[fetch.index as int];
                    match reply {
                        Reply::Metadata(Err(_)) => {
                            lemma_next_backup(
                                namespace,
                                key,
                                orphans,
                                fetch,
                                fetch.items@,
                                steps,
                                replies,
                                at - 4,
                                at,
                            );
                        },
                        Reply::Metadata(Ok(wallet)) => {
                            let item = super::cloud_only_item(wallet, record_id);
                            let items = fetch.items@.push(item);
                            assert(shows_wallet(item, wallet, record_id));
                            assert(is_backup_of(
                                namespace,
                                key,
                                record_id,
                                wallet,
                                steps,
                                replies,
                                at - 4,
                            ));
                            assert(shows_what_was_read(
                                namespace,
                                key,
                                item,
                                steps,
                                replies,
                                at,
                            ));
                            assert(items[fetch.items@.len() as int] == item);
                            lemma_next_backup(
                                namespace,
                                key,
                                orphans,
                                fetch,
                                items,
                                steps,
                                replies,
                                at - 4,
                                at,
                            );
                        },
                        _ => {},
                    }
                },
                _ => {},
            }
        }
    }
}

/// What a list begins with: the keychain's namespace, its records, the wallets of the device, and
/// the master key of the key store if some record belongs to none of them.
proof fn lemma_fetch_begins(steps: FetchSteps, replies: Seq<Reply>)
    requires
        FetchCloudOnlyFlow::began(steps[0]),
        is_conversation(steps, replies),
        steps.last() matches Progress::Done { value: Ok(_), .. },
    ensures
        replies.len() >= 3,
        steps[0].requests(Request::ReadKeychain(KeychainKey::NamespaceId)),
        replies[0] matches Reply::Keychain(Some(namespace)) && steps[1].requests(
            Request::ListWalletBackups { namespace },
        ),
        steps[2].requests(Request::ReadLocalWallets),
        replies[1] matches Reply::Listed(Ok(listed)) && (
        replies[2] matches Reply::LocalWallets(wallets) && {
            let orphans = records_without_wallet(listed@, wallets@);
            if orphans.len() == 0 {
                &&& replies.len() == 3
                &&& steps[3] matches Progress::Done { value: Ok(items), .. }
                &&& items@.len() == 0
            } else {
                &&& steps[3].requests(Request::GetOrCreateMasterKey)
                &&& replies.len() >= 4
                &&& replies[3] matches Reply::MasterKey(Ok(_))
            }
        }),
{
    assert(continues(steps[0], replies[0], steps[1]));
    assert(continues(steps[1], replies[1], steps[2]));
    assert(continues(steps[2], replies[2], steps[3]));
    if steps[3] is Ask {
        assert(continues(steps[3], replies[3], steps[4]));
        if !(steps[4] is Ask) {
            lemma_stop_is_last(steps, replies, 4);
        }
    } else {
        lemma_stop_is_last(steps, replies, 3);
    }
}

/// Every item of the list shows a wallet as the metadata describe it that were downloaded from the
/// keychain's namespace under the item's record, and decrypted with the master key of the key
/// store: its name, network, mode, type and fingerprint, as a wallet that is no longer on the
/// device.
pub proof fn law_items_show_what_was_read(
    steps: FetchSteps,
    replies: Seq<Reply>,
    items: Vec<CloudBackupWalletItem>,
    i: int,
)
    requires
        FetchCloudOnlyFlow::began(steps[0]),
        is_conversation(steps, replies),
        steps.last() matches Progress::Done { value: Ok(given), .. } && given == items,
        0 <= i < items@.len(),
    ensures
        replies[0] matches Reply::Keychain(Some(namespace)) && (
        replies[3] matches Reply::MasterKey(Ok(key)) && exists|at: int, wallet: WalletMetadata|
            {
                &&& 4 <= at
                &&& at + 4 <= replies.len()
                &&& #[trigger] is_backup_of(
                    namespace,
                    key,
                    items@[i].record_id,
                    wallet,
                    steps,
                    replies,
                    at,
                )
                &&& shows_wallet(items@[i], wallet, items@[i].record_id)
            }),
{
    lemma_fetch_begins(steps, replies);
    if let (
        Reply::Keychain(Some(namespace)),
        Reply::Listed(Ok(listed)),
        Reply::LocalWallets(wallets),
    ) = (replies[0], replies[1], replies[2]) {
        if let Reply::MasterKey(Ok(key)) = replies[3] {
            lemma_fetch_steps(
                namespace,
                key,
                listed,
                wallets,
                steps,
                replies,
                steps.len() - 1,
            );
            assert(shows_what_was_read(
                namespace,
                key,
                items@[i],
                steps,
                replies,
                steps.len() - 1,
            ));
        }
    }
}

/// No wallet that only the cloud has is left out: every record of the keychain's namespace that
/// belongs to no wallet on the device is downloaded, and its wallet is in the list if it can be
/// read.
pub proof fn law_list_tries_every_cloud_only_record(
    steps: FetchSteps,
    replies: Seq<Reply>,
    items: Vec<CloudBackupWalletItem>,
    record_id: String,
)
    requires
        FetchCloudOnlyFlow::began(steps[0]),
        is_conversation(steps, replies),
        steps.last() matches Progress::Done { value: Ok(given), .. } && given == items,
    ensures
        steps[0].requests(Request::ReadKeychain(KeychainKey::NamespaceId)),
        steps[2].requests(Request::ReadLocalWallets),
        replies[0] matches Reply::Keychain(Some(namespace)) && (replies[1] matches Reply::Listed(
            Ok(listed),
        ) && (replies[2] matches Reply::LocalWallets(wallets) && {
            &&& steps[1].requests(Request::ListWalletBackups { namespace })
            &&& listed@.contains(record_id) && (forall|i: int|
                0 <= i < wallets@.len() ==> (#[trigger] wallets@[i]).record_id@ != record_id@)
                ==> (steps[3].requests(Request::GetOrCreateMasterKey) && (
            replies[3] matches Reply::MasterKey(Ok(key)) && is_tried(
                namespace,
                key,
                record_id,
                items@,
                steps,
                replies,
                steps.len() - 1,
            )))
        })),
{
    lemma_fetch_begins(steps, replies);
    if let (
        Reply::Keychain(Some(namespace)),
        Reply::Listed(Ok(listed)),
        Reply::LocalWallets(wallets),
    ) = (replies[0], replies[1], replies[2]) {
        let orphans = records_without_wallet(listed@, wallets@);
        law_orphan_records(listed@, wallets@, record_id);
        if orphans.contains(record_id) {
            let r = orphans.index_of(record_id);
            if let Reply::MasterKey(Ok(key)) = replies[3] {
                lemma_fetch_steps(
                    namespace,
                    key,
                    listed,
                    wallets,
                    steps,
                    replies,
                    steps.len() - 1,
                );
                assert(orphans[r] == record_id);
            }
        }
    }
}

/// A list that fails says what failed; a backup that cannot be read is no failure.
pub proof fn law_failed_list_says_why(
    steps: FetchSteps,
    replies: Seq<Reply>,
    error: CloudBackupError,
)
    requires
        FetchCloudOnlyFlow::began(steps[0]),
        is_conversation(steps, replies),
        steps.last() matches Progress::Done { value: Err(given), .. } && given == error,
    ensures
        match replies.last() {
            Reply::Keychain(None) => error matches CloudBackupError::Internal(text) && text@
                == "namespace_id not found in keychain"@,
            Reply::Listed(Err(why)) => error matches CloudBackupError::Cloud(text) && text@
                == why.text()@,
            Reply::MasterKey(Err(why)) => error matches CloudBackupError::Internal(text) && text@
                == "master key"@ + ": "@ + why@,
            _ => false,
        },
{
    let end = replies.len() - 1;
    assert(continues(steps[end], replies[end], steps[end + 1]));
}

/// Deleting a wallet's backup deletes the record that was given from the keychain's namespace,
/// stops watching it there, and records as many wallets as the cloud lists then, with the last sync
/// as it was. That this could not be written is no failure.
pub proof fn law_delete_deletes_the_given_record(
    record_id: String,
    steps: Seq<Attempt<DeleteCloudWalletFlow, ()>>,
    replies: Seq<Reply>,
)
    requires
        DeleteCloudWalletFlow::began(record_id, steps[0]),
        is_conversation(steps, replies),
        steps.last() matches Progress::Done { value: Ok(_), .. },
    ensures
        replies.len() == 6,
        steps[0].requests(Request::ReadKeychain(KeychainKey::NamespaceId)),
        replies[0] matches Reply::Keychain(Some(named)) && {
            &&& steps[1].requests(Request::DeleteWalletBackup { namespace: named, record_id })
            &&& steps[2] matches Progress::Ask {
                request: Request::Call(Operation::RemoveUploads { namespace, record_ids }),
                ..
            } && namespace == named && record_ids@ == seq![record_id]
            &&& steps[3].requests(Request::ListWalletBackups { namespace: named })
        },
        replies[1] matches Reply::Stored(Ok(_)),
        replies[2] matches Reply::Returned(Outcome::Finished(Ok(_))),
        steps[4].requests(Request::ReadCloudBackup),
        replies[3] matches Reply::Listed(Ok(listed)) && (replies[4] matches Reply::CloudBackup(
            current,
        ) && steps[5].requests(
            Request::SaveCloudBackup(
                CloudBackup::Enabled {
                    last_sync: match current {
                        CloudBackup::Disabled => None,
                        CloudBackup::Enabled { last_sync, .. } => last_sync,
                        CloudBackup::Unverified { last_sync, .. } => last_sync,
                        CloudBackup::PasskeyMissing { last_sync, .. } => last_sync,
                    },
                    wallet_count: Some(listed@.len() as u32),
                },
            ),
        )),
        replies[5] is Written,
{
    assert(continues(steps[0], replies[0], steps[1]));
    assert(continues(steps[1], replies[1], steps[2]));
    assert(continues(steps[2], replies[2], steps[3]));
    assert(continues(steps[3], replies[3], steps[4]));
    assert(continues(steps[4], replies[4], steps[5]));
    assert(continues(steps[5], replies[5], steps[6]));
    lemma_stop_is_last(steps, replies, 6);
}

/// A deletion that fails says what failed.
pub proof fn law_failed_delete_says_why(
    record_id: String,
    steps: Seq<Attempt<DeleteCloudWalletFlow, ()>>,
    replies: Seq<Reply>,
    error: CloudBackupError,
)
    requires
        DeleteCloudWalletFlow::began(record_id, steps[0]),
        is_conversation(steps, replies),
        steps.last() matches Progress::Done { value: Err(given), .. } && given == error,
    ensures
        match replies.last() {
            Reply::Keychain(None) => error matches CloudBackupError::Internal(text) && text@
                == "namespace_id not found in keychain"@,
            Reply::Stored(Err(why)) => error matches CloudBackupError::Cloud(text) && text@
                == why.text()@,
            Reply::Listed(Err(why)) => error matches CloudBackupError::Cloud(text) && text@
                == why.text()@,
            Reply::Returned(Outcome::Finished(Err(failure))) => error == failure,
            _ => false,
        },
{
    let end = replies.len() - 1;
    assert(continues(steps[end], replies[end], steps[end + 1]));
}

} // verus!
