//! Wallets as the backup sees them.

use vstd::prelude::*;

use crate::sequences::{lemma_filter_contains, lemma_filter_ends, lemma_filter_take};
use crate::text::{contains_text, copy_bytes, texts};

verus! {

/// A Bitcoin network, by the code under which the wallet database files it.
#[derive(Debug, Clone, Copy, PartialEq, Eq, Hash, Structural)]
pub struct Network {
    pub code: u8,
}

/// Which of the two sets of wallets a wallet belongs to.
#[derive(Debug, Clone, Copy, PartialEq, Eq, Hash, Structural)]
pub enum WalletMode {
    Main,
    Decoy,
}

/// Where the signing key of a wallet is.
#[derive(Debug, Clone, Copy, PartialEq, Eq, Hash, Structural)]
pub enum WalletType {
    Hot,
    Cold,
    XpubOnly,
    WatchOnly,
}

/// A wallet on this device.
#[derive(Debug, PartialEq, Eq)]
pub struct WalletMetadata {
    pub id: String,
    pub name: String,
    /// Deterministic identifier of the wallet's backup in the cloud.
    pub record_id: String,
    pub network: Network,
    pub wallet_mode: WalletMode,
    pub wallet_type: WalletType,
    /// The master fingerprint in upper-case hexadecimal.
    pub master_fingerprint: Option<String>,
    /// Whether the wallet's hardware is a tap signer.
    pub is_tap_signer: bool,
}

/// What tells an imported wallet apart from those that are already on the device.
#[derive(Debug, PartialEq, Eq)]
pub struct KnownWallet {
    pub fingerprint: String,
    pub network: Network,
    pub wallet_mode: WalletMode,
}

/// The two public descriptors of a wallet.
#[derive(Debug, PartialEq, Eq)]
pub struct DescriptorPair {
    pub external: String,
    pub internal: String,
}

/// A wallet's secret as the cloud backup holds it.
#[derive(Debug, PartialEq, Eq)]
pub enum CloudWalletSecret {
    Mnemonic(String),
    TapSignerBackup(Vec<u8>),
    Descriptor(String),
    WatchOnly,
}

/// A wallet's secret as the device imports it.
#[derive(Debug, PartialEq, Eq)]
pub enum LocalWalletSecret {
    Mnemonic(String),
    TapSignerBackup(Vec<u8>),
    NoSecret,
}

/// The plain content of one wallet backup.
#[derive(Debug, PartialEq, Eq)]
pub struct WalletEntry {
    pub wallet_id: String,
    pub secret: CloudWalletSecret,
    /// The wallet's metadata as JSON text.
    pub metadata: String,
    pub descriptors: Option<DescriptorPair>,
    pub xpub: Option<String>,
    pub wallet_mode: WalletMode,
}

/// A wallet that is handed to the importer.
#[derive(Debug, PartialEq, Eq)]
pub struct WalletBackup {
    /// The wallet's metadata as JSON text.
    pub metadata: String,
    pub secret: LocalWalletSecret,
    pub descriptors: Option<DescriptorPair>,
    pub xpub: Option<String>,
    pub labels_jsonl: Option<String>,
}

/// A master key that the key store holds, and the namespace derived from it.
#[derive(Debug, PartialEq, Eq)]
pub struct MasterKey {
    /// Where the key store keeps the key.
    pub slot: u32,
    pub namespace_id: String,
}

/// A parsed backup of a master key, still encrypted.
#[derive(Debug, PartialEq, Eq)]
pub struct EncryptedMasterKey {
    pub version: u32,
    pub prf_salt: [u8; 32],
    pub payload: Vec<u8>,
}

/// A parsed backup of a wallet, still encrypted.
#[derive(Debug, PartialEq, Eq)]
pub struct EncryptedWallet {
    pub version: u32,
    pub payload: Vec<u8>,
}

/// A copy of an optional text.
pub fn copy_text(text: &Option<String>) -> (copy: Option<String>)
    ensures
        copy == *text,
{
    match text {
        Some(value) => Some(value.clone()),
        None => None,
    }
}

impl Clone for WalletMetadata {
    fn clone(&self) -> (copy: Self)
        ensures
            copy == *self,
    {
        WalletMetadata {
            id: self.id.clone(),
            name: self.name.clone(),
            record_id: self.record_id.clone(),
            network: self.network,
            wallet_mode: self.wallet_mode,
            wallet_type: self.wallet_type,
            master_fingerprint: copy_text(&self.master_fingerprint),
            is_tap_signer: self.is_tap_signer,
        }
    }
}

impl Clone for KnownWallet {
    fn clone(&self) -> (copy: Self)
        ensures
            copy == *self,
    {
        KnownWallet {
            fingerprint: self.fingerprint.clone(),
            network: self.network,
            wallet_mode: self.wallet_mode,
        }
    }
}

impl Clone for MasterKey {
    fn clone(&self) -> (copy: Self)
        ensures
            copy == *self,
    {
        MasterKey { slot: self.slot, namespace_id: self.namespace_id.clone() }
    }
}

impl CloudWalletSecret {
    /// Whether `local` is what the device imports for this secret.
    pub open spec fn converts_to(self, local: LocalWalletSecret) -> bool {
        match self {
            CloudWalletSecret::Mnemonic(words) => local == LocalWalletSecret::Mnemonic(words),
            CloudWalletSecret::TapSignerBackup(backup) => {
                &&& local matches LocalWalletSecret::TapSignerBackup(bytes)
                &&& bytes@ == backup@
            },
            CloudWalletSecret::Descriptor(_) => local == LocalWalletSecret::NoSecret,
            CloudWalletSecret::WatchOnly => local == LocalWalletSecret::NoSecret,
        }
    }
}

/// The secret that the device imports: a descriptor is kept elsewhere and a watch-only wallet has
/// none.
pub fn convert_cloud_secret(secret: &CloudWalletSecret) -> (local: LocalWalletSecret)
    ensures
        secret.converts_to(local),
{
    match secret {
        CloudWalletSecret::Mnemonic(words) => LocalWalletSecret::Mnemonic(words.clone()),
        CloudWalletSecret::TapSignerBackup(backup) => LocalWalletSecret::TapSignerBackup(
            copy_bytes(backup),
        ),
        CloudWalletSecret::Descriptor(_)
        | CloudWalletSecret::WatchOnly => LocalWalletSecret::NoSecret,
    }
}

/// The queries that reach every wallet: each network in turn, the main wallets before the decoys.
pub open spec fn queries_of(networks: Seq<Network>) -> Seq<(Network, WalletMode)> {
    Seq::new(
        2 * networks.len(),
        |i: int|
            (
                networks[i / 2],
                if i % 2 == 0 {
                    WalletMode::Main
                } else {
                    WalletMode::Decoy
                },
            ),
    )
}

/// The queries that reach every wallet: each network in turn, the main wallets before the decoys.
pub fn wallet_queries(networks: &Vec<Network>) -> (queries: Vec<(Network, WalletMode)>)
    ensures
        queries@ == queries_of(networks@),
{
    let mut queries: Vec<(Network, WalletMode)> = Vec::new();
    let mut i: usize = 0;
    while i < networks.len()
        invariant
            i <= networks@.len(),
            queries@ =~= queries_of(networks@).take(2 * i),
        decreases networks@.len() - i,
    {
        queries.push((networks[i], WalletMode::Main));
        queries.push((networks[i], WalletMode::Decoy));
        i += 1;
    }
    queries
}

/// Every network is asked for its wallets of either mode.
pub proof fn law_queries_reach_every_wallet(
    networks: Seq<Network>,
    network: Network,
    mode: WalletMode,
)
    ensures
        queries_of(networks).contains((network, mode)) <==> networks.contains(network),
{
    let queries = queries_of(networks);
    if networks.contains(network) {
        let i = choose|i: int| 0 <= i < networks.len() && networks[i] == network;
        let at = if mode == WalletMode::Main {
            2 * i
        } else {
            2 * i + 1
        };
        assert(queries[at] == (network, mode));
    }
    if queries.contains((network, mode)) {
        let at = choose|at: int| 0 <= at < queries.len() && queries[at] == (network, mode);
        assert(networks[at / 2] == network);
    }
}

/// The wallets that a list of query results holds, in order; a failed query holds none.
pub open spec fn listed_wallets(
    results: Seq<Result<Vec<WalletMetadata>, String>>,
) -> Seq<WalletMetadata>
    decreases results.len(),
{
    if results.len() == 0 {
        Seq::empty()
    } else {
        listed_wallets(results.drop_last()) + match results.last() {
            Ok(wallets) => wallets@,
            Err(_) => Seq::empty(),
        }
    }
}

/// All local wallets, from the results of [`wallet_queries`]; a query that failed adds none.
pub fn all_local_wallets(results: Vec<Result<Vec<WalletMetadata>, String>>) -> (wallets: Vec<
    WalletMetadata,
>)
    ensures
        wallets@ == listed_wallets(results@),
{
    let mut wallets: Vec<WalletMetadata> = Vec::new();
    for result in iter: results
        invariant
            wallets@ == listed_wallets(iter.seq().take(iter.index() as int)),
    {
        assert(iter.seq().take(iter.index() + 1).drop_last() =~= iter.seq().take(
            iter.index() as int,
        ));
        if let Ok(mut found) = result {
            wallets.append(&mut found);
        }
    }
    assert(results@.take(results@.len() as int) =~= results@);
    wallets
}

/// The number of local wallets.
pub fn count_all_wallets(wallets: &Vec<WalletMetadata>) -> (count: u32)
    ensures
        count == wallets@.len() as u32,
{
    wallets.len() as u32
}

/// The record identifiers of `wallets`, in order.
pub open spec fn record_ids_of(wallets: Seq<WalletMetadata>) -> Seq<String> {
    wallets.map_values(|wallet: WalletMetadata| wallet.record_id)
}

/// The wallets whose backup is not among `record_ids`, in order.
pub open spec fn wallets_missing_from(
    wallets: Seq<WalletMetadata>,
    record_ids: Seq<Seq<char>>,
) -> Seq<WalletMetadata> {
    wallets.filter(|wallet: WalletMetadata| !record_ids.contains(wallet.record_id@))
}

/// The wallets whose backup is not among `record_ids`, in order.
pub fn missing_wallets(wallets: &Vec<WalletMetadata>, record_ids: &Vec<String>) -> (missing: Vec<
    WalletMetadata,
>)
    ensures
        missing@ == wallets_missing_from(wallets@, texts(record_ids@)),
{
    let ghost keep = |wallet: WalletMetadata| !texts(record_ids@).contains(wallet.record_id@);
    let mut missing: Vec<WalletMetadata> = Vec::new();
    let mut i: usize = 0;
    proof {
        lemma_filter_ends(wallets@, keep);
    }
    while i < wallets.len()
        invariant
            i <= wallets@.len(),
            keep == (|wallet: WalletMetadata| !texts(record_ids@).contains(wallet.record_id@)),
            missing@ == wallets@.take(i as int).filter(keep),
        decreases wallets@.len() - i,
    {
        proof {
            lemma_filter_take(wallets@, i as int, keep);
        }
        if !contains_text(record_ids, &wallets[i].record_id) {
            missing.push(wallets[i].clone());
        }
        i += 1;
    }
    missing
}

/// The record identifiers of `listed` that belong to no wallet of `wallets`, in order.
pub open spec fn records_without_wallet(
    listed: Seq<String>,
    wallets: Seq<WalletMetadata>,
) -> Seq<String> {
    listed.filter(|record_id: String| !texts(record_ids_of(wallets)).contains(record_id@))
}

/// The record identifiers of `wallets`, in order.
pub fn record_ids(wallets: &Vec<WalletMetadata>) -> (ids: Vec<String>)
    ensures
        ids@ == record_ids_of(wallets@),
{
    let mut ids: Vec<String> = Vec::new();
    let mut i: usize = 0;
    while i < wallets.len()
        invariant
            i <= wallets@.len(),
            ids@ =~= record_ids_of(wallets@).take(i as int),
        decreases wallets@.len() - i,
    {
        ids.push(wallets[i].record_id.clone());
        i += 1;
    }
    ids
}

/// The record identifiers of `listed` that belong to no wallet of `wallets`, in order.
pub fn orphan_records(listed: &Vec<String>, wallets: &Vec<WalletMetadata>) -> (orphans: Vec<String>)
    ensures
        orphans@ == records_without_wallet(listed@, wallets@),
{
    let local: Vec<String> = record_ids(wallets);
    let ghost keep = |record_id: String| !texts(record_ids_of(wallets@)).contains(record_id@);
    let mut orphans: Vec<String> = Vec::new();
    let mut i: usize = 0;
    proof {
        lemma_filter_ends(listed@, keep);
    }
    while i < listed.len()
        invariant
            i <= listed@.len(),
            local@ == record_ids_of(wallets@),
            keep == (|record_id: String|
                !texts(record_ids_of(wallets@)).contains(record_id@)),
            orphans@ == listed@.take(i as int).filter(keep),
        decreases listed@.len() - i,
    {
        proof {
            lemma_filter_take(listed@, i as int, keep);
        }
        if !contains_text(&local, &listed[i]) {
            orphans.push(listed[i].clone());
        }
        i += 1;
    }
    orphans
}

/// How `wallet` is told apart, if it has a master fingerprint.
pub open spec fn known_wallet_of(wallet: WalletMetadata) -> Option<KnownWallet> {
    match wallet.master_fingerprint {
        Some(fingerprint) => Some(
            KnownWallet {
                fingerprint,
                network: wallet.network,
                wallet_mode: wallet.wallet_mode,
            },
        ),
        None => None,
    }
}

/// How the wallets that have a master fingerprint are told apart, in order.
pub open spec fn known_wallets_of(wallets: Seq<WalletMetadata>) -> Seq<KnownWallet>
    decreases wallets.len(),
{
    if wallets.len() == 0 {
        Seq::empty()
    } else {
        let before = known_wallets_of(wallets.drop_last());
        match known_wallet_of(wallets.last()) {
            Some(known) => before.push(known),
            None => before,
        }
    }
}

/// How `wallet` is told apart, if it has a master fingerprint.
pub fn known_wallet(wallet: &WalletMetadata) -> (known: Option<KnownWallet>)
    ensures
        known == known_wallet_of(*wallet),
{
    match &wallet.master_fingerprint {
        Some(fingerprint) => Some(
            KnownWallet {
                fingerprint: fingerprint.clone(),
                network: wallet.network,
                wallet_mode: wallet.wallet_mode,
            },
        ),
        None => None,
    }
}

/// How the wallets that have a master fingerprint are told apart, in order.
pub fn known_wallets(wallets: &Vec<WalletMetadata>) -> (known: Vec<KnownWallet>)
    ensures
        known@ == known_wallets_of(wallets@),
{
    let mut known: Vec<KnownWallet> = Vec::new();
    let mut i: usize = 0;
    while i < wallets.len()
        invariant
            i <= wallets@.len(),
            known@ == known_wallets_of(wallets@.take(i as int)),
        decreases wallets@.len() - i,
    {
        assert(wallets@.take(i + 1).drop_last() =~= wallets@.take(i as int));
        if let Some(item) = known_wallet(&wallets[i]) {
            known.push(item);
        }
        i += 1;
    }
    assert(wallets@.take(wallets@.len() as int) =~= wallets@);
    known
}

/// A copy of `known`.
pub fn copy_known_wallets(known: &Vec<KnownWallet>) -> (copy: Vec<KnownWallet>)
    ensures
        copy@ == known@,
{
    let copy: Vec<KnownWallet> = known.clone();
    assert(copy@ =~= known@);
    copy
}

/// A wallet is missing from a list of records exactly if its own record is not there.
pub proof fn law_missing_wallets(
    wallets: Seq<WalletMetadata>,
    record_ids: Seq<Seq<char>>,
    wallet: WalletMetadata,
)
    ensures
        wallets_missing_from(wallets, record_ids).contains(wallet) <==> wallets.contains(wallet)
            && !record_ids.contains(wallet.record_id@),
{
    let keep = |missing: WalletMetadata| !record_ids.contains(missing.record_id@);
    lemma_filter_contains(wallets, keep, wallet);
}

/// A listed record belongs either to a wallet on the device or to none, and to none exactly if it
/// is among the records without a wallet.
pub proof fn law_orphan_records(
    listed: Seq<String>,
    wallets: Seq<WalletMetadata>,
    record_id: String,
)
    ensures
        records_without_wallet(listed, wallets).contains(record_id) <==> listed.contains(record_id)
            && forall|i: int|
            0 <= i < wallets.len() ==> (#[trigger] wallets[i]).record_id@ != record_id@,
{
    let keep = |id: String| !texts(record_ids_of(wallets)).contains(id@);
    lemma_filter_contains(listed, keep, record_id);
    let owned = texts(record_ids_of(wallets));
    if owned.contains(record_id@) {
        let at = owned.index_of(record_id@);
        assert(wallets[at].record_id@ == record_id@);
    }
    if exists|i: int| 0 <= i < wallets.len() && (#[trigger] wallets[i]).record_id@ == record_id@ {
        let i = choose|i: int|
            0 <= i < wallets.len() && (#[trigger] wallets[i]).record_id@ == record_id@;
        assert(owned[i] == record_id@);
    }
}

/// Whether `known` tells apart `wallet`: by its master fingerprint, its network and its mode.
pub open spec fn tells_apart(known: KnownWallet, wallet: WalletMetadata) -> bool {
    &&& wallet.master_fingerprint == Some(known.fingerprint)
    &&& known.network == wallet.network
    &&& known.wallet_mode == wallet.wallet_mode
}

/// Whether one of `known` tells apart `wallet`.
pub open spec fn is_known_among(known: Seq<KnownWallet>, wallet: WalletMetadata) -> bool {
    exists|j: int| 0 <= j < known.len() && tells_apart(#[trigger] known[j], wallet)
}

/// Whether `known` tells apart one of `wallets`.
pub open spec fn is_one_of(known: KnownWallet, wallets: Seq<WalletMetadata>) -> bool {
    exists|i: int| 0 <= i < wallets.len() && tells_apart(known, #[trigger] wallets[i])
}

/// Whether `known` tells apart the wallets of `wallets` that have a master fingerprint, and nothing
/// else.
pub open spec fn is_known_list(wallets: Seq<WalletMetadata>, known: Seq<KnownWallet>) -> bool {
    &&& forall|i: int|
        0 <= i < wallets.len() && (#[trigger] wallets[i]).master_fingerprint is Some
            ==> is_known_among(known, wallets[i])
    &&& forall|j: int| 0 <= j < known.len() ==> is_one_of(#[trigger] known[j], wallets)
}

/// The known wallets are exactly those that have a master fingerprint.
pub proof fn law_known_wallets(wallets: Seq<WalletMetadata>)
    ensures
        is_known_list(wallets, known_wallets_of(wallets)),
    decreases wallets.len(),
{
    if wallets.len() > 0 {
        let before = wallets.drop_last();
        let fewer = known_wallets_of(before);
        let known = known_wallets_of(wallets);
        let last = wallets.len() - 1;
        law_known_wallets(before);
        assert forall|i: int| 0 <= i < wallets.len() && (
        #[trigger] wallets[i]).master_fingerprint is Some implies is_known_among(
            known,
            wallets[i],
        ) by {
            if i < last {
                assert(before[i] == wallets[i]);
                let j = choose|j: int|
                    0 <= j < fewer.len() && tells_apart(#[trigger] fewer[j], wallets[i]);
                assert(known[j] == fewer[j]);
            } else {
                assert(tells_apart(known[fewer.len() as int], wallets[i]));
            }
        }
        assert forall|j: int| 0 <= j < known.len() implies is_one_of(
            #[trigger] known[j],
            wallets,
        ) by {
            if j < fewer.len() {
                assert(known[j] == fewer[j]);
                let i = choose|i: int|
                    0 <= i < before.len() && tells_apart(fewer[j], #[trigger] before[i]);
                assert(wallets[i] == before[i]);
            } else {
                assert(tells_apart(known[j], wallets[last]));
            }
        }
    }
}

/// A recovery phrase and a tap signer's backup are imported as they are, and nothing else is
/// imported as a secret.
pub proof fn law_secrets_are_imported_as_they_are(
    secret: CloudWalletSecret,
    local: LocalWalletSecret,
)
    requires
        secret.converts_to(local),
    ensures
        match local {
            LocalWalletSecret::Mnemonic(words) => secret == CloudWalletSecret::Mnemonic(words),
            LocalWalletSecret::TapSignerBackup(bytes) => {
                &&& secret matches CloudWalletSecret::TapSignerBackup(backup)
                &&& backup@ == bytes@
            },
            LocalWalletSecret::NoSecret => secret is Descriptor || secret is WatchOnly,
        },
{
}

/// The wallets of all queries stand in the order of the queries, each query's in its own order; a
/// query that failed adds none.
pub proof fn law_wallets_are_listed_in_order(
    first: Seq<Result<Vec<WalletMetadata>, String>>,
    second: Seq<Result<Vec<WalletMetadata>, String>>,
    wallets: Vec<WalletMetadata>,
    error: String,
)
    ensures
        listed_wallets(first + second) == listed_wallets(first) + listed_wallets(second),
        listed_wallets(seq![Ok(wallets)]) == wallets@,
        listed_wallets(seq![Err(error)]) == Seq::<WalletMetadata>::empty(),
        listed_wallets(Seq::empty()) == Seq::<WalletMetadata>::empty(),
    decreases second.len(),
{
    reveal_with_fuel(listed_wallets, 2);
    let found: Seq<Result<Vec<WalletMetadata>, String>> = seq![Ok(wallets)];
    let failed: Seq<Result<Vec<WalletMetadata>, String>> = seq![Err(error)];
    assert(found.drop_last() =~= Seq::empty());
    assert(failed.drop_last() =~= Seq::empty());
    assert(listed_wallets(found) =~= wallets@);
    assert(listed_wallets(failed) =~= Seq::empty());
    if second.len() == 0 {
        assert(first + second =~= first);
        assert(listed_wallets(first) + listed_wallets(second) =~= listed_wallets(first));
    } else {
        let fewer = second.drop_last();
        law_wallets_are_listed_in_order(first, fewer, wallets, error);
        assert((first + second).drop_last() =~= first + fewer);
        assert(listed_wallets(first + second) =~= listed_wallets(first) + listed_wallets(second));
    }
}

/// There is one record for each wallet, in order: its own.
pub proof fn law_every_wallet_has_its_record(wallets: Seq<WalletMetadata>)
    ensures
        record_ids_of(wallets).len() == wallets.len(),
        forall|i: int|
            0 <= i < wallets.len() ==> (#[trigger] record_ids_of(wallets)[i])
                == wallets[i].record_id,
{
}

} // verus!
