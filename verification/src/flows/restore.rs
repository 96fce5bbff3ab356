//! Bringing wallets back from the cloud.

pub mod laws;

use vstd::prelude::*;

use crate::entropy::{bytes_of_key, key_from_bytes};
use crate::error::{
    from_storage_error, internal_error, CloudBackupError, CloudBackupErrorView,
};
use crate::flows::passkey::{from_passkey_failure, odd_output, output_too_odd};
use crate::hexcode::{hex_text, to_hex};
use crate::mnemonic::{parse_mnemonic, parsed_mnemonic};
use crate::protocol::{
    announce, announces, current_namespace_id, fail, fails, namespace_missing, one_effect,
    two_effects, Attempt, Effect, KeychainKey, Operation, Outcome, Progress, Reply, Request,
    RestoredWallet, RP_ID,
};
use crate::record::CloudBackup;
use crate::state::{
    CloudBackupReconcileMessage, CloudBackupRestoreReport, CloudBackupRestoreReportView,
    CloudBackupStatus,
};
use crate::text::{
    concat4, copy_bytes, decimal, decimal_text, owned, prefixed, prefixed_text, texts,
};
use crate::wallet::{
    convert_cloud_secret, copy_known_wallets, known_wallet, known_wallet_of, known_wallets,
    known_wallets_of, CloudWalletSecret, EncryptedWallet, KnownWallet, LocalWalletSecret, MasterKey,
    WalletBackup, WalletEntry, WalletMetadata,
};

verus! {

/// The version of the backups that this library reads.
pub const BACKUP_VERSION: u32 = 1;

/// Downloads and imports one wallet, unless it is on the device already.
pub struct RestoreWalletFlow {
    /// The wallets on the device.
    pub known: Vec<KnownWallet>,
    pub phase: RestoreWalletPhase,
}

/// How far the wallet is.
pub enum RestoreWalletPhase {
    Download { record_id: String, key: MasterKey },
    Parse { key: MasterKey },
    Open,
    Metadata { entry: WalletEntry },
    Duplicate { entry: WalletEntry, wallet: WalletMetadata },
    ImportMnemonic { wallet: WalletMetadata },
    ImportDescriptor { wallet: WalletMetadata },
}

impl RestoreWalletFlow {
    /// The wallet was not restored; the device has the wallets it had.
    pub open spec fn failed(
        known: Vec<KnownWallet>,
        error: CloudBackupErrorView,
        progress: Progress<Self, RestoredWallet>,
    ) -> bool {
        &&& progress matches Progress::Done { effects, value }
        &&& effects@ == Seq::<Effect>::empty()
        &&& value.known == known
        &&& value.result matches Err(failure)
        &&& failure@ == error
    }

    /// The wallet is on the device, which has these wallets.
    pub open spec fn restored(
        known: Seq<KnownWallet>,
        progress: Progress<Self, RestoredWallet>,
    ) -> bool {
        &&& progress matches Progress::Done { effects, value }
        &&& effects@ == Seq::<Effect>::empty()
        &&& value.known@ == known
        &&& value.result is Ok
    }

    /// What follows for a recovery phrase that parsed, or not.
    pub open spec fn imports_mnemonic(
        known: Vec<KnownWallet>,
        wallet: WalletMetadata,
        parsed: Result<Seq<char>, Seq<char>>,
        progress: Progress<Self, RestoredWallet>,
    ) -> bool {
        match parsed {
            Ok(words) => {
                &&& progress matches Progress::Ask {
                    flow,
                    effects,
                    request: Request::ImportMnemonicWallet { wallet: imported, phrase },
                }
                &&& flow == (RestoreWalletFlow {
                    known,
                    phase: RestoreWalletPhase::ImportMnemonic { wallet },
                })
                &&& effects@ == Seq::<Effect>::empty()
                &&& imported == wallet
                &&& phrase@ == words
            },
            Err(error) => Self::failed(
                known,
                CloudBackupErrorView::Internal(prefixed_text("invalid mnemonic"@, error)),
                progress,
            ),
        }
    }

    /// What follows for a wallet without a recovery phrase.
    pub open spec fn imports_descriptor(
        known: Vec<KnownWallet>,
        wallet: WalletMetadata,
        entry: WalletEntry,
        progress: Progress<Self, RestoredWallet>,
    ) -> bool {
        &&& progress matches Progress::Ask {
            flow,
            effects,
            request: Request::ImportDescriptorWallet { wallet: imported, backup },
        }
        &&& flow == (RestoreWalletFlow {
            known,
            phase: RestoreWalletPhase::ImportDescriptor { wallet },
        })
        &&& effects@ == Seq::<Effect>::empty()
        &&& imported == wallet
        &&& backup.metadata == entry.metadata
        &&& entry.secret.converts_to(backup.secret)
        &&& backup.descriptors == entry.descriptors
        &&& backup.xpub == entry.xpub
        &&& backup.labels_jsonl is None
    }

    /// The wallets on the device once `wallet` is among them.
    pub open spec fn known_with(
        known: Seq<KnownWallet>,
        wallet: WalletMetadata,
    ) -> Seq<KnownWallet> {
        match known_wallet_of(wallet) {
            Some(item) => known.push(item),
            None => known,
        }
    }

    /// What follows a reply. A search for a duplicate that fails counts as finding none.
    pub open spec fn next(self, reply: Reply, progress: Progress<Self, RestoredWallet>) -> bool {
        match (self.phase, reply) {
            (RestoreWalletPhase::Download { record_id, key }, Reply::Downloaded(Ok(bytes))) =>
                progress.asks(
                RestoreWalletFlow { phase: RestoreWalletPhase::Parse { key }, ..self },
                Request::ParseWalletBackup { bytes },
            ),
            (RestoreWalletPhase::Download { record_id, key }, Reply::Downloaded(Err(error))) =>
                Self::failed(
                self.known,
                CloudBackupErrorView::Cloud("download "@ + record_id@ + ": "@ + error.text()@),
                progress,
            ),
            (RestoreWalletPhase::Parse { key }, Reply::WalletBackup(Ok(backup))) =>
                if backup.version != BACKUP_VERSION {
                Self::failed(
                    self.known,
                    CloudBackupErrorView::Internal(
                        prefixed_text(
                            "unsupported wallet backup version"@,
                            decimal_text(backup.version as nat),
                        ),
                    ),
                    progress,
                )
            } else {
                progress.asks(
                    RestoreWalletFlow { phase: RestoreWalletPhase::Open, ..self },
                    Request::OpenWallet { backup, key },
                )
            },
            (RestoreWalletPhase::Parse { key }, Reply::WalletBackup(Err(error))) => Self::failed(
                self.known,
                CloudBackupErrorView::Internal(prefixed_text("deserialize wallet"@, error@)),
                progress,
            ),
            (RestoreWalletPhase::Open, Reply::Wallet(Ok(entry))) => progress.asks(
                RestoreWalletFlow { phase: RestoreWalletPhase::Metadata { entry }, ..self },
                Request::ParseMetadata { json: entry.metadata },
            ),
            (RestoreWalletPhase::Open, Reply::Wallet(Err(error))) => Self::failed(
                self.known,
                CloudBackupErrorView::Crypto(prefixed_text("decrypt wallet"@, error@)),
                progress,
            ),
            (RestoreWalletPhase::Metadata { entry }, Reply::Metadata(Ok(wallet))) => {
                &&& progress matches Progress::Ask {
                    flow,
                    effects,
                    request: Request::IsDuplicateWallet { wallet: sought, known },
                }
                &&& flow == (RestoreWalletFlow {
                    phase: RestoreWalletPhase::Duplicate { entry, wallet },
                    ..self
                })
                &&& effects@ == Seq::<Effect>::empty()
                &&& sought == wallet
                &&& known@ == self.known@
            },
            (RestoreWalletPhase::Metadata { entry }, Reply::Metadata(Err(error))) => Self::failed(
                self.known,
                CloudBackupErrorView::Internal(prefixed_text("parse wallet metadata"@, error@)),
                progress,
            ),
            (RestoreWalletPhase::Duplicate { entry, wallet }, Reply::Duplicate(found)) =>
                if found == Ok::<bool, String>(true) {
                Self::restored(self.known@, progress)
            } else {
                match entry.secret {
                    CloudWalletSecret::Mnemonic(words) => Self::imports_mnemonic(
                        self.known,
                        wallet,
                        parsed_mnemonic(words@),
                        progress,
                    ),
                    _ => Self::imports_descriptor(self.known, wallet, entry, progress),
                }
            },
            (RestoreWalletPhase::ImportMnemonic { wallet }, Reply::Written(Ok(_))) =>
                Self::restored(Self::known_with(self.known@, wallet), progress),
            (RestoreWalletPhase::ImportMnemonic { wallet }, Reply::Written(Err(error))) =>
                Self::failed(
                self.known,
                CloudBackupErrorView::Internal(prefixed_text("restore mnemonic wallet"@, error@)),
                progress,
            ),
            (RestoreWalletPhase::ImportDescriptor { wallet }, Reply::Written(Ok(_))) =>
                Self::restored(Self::known_with(self.known@, wallet), progress),
            (RestoreWalletPhase::ImportDescriptor { wallet }, Reply::Written(Err(error))) =>
                Self::failed(
                self.known,
                CloudBackupErrorView::Internal(
                    prefixed_text("restore descriptor wallet"@, error@),
                ),
                progress,
            ),
            _ => progress.refuses(self),
        }
    }

    fn fail_with(known: Vec<KnownWallet>, error: CloudBackupError) -> (progress: Progress<
        Self,
        RestoredWallet,
    >)
        ensures
            Self::failed(known, error@, progress),
    {
        Progress::end(RestoredWallet { known, result: Err(error) })
    }

    /// Goes on with the outcome of parsing a wallet's recovery phrase.
    pub fn import_mnemonic(
        known: Vec<KnownWallet>,
        wallet: WalletMetadata,
        parsed: Result<String, String>,
    ) -> (progress: Progress<Self, RestoredWallet>)
        ensures
            Self::imports_mnemonic(
                known,
                wallet,
                match parsed {
                    Ok(phrase) => Ok(phrase@),
                    Err(error) => Err(error@),
                },
                progress,
            ),
    {
        match parsed {
            Ok(phrase) => {
                let imported: WalletMetadata = wallet.clone();
                Progress::ask(
                    RestoreWalletFlow {
                        known,
                        phase: RestoreWalletPhase::ImportMnemonic { wallet },
                    },
                    Request::ImportMnemonicWallet { wallet: imported, phrase },
                )
            },
            Err(error) => Self::fail_with(known, internal_error("invalid mnemonic", &error)),
        }
    }

    fn import(known: Vec<KnownWallet>, wallet: WalletMetadata, entry: WalletEntry) -> (progress:
        Progress<Self, RestoredWallet>)
        ensures
            match entry.secret {
                CloudWalletSecret::Mnemonic(words) => Self::imports_mnemonic(
                    known,
                    wallet,
                    parsed_mnemonic(words@),
                    progress,
                ),
                _ => Self::imports_descriptor(known, wallet, entry, progress),
            },
    {
        let secret: LocalWalletSecret = convert_cloud_secret(&entry.secret);
        if let LocalWalletSecret::Mnemonic(words) = &secret {
            let parsed: Result<String, String> = parse_mnemonic(words.as_str());
            return Self::import_mnemonic(known, wallet, parsed);
        }
        let imported: WalletMetadata = wallet.clone();
        let backup = WalletBackup {
            metadata: entry.metadata,
            secret,
            descriptors: entry.descriptors,
            xpub: entry.xpub,
            labels_jsonl: None,
        };
        Progress::ask(
            RestoreWalletFlow { known, phase: RestoreWalletPhase::ImportDescriptor { wallet } },
            Request::ImportDescriptorWallet { wallet: imported, backup },
        )
    }

    fn succeed(known: Vec<KnownWallet>, wallet: &WalletMetadata) -> (progress: Progress<
        Self,
        RestoredWallet,
    >)
        ensures
            Self::restored(Self::known_with(known@, *wallet), progress),
    {
        let mut known: Vec<KnownWallet> = known;
        if let Some(item) = known_wallet(wallet) {
            known.push(item);
        }
        Progress::end(RestoredWallet { known, result: Ok(()) })
    }

    /// The first step.
    pub open spec fn began(
        namespace: String,
        record_id: String,
        key: MasterKey,
        known: Vec<KnownWallet>,
        progress: Progress<Self, RestoredWallet>,
    ) -> bool {
        progress.asks(
            RestoreWalletFlow {
                known,
                phase: RestoreWalletPhase::Download { record_id, key },
            },
            Request::DownloadWalletBackup { namespace, record_id },
        )
    }

    /// Starts with the download.
    pub fn start(
        namespace: String,
        record_id: String,
        key: MasterKey,
        known: Vec<KnownWallet>,
    ) -> (progress: Progress<Self, RestoredWallet>)
        ensures
            Self::began(namespace, record_id, key, known, progress),
    {
        let sought: String = record_id.clone();
        Progress::ask(
            RestoreWalletFlow { known, phase: RestoreWalletPhase::Download { record_id, key } },
            Request::DownloadWalletBackup { namespace, record_id: sought },
        )
    }

    /// Goes on with a reply.
    pub fn step(self, reply: Reply) -> (progress: Progress<Self, RestoredWallet>)
        ensures
            self.next(reply, progress),
    {
        let RestoreWalletFlow { known, phase } = self;
        match (phase, reply) {
            (RestoreWalletPhase::Download { key, .. }, Reply::Downloaded(Ok(bytes))) =>
                Progress::ask(
                RestoreWalletFlow { known, phase: RestoreWalletPhase::Parse { key } },
                Request::ParseWalletBackup { bytes },
            ),
            (RestoreWalletPhase::Download { record_id, .. }, Reply::Downloaded(Err(error))) => {
                let text: String = error.into_text();
                Self::fail_with(
                    known,
                    CloudBackupError::Cloud(
                        concat4("download ", record_id.as_str(), ": ", text.as_str()),
                    ),
                )
            },
            (RestoreWalletPhase::Parse { key }, Reply::WalletBackup(Ok(backup))) => {
                if backup.version != BACKUP_VERSION {
                    let version: String = decimal(backup.version);
                    Self::fail_with(
                        known,
                        CloudBackupError::Internal(
                            prefixed("unsupported wallet backup version", version.as_str()),
                        ),
                    )
                } else {
                    Progress::ask(
                        RestoreWalletFlow { known, phase: RestoreWalletPhase::Open },
                        Request::OpenWallet { backup, key },
                    )
                }
            },
            (RestoreWalletPhase::Parse { .. }, Reply::WalletBackup(Err(error))) => Self::fail_with(
                known,
                internal_error("deserialize wallet", &error),
            ),
            (RestoreWalletPhase::Open, Reply::Wallet(Ok(entry))) => {
                let json: String = entry.metadata.clone();
                Progress::ask(
                    RestoreWalletFlow { known, phase: RestoreWalletPhase::Metadata { entry } },
                    Request::ParseMetadata { json },
                )
            },
            (RestoreWalletPhase::Open, Reply::Wallet(Err(error))) => Self::fail_with(
                known,
                CloudBackupError::Crypto(prefixed("decrypt wallet", error.as_str())),
            ),
            (RestoreWalletPhase::Metadata { entry }, Reply::Metadata(Ok(wallet))) => {
                let sought: WalletMetadata = wallet.clone();
                let among: Vec<KnownWallet> = copy_known_wallets(&known);
                Progress::ask(
                    RestoreWalletFlow {
                        known,
                        phase: RestoreWalletPhase::Duplicate { entry, wallet },
                    },
                    Request::IsDuplicateWallet { wallet: sought, known: among },
                )
            },
            (RestoreWalletPhase::Metadata { .. }, Reply::Metadata(Err(error))) => Self::fail_with(
                known,
                internal_error("parse wallet metadata", &error),
            ),
            (RestoreWalletPhase::Duplicate { .. }, Reply::Duplicate(Ok(true))) => Progress::end(
                RestoredWallet { known, result: Ok(()) },
            ),
            (RestoreWalletPhase::Duplicate { entry, wallet }, Reply::Duplicate(_)) => Self::import(
                known,
                wallet,
                entry,
            ),
            (RestoreWalletPhase::ImportMnemonic { wallet }, Reply::Written(Ok(_))) => Self::succeed(
                known,
                &wallet,
            ),
            (RestoreWalletPhase::ImportMnemonic { .. }, Reply::Written(Err(error))) =>
                Self::fail_with(known, internal_error("restore mnemonic wallet", &error)),
            (RestoreWalletPhase::ImportDescriptor { wallet }, Reply::Written(Ok(_))) =>
                Self::succeed(known, &wallet),
            (RestoreWalletPhase::ImportDescriptor { .. }, Reply::Written(Err(error))) =>
                Self::fail_with(known, internal_error("restore descriptor wallet", &error)),
            (phase, _) => Progress::Refused { flow: RestoreWalletFlow { known, phase } },
        }
    }
}

/// Restores one wallet of the current namespace.
pub enum RestoreCloudWalletFlow {
    Namespace { record_id: String },
    Key { record_id: String, namespace: String },
    Wallets { record_id: String, namespace: String, key: MasterKey },
    Restore,
}

impl RestoreCloudWalletFlow {
    /// What follows a reply.
    pub open spec fn next(self, reply: Reply, progress: Attempt<Self, ()>) -> bool {
        match (self, reply) {
            (RestoreCloudWalletFlow::Namespace { record_id }, Reply::Keychain(Some(namespace))) =>
                progress.asks(
                RestoreCloudWalletFlow::Key { record_id, namespace },
                Request::GetOrCreateMasterKey,
            ),
            (RestoreCloudWalletFlow::Namespace { record_id }, Reply::Keychain(None)) => fails(
                progress,
                namespace_missing(),
            ),
            (RestoreCloudWalletFlow::Key { record_id, namespace }, Reply::MasterKey(Ok(key))) =>
                progress.asks(
                RestoreCloudWalletFlow::Wallets { record_id, namespace, key },
                Request::ReadLocalWallets,
            ),
            (RestoreCloudWalletFlow::Key { record_id, namespace }, Reply::MasterKey(Err(error))) =>
                fails(
                progress,
                CloudBackupErrorView::Internal(prefixed_text("master key"@, error@)),
            ),
            (
                RestoreCloudWalletFlow::Wallets { record_id, namespace, key },
                Reply::LocalWallets(wallets),
            ) => {
                &&& progress matches Progress::Ask {
                    flow,
                    effects,
                    request: Request::Call(
                        Operation::RestoreWallet {
                            namespace: source,
                            record_id: sought,
                            key: opening,
                            known,
                        },
                    ),
                }
                &&& flow == RestoreCloudWalletFlow::Restore
                &&& effects@ == Seq::<Effect>::empty()
                &&& source == namespace
                &&& sought == record_id
                &&& opening == key
                &&& known@ == known_wallets_of(wallets@)
            },
            (
                RestoreCloudWalletFlow::Restore,
                Reply::Returned(Outcome::WalletRestored(restored)),
            ) => progress.ends(restored.result),
            _ => progress.refuses(self),
        }
    }

    /// The first step.
    pub open spec fn began(record_id: String, progress: Attempt<Self, ()>) -> bool {
        progress.asks(
            RestoreCloudWalletFlow::Namespace { record_id },
            Request::ReadKeychain(KeychainKey::NamespaceId),
        )
    }

    /// Starts with the namespace.
    pub fn start(record_id: String) -> (progress: Attempt<Self, ()>)
        ensures
            Self::began(record_id, progress),
    {
        Progress::ask(
            RestoreCloudWalletFlow::Namespace { record_id },
            Request::ReadKeychain(KeychainKey::NamespaceId),
        )
    }

    /// Goes on with a reply.
    pub fn step(self, reply: Reply) -> (progress: Attempt<Self, ()>)
        ensures
            self.next(reply, progress),
    {
        match (self, reply) {
            (RestoreCloudWalletFlow::Namespace { record_id }, Reply::Keychain(stored)) => {
                match current_namespace_id(stored) {
                    Ok(namespace) => Progress::ask(
                        RestoreCloudWalletFlow::Key { record_id, namespace },
                        Request::GetOrCreateMasterKey,
                    ),
                    Err(error) => fail(error),
                }
            },
            (RestoreCloudWalletFlow::Key { record_id, namespace }, Reply::MasterKey(Ok(key))) =>
                Progress::ask(
                RestoreCloudWalletFlow::Wallets { record_id, namespace, key },
                Request::ReadLocalWallets,
            ),
            (RestoreCloudWalletFlow::Key { .. }, Reply::MasterKey(Err(error))) => fail(
                internal_error("master key", &error),
            ),
            (
                RestoreCloudWalletFlow::Wallets { record_id, namespace, key },
                Reply::LocalWallets(wallets),
            ) => {
                let known: Vec<KnownWallet> = known_wallets(&wallets);
                Progress::ask(
                    RestoreCloudWalletFlow::Restore,
                    Request::Call(Operation::RestoreWallet { namespace, record_id, key, known }),
                )
            },
            (
                RestoreCloudWalletFlow::Restore,
                Reply::Returned(Outcome::WalletRestored(restored)),
            ) => Progress::end(restored.result),
            (flow, _) => Progress::Refused { flow },
        }
    }
}

/// A report that no wallet has been added to.
pub open spec fn empty_report() -> CloudBackupRestoreReportView {
    CloudBackupRestoreReportView {
        wallets_restored: 0,
        wallets_failed: 0,
        failed_wallet_errors: Seq::empty(),
    }
}

/// A report with one more wallet.
pub open spec fn report_with(
    report: CloudBackupRestoreReportView,
    result: Result<(), CloudBackupError>,
) -> CloudBackupRestoreReportView {
    match result {
        Ok(_) => CloudBackupRestoreReportView {
            wallets_restored: (report.wallets_restored + 1) as u32,
            ..report
        },
        Err(error) => CloudBackupRestoreReportView {
            wallets_failed: (report.wallets_failed + 1) as u32,
            failed_wallet_errors: report.failed_wallet_errors.push(error@.message()),
            ..report
        },
    }
}

/// Whether a report is about `count` wallets, each as restored or as failed, and has an error for
/// every failed one.
pub open spec fn accounts_for(report: CloudBackupRestoreReportView, count: int) -> bool {
    &&& report.wallets_restored + report.wallets_failed == count
    &&& report.failed_wallet_errors.len() == report.wallets_failed
}

/// Whether a report has an error for every failed wallet.
pub open spec fn names_every_failure(report: CloudBackupRestoreReport) -> bool {
    report.failed_wallet_errors@.len() == report.wallets_failed
}

/// Adds one wallet to a report.
fn add_to_report(
    report: CloudBackupRestoreReport,
    result: Result<(), CloudBackupError>,
) -> (updated: CloudBackupRestoreReport)
    requires
        report.wallets_restored + report.wallets_failed < u32::MAX,
        names_every_failure(report),
    ensures
        updated@ == report_with(report@, result),
        names_every_failure(updated),
{
    let mut updated: CloudBackupRestoreReport = report;
    match result {
        Ok(_) => {
            updated.wallets_restored = updated.wallets_restored + 1;
        },
        Err(error) => {
            updated.wallets_failed = updated.wallets_failed + 1;
            updated.failed_wallet_errors.push(error.message());
            assert(texts(updated.failed_wallet_errors@) =~= texts(
                report.failed_wallet_errors@,
            ).push(error@.message()));
        },
    }
    updated
}

/// The search for the namespace whose master key the passkey opens.
pub struct MasterKeySearch {
    pub namespaces: Vec<String>,
    /// The master key backup of the first namespace.
    pub first_json: Vec<u8>,
    pub prf_salt: [u8; 32],
    pub prf_key: [u8; 32],
    pub credential_id: Vec<u8>,
    /// The namespace being tried; those before it did not open.
    pub index: usize,
}

/// The backup that the passkey opens.
pub struct FoundBackup {
    pub namespace: String,
    pub key: MasterKey,
    pub prf_salt: [u8; 32],
    pub credential_id: Vec<u8>,
    /// Whether the device had no master key of its own.
    pub is_fresh_device: bool,
}

/// Restores every wallet of the namespace that the user's passkey opens.
pub enum RestoreAllFlow {
    Namespaces,
    FirstDownload { namespaces: Vec<String> },
    FirstParse { namespaces: Vec<String>, first_json: Vec<u8> },
    Challenge { namespaces: Vec<String>, first_json: Vec<u8>, prf_salt: [u8; 32] },
    Discovery { namespaces: Vec<String>, first_json: Vec<u8>, prf_salt: [u8; 32] },
    Download { search: MasterKeySearch },
    Parse { search: MasterKeySearch },
    Open { search: MasterKeySearch },
    LocalKey { found: FoundBackup },
    SaveKey { found: FoundBackup },
    List { found: FoundBackup },
    Known { found: FoundBackup, record_ids: Vec<String> },
    Wallet {
        found: FoundBackup,
        record_ids: Vec<String>,
        /// The wallet being restored.
        index: usize,
        /// How the wallets before it went.
        report: CloudBackupRestoreReport,
    },
    SaveNamespace { found: FoundBackup, report: CloudBackupRestoreReport },
    SaveCredential { prf_salt: [u8; 32], report: CloudBackupRestoreReport },
    SaveSalt { report: CloudBackupRestoreReport },
    Clock { report: CloudBackupRestoreReport },
    Persist { report: CloudBackupRestoreReport },
}

impl RestoreAllFlow {
    /// A search has a current namespace; of the wallets, those before the current one are in the
    /// report; a report has an error for every failed wallet; only a fresh device gets keychain
    /// entries.
    pub open spec fn wf(self) -> bool {
        match self {
            RestoreAllFlow::Discovery { namespaces, .. } => namespaces@.len() > 0,
            RestoreAllFlow::Challenge { namespaces, .. } => namespaces@.len() > 0,
            RestoreAllFlow::FirstParse { namespaces, .. } => namespaces@.len() > 0,
            RestoreAllFlow::FirstDownload { namespaces } => namespaces@.len() > 0,
            RestoreAllFlow::Download { search } => search.index < search.namespaces@.len(),
            RestoreAllFlow::Parse { search } => search.index < search.namespaces@.len(),
            RestoreAllFlow::Open { search } => search.index < search.namespaces@.len(),
            RestoreAllFlow::SaveKey { found } => found.is_fresh_device,
            RestoreAllFlow::Known { record_ids, .. } => record_ids@.len() <= u32::MAX,
            RestoreAllFlow::Wallet { record_ids, index, report, .. } => {
                &&& index < record_ids@.len() <= u32::MAX
                &&& report.wallets_restored + report.wallets_failed == index
                &&& names_every_failure(report)
            },
            RestoreAllFlow::SaveNamespace { found, report } => {
                &&& found.is_fresh_device
                &&& names_every_failure(report)
            },
            RestoreAllFlow::SaveCredential { report, .. } => names_every_failure(report),
            RestoreAllFlow::SaveSalt { report } => names_every_failure(report),
            RestoreAllFlow::Clock { report } => names_every_failure(report),
            RestoreAllFlow::Persist { report } => names_every_failure(report),
            _ => true,
        }
    }

    /// The error of a master key backup of another version.
    pub open spec fn unsupported(version: u32) -> CloudBackupErrorView {
        CloudBackupErrorView::Internal(
            prefixed_text(
                "unsupported master key backup version"@,
                decimal_text(version as nat),
            ),
        )
    }

    /// The current namespace is tried, or the search is over. The backup of the first namespace is
    /// at hand already, under whichever index its name comes up.
    pub open spec fn seeks(search: MasterKeySearch, progress: Attempt<Self, ()>) -> bool {
        if search.index >= search.namespaces@.len() {
            fails(progress, CloudBackupErrorView::PasskeyMismatch)
        } else if search.namespaces@[search.index as int]@ == search.namespaces@[0]@ {
            &&& progress matches Progress::Ask {
                flow,
                effects,
                request: Request::ParseMasterKeyBackup { bytes },
            }
            &&& flow == RestoreAllFlow::Parse { search }
            &&& effects@ == Seq::<Effect>::empty()
            &&& bytes@ == search.first_json@
        } else {
            progress.asks(
                RestoreAllFlow::Download { search },
                Request::DownloadMasterKeyBackup {
                    namespace: search.namespaces@[search.index as int],
                },
            )
        }
    }

    /// The search with the next namespace.
    pub open spec fn further(search: MasterKeySearch) -> MasterKeySearch {
        MasterKeySearch { index: (search.index + 1) as usize, ..search }
    }

    /// After `effects` the wallet at `index` is restored, or the restore is over.
    pub open spec fn restores(
        effects: Seq<Effect>,
        found: FoundBackup,
        record_ids: Vec<String>,
        index: int,
        report: CloudBackupRestoreReportView,
        known: Vec<KnownWallet>,
        progress: Attempt<Self, ()>,
    ) -> bool {
        if index < record_ids@.len() {
            &&& progress matches Progress::Ask {
                flow: RestoreAllFlow::Wallet {
                    found: source,
                    record_ids: all,
                    index: current,
                    report: so_far,
                },
                effects: done,
                request,
            }
            &&& source == found
            &&& all == record_ids
            &&& current == index
            &&& so_far@ == report
            &&& done@ == effects
            &&& request == Request::Call(
                Operation::RestoreWallet {
                    namespace: found.namespace,
                    record_id: record_ids@[index],
                    key: found.key,
                    known,
                },
            )
        } else {
            Self::concludes(effects, found, report, progress)
        }
    }

    /// After `effects` the restore fails if no wallet came back and some did not; else it goes on
    /// to the keychain of a fresh device, or straight to the record.
    pub open spec fn concludes(
        effects: Seq<Effect>,
        found: FoundBackup,
        report: CloudBackupRestoreReportView,
        progress: Attempt<Self, ()>,
    ) -> bool {
        if report.wallets_restored == 0 && report.wallets_failed > 0 {
            &&& progress matches Progress::Done { effects: done, value: Err(error) }
            &&& done@.len() == effects.len() + 1
            &&& done@.drop_last() == effects
            &&& done@.last() matches Effect::Notify(
                CloudBackupReconcileMessage::RestoreComplete(shown),
            )
            &&& shown@ == report
            &&& error@ == CloudBackupErrorView::Internal("all wallets failed to restore"@)
        } else if found.is_fresh_device {
            &&& progress matches Progress::Ask {
                flow: RestoreAllFlow::SaveNamespace { found: source, report: kept },
                effects: done,
                request,
            }
            &&& source == found
            &&& kept@ == report
            &&& done@ == effects
            &&& request == Request::SaveKeychain {
                key: KeychainKey::NamespaceId,
                value: found.namespace,
            }
        } else {
            &&& progress matches Progress::Ask {
                flow: RestoreAllFlow::Clock { report: kept },
                effects: done,
                request,
            }
            &&& kept@ == report
            &&& done@ == effects
            &&& request == Request::ReadClock
        }
    }

    /// What follows a reply. A namespace that cannot be downloaded, parsed or opened is passed
    /// over.
    pub open spec fn next(self, reply: Reply, progress: Attempt<Self, ()>) -> bool {
        match (self, reply) {
            (RestoreAllFlow::Namespaces, Reply::Listed(Ok(namespaces))) => if namespaces@.len()
                == 0 {
                fails(
                    progress,
                    CloudBackupErrorView::Internal("no cloud backup namespaces found"@),
                )
            } else {
                progress.asks(
                    RestoreAllFlow::FirstDownload { namespaces },
                    Request::DownloadMasterKeyBackup { namespace: namespaces@[0] },
                )
            },
            (RestoreAllFlow::Namespaces, Reply::Listed(Err(error))) => fails(
                progress,
                CloudBackupErrorView::Cloud(error.text()@),
            ),
            (RestoreAllFlow::FirstDownload { namespaces }, Reply::Downloaded(Ok(first_json))) => {
                &&& progress matches Progress::Ask {
                    flow,
                    effects,
                    request: Request::ParseMasterKeyBackup { bytes },
                }
                &&& flow == RestoreAllFlow::FirstParse { namespaces, first_json }
                &&& effects@ == Seq::<Effect>::empty()
                &&& bytes@ == first_json@
            },
            (RestoreAllFlow::FirstDownload { namespaces }, Reply::Downloaded(Err(error))) => fails(
                progress,
                CloudBackupErrorView::Cloud(error.text()@),
            ),
            (
                RestoreAllFlow::FirstParse { namespaces, first_json },
                Reply::MasterKeyBackup(Ok(backup)),
            ) => if backup.version != BACKUP_VERSION {
                fails(progress, Self::unsupported(backup.version))
            } else {
                progress.asks(
                    RestoreAllFlow::Challenge {
                        namespaces,
                        first_json,
                        prf_salt: backup.prf_salt,
                    },
                    Request::DrawChallenge,
                )
            },
            (
                RestoreAllFlow::FirstParse { namespaces, first_json },
                Reply::MasterKeyBackup(Err(error)),
            ) => fails(progress, CloudBackupErrorView::Internal(error@)),
            (
                RestoreAllFlow::Challenge { namespaces, first_json, prf_salt },
                Reply::Challenge(challenge),
            ) => progress.asks(
                RestoreAllFlow::Discovery { namespaces, first_json, prf_salt },
                Request::DiscoverAndAuthenticate { rp_id: RP_ID, prf_salt, challenge },
            ),
            (
                RestoreAllFlow::Discovery { namespaces, first_json, prf_salt },
                Reply::Discovered(Ok(discovered)),
            ) => if discovered.prf_output@.len() != 32 {
                fails(progress, output_too_odd())
            } else {
                &&& progress matches Progress::Ask { flow: RestoreAllFlow::Parse { search }, .. }
                &&& search.namespaces == namespaces
                &&& search.first_json == first_json
                &&& search.prf_salt == prf_salt
                &&& search.prf_key@ == discovered.prf_output@
                &&& search.credential_id == discovered.credential_id
                &&& search.index == 0
                &&& Self::seeks(search, progress)
            },
            (
                RestoreAllFlow::Discovery { namespaces, first_json, prf_salt },
                Reply::Discovered(Err(failure)),
            ) => fails(progress, CloudBackupErrorView::Passkey(failure.message@)),
            (RestoreAllFlow::Download { search }, Reply::Downloaded(Ok(bytes))) => progress.asks(
                RestoreAllFlow::Parse { search },
                Request::ParseMasterKeyBackup { bytes },
            ),
            (RestoreAllFlow::Download { search }, Reply::Downloaded(Err(_))) => Self::seeks(
                Self::further(search),
                progress,
            ),
            (RestoreAllFlow::Parse { search }, Reply::MasterKeyBackup(Ok(backup))) =>
                if backup.version != BACKUP_VERSION {
                Self::seeks(Self::further(search), progress)
            } else {
                progress.asks(
                    RestoreAllFlow::Open { search },
                    Request::OpenMasterKey { backup, prf_key: search.prf_key },
                )
            },
            (RestoreAllFlow::Parse { search }, Reply::MasterKeyBackup(Err(_))) => Self::seeks(
                Self::further(search),
                progress,
            ),
            (RestoreAllFlow::Open { search }, Reply::MasterKey(Ok(key))) => progress.asks(
                RestoreAllFlow::LocalKey {
                    found: FoundBackup {
                        namespace: search.namespaces@[search.index as int],
                        key,
                        prf_salt: search.prf_salt,
                        credential_id: search.credential_id,
                        is_fresh_device: false,
                    },
                },
                Request::LoadMasterKey,
            ),
            (RestoreAllFlow::Open { search }, Reply::MasterKey(Err(_))) => Self::seeks(
                Self::further(search),
                progress,
            ),
            (RestoreAllFlow::LocalKey { found }, Reply::StoredMasterKey(Ok(Some(_)))) =>
                progress.asks(
                RestoreAllFlow::List { found: FoundBackup { is_fresh_device: false, ..found } },
                Request::ListWalletBackups { namespace: found.namespace },
            ),
            (RestoreAllFlow::LocalKey { found }, Reply::StoredMasterKey(Ok(None))) => progress.asks(
                RestoreAllFlow::SaveKey { found: FoundBackup { is_fresh_device: true, ..found } },
                Request::SaveMasterKey(found.key),
            ),
            (RestoreAllFlow::LocalKey { found }, Reply::StoredMasterKey(Err(error))) => fails(
                progress,
                CloudBackupErrorView::Internal(prefixed_text("load local master key"@, error@)),
            ),
            (RestoreAllFlow::SaveKey { found }, Reply::Written(Ok(_))) => progress.asks_after(
                seq![Effect::ResetMasterKeyCache],
                RestoreAllFlow::List { found },
                Request::ListWalletBackups { namespace: found.namespace },
            ),
            (RestoreAllFlow::SaveKey { found }, Reply::Written(Err(error))) => fails(
                progress,
                CloudBackupErrorView::Internal(prefixed_text("save master key"@, error@)),
            ),
            (RestoreAllFlow::List { found }, Reply::Listed(Ok(record_ids))) =>
                if record_ids@.len() <= u32::MAX {
                progress.asks(
                    RestoreAllFlow::Known { found, record_ids },
                    Request::ReadKnownWallets,
                )
            } else {
                progress.refuses(self)
            },
            (RestoreAllFlow::List { found }, Reply::Listed(Err(error))) => fails(
                progress,
                CloudBackupErrorView::Cloud(error.text()@),
            ),
            (RestoreAllFlow::Known { found, record_ids }, Reply::KnownWallets(Ok(known))) =>
                Self::restores(
                Seq::empty(),
                found,
                record_ids,
                0,
                empty_report(),
                known,
                progress,
            ),
            (RestoreAllFlow::Known { found, record_ids }, Reply::KnownWallets(Err(error))) => fails(
                progress,
                CloudBackupErrorView::Internal(prefixed_text("collect fingerprints"@, error@)),
            ),
            (
                RestoreAllFlow::Wallet { found, record_ids, index, report },
                Reply::Returned(Outcome::WalletRestored(restored)),
            ) => Self::restores(
                seq![
                    Effect::Notify(
                        CloudBackupReconcileMessage::ProgressUpdated {
                            completed: (index + 1) as u32,
                            total: record_ids@.len() as u32,
                        },
                    ),
                ],
                found,
                record_ids,
                index + 1,
                report_with(report@, restored.result),
                restored.known,
                progress,
            ),
            (RestoreAllFlow::SaveNamespace { found, report }, Reply::Written(Ok(_))) => {
                &&& progress matches Progress::Ask {
                    flow,
                    effects,
                    request: Request::SaveKeychain { key: KeychainKey::CredentialId, value },
                }
                &&& flow == RestoreAllFlow::SaveCredential { prf_salt: found.prf_salt, report }
                &&& effects@ == Seq::<Effect>::empty()
                &&& value@ == hex_text(found.credential_id@)
            },
            (RestoreAllFlow::SaveNamespace { found, report }, Reply::Written(Err(error))) => fails(
                progress,
                CloudBackupErrorView::Internal(prefixed_text("save namespace_id"@, error@)),
            ),
            (RestoreAllFlow::SaveCredential { prf_salt, report }, Reply::Written(Ok(_))) => {
                &&& progress matches Progress::Ask {
                    flow,
                    effects,
                    request: Request::SaveKeychain { key: KeychainKey::PrfSalt, value },
                }
                &&& flow == RestoreAllFlow::SaveSalt { report }
                &&& effects@ == Seq::<Effect>::empty()
                &&& value@ == hex_text(prf_salt@)
            },
            (RestoreAllFlow::SaveCredential { prf_salt, report }, Reply::Written(Err(error))) =>
                fails(
                progress,
                CloudBackupErrorView::Internal(prefixed_text("save credential_id"@, error@)),
            ),
            (RestoreAllFlow::SaveSalt { report }, Reply::Written(Ok(_))) => progress.asks(
                RestoreAllFlow::Clock { report },
                Request::ReadClock,
            ),
            (RestoreAllFlow::SaveSalt { report }, Reply::Written(Err(error))) => fails(
                progress,
                CloudBackupErrorView::Internal(prefixed_text("save prf_salt"@, error@)),
            ),
            (RestoreAllFlow::Clock { report }, Reply::Time(now)) => progress.asks(
                RestoreAllFlow::Persist { report },
                Request::SaveCloudBackup(
                    CloudBackup::Enabled {
                        last_sync: Some(now),
                        wallet_count: Some(report.wallets_restored),
                    },
                ),
            ),
            (RestoreAllFlow::Persist { report }, Reply::Written(Ok(_))) => progress.ends_after(
                seq![
                    Effect::Notify(CloudBackupReconcileMessage::RestoreComplete(report)),
                    announces(CloudBackupStatus::Enabled),
                ],
                Ok(()),
            ),
            (RestoreAllFlow::Persist { report }, Reply::Written(Err(error))) => fails(
                progress,
                CloudBackupErrorView::Internal(
                    prefixed_text("persist cloud backup state"@, error@),
                ),
            ),
            _ => progress.refuses(self),
        }
    }

    fn seek(search: MasterKeySearch) -> (progress: Attempt<Self, ()>)
        ensures
            Self::seeks(search, progress),
            progress matches Progress::Ask { flow, .. } ==> flow.wf(),
            !(progress is Refused),
    {
        if search.index >= search.namespaces.len() {
            return fail(CloudBackupError::PasskeyMismatch);
        }
        if search.namespaces[search.index] == search.namespaces[0] {
            let bytes: Vec<u8> = copy_bytes(&search.first_json);
            Progress::ask(
                RestoreAllFlow::Parse { search },
                Request::ParseMasterKeyBackup { bytes },
            )
        } else {
            let namespace: String = search.namespaces[search.index].clone();
            Progress::ask(
                RestoreAllFlow::Download { search },
                Request::DownloadMasterKeyBackup { namespace },
            )
        }
    }

    fn seek_further(search: MasterKeySearch) -> (progress: Attempt<Self, ()>)
        requires
            search.index < search.namespaces@.len(),
        ensures
            Self::seeks(Self::further(search), progress),
            progress matches Progress::Ask { flow, .. } ==> flow.wf(),
            !(progress is Refused),
    {
        let MasterKeySearch { namespaces, first_json, prf_salt, prf_key, credential_id, index } =
            search;
        assert(index < namespaces.len());
        Self::seek(
            MasterKeySearch {
                namespaces,
                first_json,
                prf_salt,
                prf_key,
                credential_id,
                index: index + 1,
            },
        )
    }

    fn restore(
        effects: Vec<Effect>,
        found: FoundBackup,
        record_ids: Vec<String>,
        index: usize,
        report: CloudBackupRestoreReport,
        known: Vec<KnownWallet>,
    ) -> (progress: Attempt<Self, ()>)
        requires
            index <= record_ids@.len() <= u32::MAX,
            report.wallets_restored + report.wallets_failed == index,
            names_every_failure(report),
        ensures
            Self::restores(effects@, found, record_ids, index as int, report@, known, progress),
            progress matches Progress::Ask { flow, .. } ==> flow.wf(),
            !(progress is Refused),
    {
        if index < record_ids.len() {
            let namespace: String = found.namespace.clone();
            let key: MasterKey = found.key.clone();
            let record_id: String = record_ids[index].clone();
            Progress::Ask {
                flow: RestoreAllFlow::Wallet { found, record_ids, index, report },
                effects,
                request: Request::Call(
                    Operation::RestoreWallet { namespace, record_id, key, known },
                ),
            }
        } else {
            Self::conclude(effects, found, report)
        }
    }

    fn conclude(effects: Vec<Effect>, found: FoundBackup, report: CloudBackupRestoreReport) -> (
    progress: Attempt<Self, ()>)
        requires
            names_every_failure(report),
        ensures
            Self::concludes(effects@, found, report@, progress),
            progress matches Progress::Ask { flow, .. } ==> flow.wf(),
            !(progress is Refused),
    {
        if report.wallets_restored == 0 && report.wallets_failed > 0 {
            let mut effects: Vec<Effect> = effects;
            let ghost before = effects@;
            effects.push(Effect::Notify(CloudBackupReconcileMessage::RestoreComplete(report)));
            assert(effects@.drop_last() =~= before);
            return Progress::Done {
                effects,
                value: Err(CloudBackupError::Internal(owned("all wallets failed to restore"))),
            };
        }
        if found.is_fresh_device {
            let value: String = found.namespace.clone();
            Progress::Ask {
                flow: RestoreAllFlow::SaveNamespace { found, report },
                effects,
                request: Request::SaveKeychain { key: KeychainKey::NamespaceId, value },
            }
        } else {
            Progress::Ask {
                flow: RestoreAllFlow::Clock { report },
                effects,
                request: Request::ReadClock,
            }
        }
    }

    /// The first step.
    pub open spec fn began(progress: Attempt<Self, ()>) -> bool {
        progress.asks_after(
            seq![announces(CloudBackupStatus::Restoring)],
            RestoreAllFlow::Namespaces,
            Request::ListNamespaces,
        )
    }

    /// Announces the start, and asks first for the namespaces.
    pub fn start() -> (progress: Attempt<Self, ()>)
        ensures
            Self::began(progress),
    {
        Progress::Ask {
            flow: RestoreAllFlow::Namespaces,
            effects: one_effect(announce(CloudBackupStatus::Restoring)),
            request: Request::ListNamespaces,
        }
    }

    /// Goes on with a reply.
    pub fn step(self, reply: Reply) -> (progress: Attempt<Self, ()>)
        requires
            self.wf(),
        ensures
            self.next(reply, progress),
            progress matches Progress::Ask { flow, .. } ==> flow.wf(),
            progress matches Progress::Refused { flow } ==> flow.wf(),
    {
        match (self, reply) {
            (RestoreAllFlow::Namespaces, Reply::Listed(Ok(namespaces))) => {
                if namespaces.is_empty() {
                    return fail(
                        CloudBackupError::Internal(owned("no cloud backup namespaces found")),
                    );
                }
                let namespace: String = namespaces[0].clone();
                Progress::ask(
                    RestoreAllFlow::FirstDownload { namespaces },
                    Request::DownloadMasterKeyBackup { namespace },
                )
            },
            (RestoreAllFlow::Namespaces, Reply::Listed(Err(error))) => fail(
                from_storage_error(error),
            ),
            (RestoreAllFlow::FirstDownload { namespaces }, Reply::Downloaded(Ok(first_json))) => {
                let bytes: Vec<u8> = copy_bytes(&first_json);
                Progress::ask(
                    RestoreAllFlow::FirstParse { namespaces, first_json },
                    Request::ParseMasterKeyBackup { bytes },
                )
            },
            (RestoreAllFlow::FirstDownload { .. }, Reply::Downloaded(Err(error))) => fail(
                from_storage_error(error),
            ),
            (
                RestoreAllFlow::FirstParse { namespaces, first_json },
                Reply::MasterKeyBackup(Ok(backup)),
            ) => {
                if backup.version != BACKUP_VERSION {
                    let version: String = decimal(backup.version);
                    return fail(
                        CloudBackupError::Internal(
                            prefixed("unsupported master key backup version", version.as_str()),
                        ),
                    );
                }
                Progress::ask(
                    RestoreAllFlow::Challenge {
                        namespaces,
                        first_json,
                        prf_salt: backup.prf_salt,
                    },
                    Request::DrawChallenge,
                )
            },
            (RestoreAllFlow::FirstParse { .. }, Reply::MasterKeyBackup(Err(error))) => fail(
                CloudBackupError::Internal(error),
            ),
            (
                RestoreAllFlow::Challenge { namespaces, first_json, prf_salt },
                Reply::Challenge(challenge),
            ) => Progress::ask(
                RestoreAllFlow::Discovery { namespaces, first_json, prf_salt },
                Request::DiscoverAndAuthenticate { rp_id: RP_ID, prf_salt, challenge },
            ),
            (
                RestoreAllFlow::Discovery { namespaces, first_json, prf_salt },
                Reply::Discovered(Ok(discovered)),
            ) => match key_from_bytes(&discovered.prf_output) {
                Some(prf_key) => Self::seek(
                    MasterKeySearch {
                        namespaces,
                        first_json,
                        prf_salt,
                        prf_key,
                        credential_id: discovered.credential_id,
                        index: 0,
                    },
                ),
                None => fail(odd_output()),
            },
            (RestoreAllFlow::Discovery { .. }, Reply::Discovered(Err(failure))) => fail(
                from_passkey_failure(failure),
            ),
            (RestoreAllFlow::Download { search }, Reply::Downloaded(Ok(bytes))) => Progress::ask(
                RestoreAllFlow::Parse { search },
                Request::ParseMasterKeyBackup { bytes },
            ),
            (RestoreAllFlow::Download { search }, Reply::Downloaded(Err(_))) => Self::seek_further(
                search,
            ),
            (RestoreAllFlow::Parse { search }, Reply::MasterKeyBackup(Ok(backup))) => {
                if backup.version != BACKUP_VERSION {
                    return Self::seek_further(search);
                }
                let prf_key: [u8; 32] = search.prf_key;
                Progress::ask(
                    RestoreAllFlow::Open { search },
                    Request::OpenMasterKey { backup, prf_key },
                )
            },
            (RestoreAllFlow::Parse { search }, Reply::MasterKeyBackup(Err(_))) =>
                Self::seek_further(search),
            (RestoreAllFlow::Open { search }, Reply::MasterKey(Ok(key))) => {
                let namespace: String = search.namespaces[search.index].clone();
                Progress::ask(
                    RestoreAllFlow::LocalKey {
                        found: FoundBackup {
                            namespace,
                            key,
                            prf_salt: search.prf_salt,
                            credential_id: search.credential_id,
                            is_fresh_device: false,
                        },
                    },
                    Request::LoadMasterKey,
                )
            },
            (RestoreAllFlow::Open { search }, Reply::MasterKey(Err(_))) => Self::seek_further(
                search,
            ),
            (RestoreAllFlow::LocalKey { found }, Reply::StoredMasterKey(Ok(Some(_)))) => {
                let mut found: FoundBackup = found;
                found.is_fresh_device = false;
                let namespace: String = found.namespace.clone();
                Progress::ask(
                    RestoreAllFlow::List { found },
                    Request::ListWalletBackups { namespace },
                )
            },
            (RestoreAllFlow::LocalKey { found }, Reply::StoredMasterKey(Ok(None))) => {
                let mut found: FoundBackup = found;
                found.is_fresh_device = true;
                let key: MasterKey = found.key.clone();
                Progress::ask(RestoreAllFlow::SaveKey { found }, Request::SaveMasterKey(key))
            },
            (RestoreAllFlow::LocalKey { .. }, Reply::StoredMasterKey(Err(error))) => fail(
                internal_error("load local master key", &error),
            ),
            (RestoreAllFlow::SaveKey { found }, Reply::Written(Ok(_))) => {
                let namespace: String = found.namespace.clone();
                Progress::Ask {
                    flow: RestoreAllFlow::List { found },
                    effects: one_effect(Effect::ResetMasterKeyCache),
                    request: Request::ListWalletBackups { namespace },
                }
            },
            (RestoreAllFlow::SaveKey { .. }, Reply::Written(Err(error))) => fail(
                internal_error("save master key", &error),
            ),
            (RestoreAllFlow::List { found }, Reply::Listed(Ok(record_ids))) => {
                if record_ids.len() as u64 <= u32::MAX as u64 {
                    Progress::ask(
                        RestoreAllFlow::Known { found, record_ids },
                        Request::ReadKnownWallets,
                    )
                } else {
                    Progress::Refused { flow: RestoreAllFlow::List { found } }
                }
            },
            (RestoreAllFlow::List { .. }, Reply::Listed(Err(error))) => fail(
                from_storage_error(error),
            ),
            (RestoreAllFlow::Known { found, record_ids }, Reply::KnownWallets(Ok(known))) => {
                let report = CloudBackupRestoreReport {
                    wallets_restored: 0,
                    wallets_failed: 0,
                    failed_wallet_errors: Vec::new(),
                };
                assert(texts(report.failed_wallet_errors@) =~= Seq::empty());
                Self::restore(Vec::new(), found, record_ids, 0, report, known)
            },
            (RestoreAllFlow::Known { .. }, Reply::KnownWallets(Err(error))) => fail(
                internal_error("collect fingerprints", &error),
            ),
            (
                RestoreAllFlow::Wallet { found, record_ids, index, report },
                Reply::Returned(Outcome::WalletRestored(restored)),
            ) => {
                let completed: u32 = (index + 1) as u32;
                let total: u32 = record_ids.len() as u32;
                let told = CloudBackupReconcileMessage::ProgressUpdated { completed, total };
                let updated: CloudBackupRestoreReport = add_to_report(report, restored.result);
                Self::restore(
                    one_effect(Effect::Notify(told)),
                    found,
                    record_ids,
                    index + 1,
                    updated,
                    restored.known,
                )
            },
            (RestoreAllFlow::SaveNamespace { found, report }, Reply::Written(Ok(_))) => {
                let value: String = to_hex(&found.credential_id);
                Progress::ask(
                    RestoreAllFlow::SaveCredential { prf_salt: found.prf_salt, report },
                    Request::SaveKeychain { key: KeychainKey::CredentialId, value },
                )
            },
            (RestoreAllFlow::SaveNamespace { .. }, Reply::Written(Err(error))) => fail(
                internal_error("save namespace_id", &error),
            ),
            (RestoreAllFlow::SaveCredential { prf_salt, report }, Reply::Written(Ok(_))) => {
                let value: String = to_hex(&bytes_of_key(&prf_salt));
                Progress::ask(
                    RestoreAllFlow::SaveSalt { report },
                    Request::SaveKeychain { key: KeychainKey::PrfSalt, value },
                )
            },
            (RestoreAllFlow::SaveCredential { .. }, Reply::Written(Err(error))) => fail(
                internal_error("save credential_id", &error),
            ),
            (RestoreAllFlow::SaveSalt { report }, Reply::Written(Ok(_))) => Progress::ask(
                RestoreAllFlow::Clock { report },
                Request::ReadClock,
            ),
            (RestoreAllFlow::SaveSalt { .. }, Reply::Written(Err(error))) => fail(
                internal_error("save prf_salt", &error),
            ),
            (RestoreAllFlow::Clock { report }, Reply::Time(now)) => {
                let wallet_count: Option<u32> = Some(report.wallets_restored);
                Progress::ask(
                    RestoreAllFlow::Persist { report },
                    Request::SaveCloudBackup(
                        CloudBackup::Enabled { last_sync: Some(now), wallet_count },
                    ),
                )
            },
            (RestoreAllFlow::Persist { report }, Reply::Written(Ok(_))) => Progress::Done {
                effects: two_effects(
                    Effect::Notify(CloudBackupReconcileMessage::RestoreComplete(report)),
                    announce(CloudBackupStatus::Enabled),
                ),
                value: Ok(()),
            },
            (RestoreAllFlow::Persist { .. }, Reply::Written(Err(error))) => fail(
                internal_error("persist cloud backup state", &error),
            ),
            (flow, _) => Progress::Refused { flow },
        }
    }
}

/// A restore needs nothing that the keychain holds: no step reads it, and the only passkey that is
/// asked for is one that the user picks.
pub proof fn law_restore_needs_no_keychain(
    flow: RestoreAllFlow,
    reply: Reply,
    progress: Attempt<RestoreAllFlow, ()>,
)
    requires
        RestoreAllFlow::began(progress) || flow.next(reply, progress),
    ensures
        progress matches Progress::Ask { request, .. } ==> {
            &&& !(request is ReadKeychain)
            &&& !(request is AuthenticateWithPrf)
            &&& !(request is CreatePasskey)
        },
{
}

impl RestoreAllFlow {
    /// Whether the restore has found that the device has a master key of its own.
    pub open spec fn on_known_device(self) -> bool {
        match self {
            RestoreAllFlow::List { found } => !found.is_fresh_device,
            RestoreAllFlow::Known { found, .. } => !found.is_fresh_device,
            RestoreAllFlow::Wallet { found, .. } => !found.is_fresh_device,
            RestoreAllFlow::Clock { .. } => true,
            RestoreAllFlow::Persist { .. } => true,
            _ => false,
        }
    }
}

/// A device that has a master key of its own keeps it, and its keychain entries, through a restore.
pub proof fn law_known_device_keeps_its_keys(
    flow: RestoreAllFlow,
    reply: Reply,
    progress: Attempt<RestoreAllFlow, ()>,
)
    requires
        flow.next(reply, progress),
    ensures
        flow is LocalKey && (reply matches Reply::StoredMasterKey(Ok(Some(_)))) ==> (
        progress matches Progress::Ask { flow: later, .. } && later.on_known_device()),
        flow.on_known_device() ==> (
        progress matches Progress::Ask { flow: later, request, .. } ==> {
            &&& later.on_known_device()
            &&& !(request is SaveMasterKey)
            &&& !(request is SaveKeychain)
        }),
{
}

impl RestoreAllFlow {
    /// Whether the restore is about the records of a list of `count`, and those before the current
    /// one are in its report.
    pub open spec fn restores_listed(self, count: int) -> bool {
        match self {
            RestoreAllFlow::Known { record_ids, .. } => record_ids@.len() == count <= u32::MAX,
            RestoreAllFlow::Wallet { record_ids, index, report, .. } => {
                &&& index < record_ids@.len() == count <= u32::MAX
                &&& accounts_for(report@, index as int)
            },
            RestoreAllFlow::SaveNamespace { report, .. } => accounts_for(report@, count),
            RestoreAllFlow::SaveCredential { report, .. } => accounts_for(report@, count),
            RestoreAllFlow::SaveSalt { report } => accounts_for(report@, count),
            RestoreAllFlow::Clock { report } => accounts_for(report@, count),
            RestoreAllFlow::Persist { report } => accounts_for(report@, count),
            _ => false,
        }
    }

    /// Whether the restore has not been told yet which wallets there are.
    pub open spec fn is_before_listing(self) -> bool {
        match self {
            RestoreAllFlow::Known { .. } => false,
            RestoreAllFlow::Wallet { .. } => false,
            RestoreAllFlow::SaveNamespace { .. } => false,
            RestoreAllFlow::SaveCredential { .. } => false,
            RestoreAllFlow::SaveSalt { .. } => false,
            RestoreAllFlow::Clock { .. } => false,
            RestoreAllFlow::Persist { .. } => false,
            _ => true,
        }
    }
}

/// Whether every report among `effects` is about `count` wallets.
pub open spec fn reports_account_for(effects: Seq<Effect>, count: int) -> bool {
    forall|i: int|
        0 <= i < effects.len() ==> ((#[trigger] effects[i]) matches Effect::Notify(
            CloudBackupReconcileMessage::RestoreComplete(report),
        ) ==> accounts_for(report@, count))
}

/// Whether `effects` hold no report.
pub open spec fn without_report(effects: Seq<Effect>) -> bool {
    forall|i: int|
        0 <= i < effects.len() ==> !((#[trigger] effects[i]) matches Effect::Notify(
            CloudBackupReconcileMessage::RestoreComplete(_),
        ))
}

/// What follows a reply to a step of a restore that is waiting for one.
pub open spec fn then_restores(
    before: Attempt<RestoreAllFlow, ()>,
    reply: Reply,
    after: Attempt<RestoreAllFlow, ()>,
) -> bool {
    before matches Progress::Ask { flow, .. } && flow.next(reply, after)
}

/// Whether `steps` are those of one restore, from its start, with `replies` between them.
pub open spec fn is_restore_run(
    steps: Seq<Attempt<RestoreAllFlow, ()>>,
    replies: Seq<Reply>,
) -> bool {
    &&& steps.len() == replies.len() + 1
    &&& RestoreAllFlow::began(steps[0])
    &&& forall|i: int|
        0 <= i < replies.len() ==> then_restores(steps[i], #[trigger] replies[i], steps[i + 1])
}

/// Whether a step asks which wallets the backup has, and the reply lists `count` of them.
pub open spec fn lists_wallets(
    step: Attempt<RestoreAllFlow, ()>,
    reply: Reply,
    count: int,
) -> bool {
    &&& step matches Progress::Ask { request: Request::ListWalletBackups { .. }, .. }
    &&& reply matches Reply::Listed(Ok(record_ids)) && record_ids@.len() == count
}

proof fn lemma_step_before_listing(
    flow: RestoreAllFlow,
    reply: Reply,
    progress: Attempt<RestoreAllFlow, ()>,
)
    requires
        flow.is_before_listing(),
        flow.next(reply, progress),
    ensures
        match progress {
            Progress::Ask { flow: later, request, effects } => {
                &&& later is List <==> request is ListWalletBackups
                &&& later.is_before_listing() || flow is List && (
                reply matches Reply::Listed(Ok(record_ids)) && later.restores_listed(
                    record_ids@.len() as int,
                ))
                &&& without_report(effects@)
            },
            Progress::Done { effects, value } => effects@.len() == 0 && value is Err,
            _ => true,
        },
{
}

proof fn lemma_step_after_listing(
    count: int,
    flow: RestoreAllFlow,
    reply: Reply,
    progress: Attempt<RestoreAllFlow, ()>,
)
    requires
        flow.restores_listed(count),
        flow.next(reply, progress),
    ensures
        match progress {
            Progress::Ask { flow: later, request, effects } => {
                &&& later.restores_listed(count)
                &&& !(request is ListWalletBackups)
                &&& without_report(effects@)
            },
            Progress::Done { effects, .. } => reports_account_for(effects@, count),
            _ => true,
        },
{
    if let Progress::Done { effects, .. } = progress {
        assert forall|i: int| 0 <= i < effects@.len() implies ((
        #[trigger] effects@[i]) matches Effect::Notify(
            CloudBackupReconcileMessage::RestoreComplete(report),
        ) ==> accounts_for(report@, count)) by {
            if i < effects@.len() - 1 {
                assert(effects@[i] == effects@.drop_last()[i]);
            }
        }
    }
}

/// Whether up to the step at `at` the restore has either not been told which wallets there are, or
/// was told once and goes through those.
spec fn goes_through_list(
    steps: Seq<Attempt<RestoreAllFlow, ()>>,
    replies: Seq<Reply>,
    at: int,
) -> bool {
    steps[at] matches Progress::Ask { flow, request, effects } ==> {
        &&& flow is List <==> request is ListWalletBackups
        &&& without_report(effects@)
        &&& if flow.is_before_listing() {
            forall|i: int, count: int|
                0 <= i < at ==> !#[trigger] lists_wallets(steps[i], replies[i], count)
        } else {
            exists|i: int, count: int|
                #![trigger lists_wallets(steps[i], replies[i], count)]
                0 <= i < at && lists_wallets(steps[i], replies[i], count) && flow.restores_listed(
                    count,
                ) && forall|j: int, other: int|
                    0 <= j < at && #[trigger] lists_wallets(steps[j], replies[j], other) ==> j == i
        }
    }
}

proof fn lemma_run_goes_through_list(
    steps: Seq<Attempt<RestoreAllFlow, ()>>,
    replies: Seq<Reply>,
    at: int,
)
    requires
        is_restore_run(steps, replies),
        0 <= at < steps.len(),
    ensures
        goes_through_list(steps, replies, at),
    decreases at,
{
    if at > 0 {
        lemma_run_goes_through_list(steps, replies, at - 1);
        let reply = replies[at - 1];
        assert(then_restores(steps[at - 1], reply, steps[at]));
        if let Progress::Ask { flow, request, .. } = steps[at - 1] {
            if flow.is_before_listing() {
                lemma_step_before_listing(flow, reply, steps[at]);
                if let Progress::Ask { flow: later, .. } = steps[at] {
                    if !later.is_before_listing() {
                        if let Reply::Listed(Ok(record_ids)) = reply {
                            let count = record_ids@.len() as int;
                            assert(lists_wallets(steps[at - 1], replies[at - 1], count));
                        }
                    } else {
                        assert forall|count: int| !#[trigger] lists_wallets(
                            steps[at - 1],
                            replies[at - 1],
                            count,
                        ) by {}
                    }
                }
            } else {
                let (i, count) = choose|i: int, count: int|
                    #![trigger lists_wallets(steps[i], replies[i], count)]
                    0 <= i < at - 1 && lists_wallets(steps[i], replies[i], count)
                        && flow.restores_listed(count) && forall|j: int, other: int|
                        0 <= j < at - 1 && #[trigger] lists_wallets(steps[j], replies[j], other)
                            ==> j == i;
                lemma_step_after_listing(count, flow, reply, steps[at]);
                assert(lists_wallets(steps[i], replies[i], count));
            }
        }
    }
}

/// A restore that reports has asked once which wallets the backup has, and its report is about all
/// of them: as many were restored or failed as were listed, and every failed one has its error
/// there. A restore that succeeds reports.
pub proof fn law_report_counts_every_wallet(
    steps: Seq<Attempt<RestoreAllFlow, ()>>,
    replies: Seq<Reply>,
    effects: Vec<Effect>,
    value: Result<(), CloudBackupError>,
)
    requires
        is_restore_run(steps, replies),
        steps.last() == (Progress::<RestoreAllFlow, Result<(), CloudBackupError>>::Done {
            effects,
            value,
        }),
    ensures
        value is Ok ==> !without_report(effects@),
        !without_report(effects@) ==> exists|i: int, count: int|
            #![trigger lists_wallets(steps[i], replies[i], count)]
            {
                &&& 0 <= i < replies.len()
                &&& lists_wallets(steps[i], replies[i], count)
                &&& reports_account_for(effects@, count)
                &&& forall|j: int, other: int|
                    0 <= j < replies.len() && #[trigger] lists_wallets(steps[j], replies[j], other)
                        ==> j == i
            },
{
    let end = replies.len() - 1;
    lemma_run_goes_through_list(steps, replies, end);
    assert(then_restores(steps[end], replies[end], steps[end + 1]));
    if let Progress::Ask { flow, .. } = steps[end] {
        if flow.is_before_listing() {
            lemma_step_before_listing(flow, replies[end], steps.last());
        } else {
            let (i, count) = choose|i: int, count: int|
                #![trigger lists_wallets(steps[i], replies[i], count)]
                0 <= i < end && lists_wallets(steps[i], replies[i], count) && flow.restores_listed(
                    count,
                ) && forall|j: int, other: int|
                    0 <= j < end && #[trigger] lists_wallets(steps[j], replies[j], other) ==> j
                        == i;
            lemma_step_after_listing(count, flow, replies[end], steps.last());
            assert(lists_wallets(steps[i], replies[i], count));
        }
    }
}

/// Whether a wallet comes back or not never costs another one: a wallet that failed leaves the
/// wallets on the device as they are, and one that came back only adds itself.
pub proof fn law_restore_only_adds_wallets(
    flow: RestoreWalletFlow,
    reply: Reply,
    progress: Progress<RestoreWalletFlow, RestoredWallet>,
)
    requires
        flow.next(reply, progress),
    ensures
        progress matches Progress::Done { value, .. } ==> {
            &&& flow.known@.is_prefix_of(value.known@)
            &&& value.known@.len() <= flow.known@.len() + 1
            &&& value.result is Err ==> value.known@ == flow.known@
        },
{
    if let Progress::Done { value, .. } = progress {
        assert(flow.known@ =~= value.known@.subrange(0, flow.known@.len() as int));
    }
}

/// The search goes through the namespaces in order, and passes over one only if it could not be
/// downloaded, read or opened; the first one that opens is the one restored from, and the passkey
/// is reported as unfit only after the last.
pub proof fn law_first_namespace_that_opens_is_restored(
    search: MasterKeySearch,
    flow: RestoreAllFlow,
    reply: Reply,
    progress: Attempt<RestoreAllFlow, ()>,
)
    requires
        flow == (RestoreAllFlow::Download { search }) || flow == (RestoreAllFlow::Parse { search })
            || flow == (RestoreAllFlow::Open { search }),
        flow.wf(),
        flow.next(reply, progress),
    ensures
        match progress {
            Progress::Ask { flow: RestoreAllFlow::LocalKey { found }, .. } => {
                &&& flow is Open
                &&& found.namespace == search.namespaces@[search.index as int]
                &&& reply == Reply::MasterKey(Ok(found.key))
                &&& found.credential_id == search.credential_id
            },
            Progress::Ask { flow: RestoreAllFlow::Open { search: later }, .. } => later == search,
            Progress::Ask { flow: RestoreAllFlow::Parse { search: later }, .. } => later == search
                || later == RestoreAllFlow::further(search),
            Progress::Ask { flow: RestoreAllFlow::Download { search: later }, .. } => later
                == RestoreAllFlow::further(search),
            Progress::Done { value: Err(error), .. } => {
                &&& error@ == CloudBackupErrorView::PasskeyMismatch
                &&& search.index + 1 == search.namespaces@.len()
            },
            Progress::Refused { .. } => true,
            _ => false,
        },
{
    assert(search.index < search.namespaces.len());
}

/// What follows a reply to a step that is waiting for one.
pub open spec fn then_reply(
    before: Progress<RestoreWalletFlow, RestoredWallet>,
    reply: Reply,
    after: Progress<RestoreWalletFlow, RestoredWallet>,
) -> bool {
    before matches Progress::Ask { flow, .. } && flow.next(reply, after)
}

/// A backup of the version that this library reads is downloaded, decrypted and imported, and
/// counts among the wallets on the device afterwards, unless its recovery phrase does not parse or
/// the wallet was found to be on the device already; a search that failed found nothing.
pub proof fn law_sound_backup_is_restored(
    namespace: String,
    record_id: String,
    key: MasterKey,
    known: Vec<KnownWallet>,
    bytes: Vec<u8>,
    backup: EncryptedWallet,
    entry: WalletEntry,
    wallet: WalletMetadata,
    duplicate: Result<bool, String>,
    steps: Seq<Progress<RestoreWalletFlow, RestoredWallet>>,
)
    requires
        duplicate != Ok::<bool, String>(true),
        backup.version == BACKUP_VERSION,
        entry.secret matches CloudWalletSecret::Mnemonic(words) ==> parsed_mnemonic(words@) is Ok,
        steps.len() == 7,
        RestoreWalletFlow::began(namespace, record_id, key, known, steps[0]),
        then_reply(steps[0], Reply::Downloaded(Ok(bytes)), steps[1]),
        then_reply(steps[1], Reply::WalletBackup(Ok(backup)), steps[2]),
        then_reply(steps[2], Reply::Wallet(Ok(entry)), steps[3]),
        then_reply(steps[3], Reply::Metadata(Ok(wallet)), steps[4]),
        then_reply(steps[4], Reply::Duplicate(duplicate), steps[5]),
        then_reply(steps[5], Reply::Written(Ok(())), steps[6]),
    ensures
        steps[0] matches Progress::Ask { request, .. } && request == (
        Request::DownloadWalletBackup { namespace, record_id }),
        steps[2] matches Progress::Ask { request, .. } && request == (Request::OpenWallet {
            backup,
            key,
        }),
        RestoreWalletFlow::restored(RestoreWalletFlow::known_with(known@, wallet), steps[6]),
{
}

} // verus!
