//! Whole operations, run against a small world of services.

use std::collections::BTreeMap;

use cloud_backup::error::{
    CloudBackupError, CloudStorageError, PasskeyError, PasskeyFailure, SealError,
};
use cloud_backup::machine::{Action, Machine};
use cloud_backup::manager::RustCloudBackupManager;
use cloud_backup::protocol::{
    DiscoveredPasskey, Effect, KeychainKey, Operation, Outcome, PasskeyAuthOutcome, Reply, Request,
    WrapperRepairStrategy, RP_ID,
};
use cloud_backup::record::{
    CloudBackup, IntegrityDowngrade, PersistedCloudBackupState, PersistedSnapshot,
};
use cloud_backup::state::{
    CloudBackupDetail, CloudBackupDetailResult, CloudBackupReconcileMessage, CloudBackupStatus,
    CloudBackupWalletStatus, CloudOnlyOperation, CloudOnlyState, DeepVerificationReport,
    DeepVerificationResult, RecoveryAction, RecoveryState, SyncState, VerificationFailureKind, VerificationState,
};
use cloud_backup::upload_queue::{PendingCloudUploadBlob, PendingCloudUploadVerification};
use cloud_backup::wallet::{
    CloudWalletSecret, DescriptorPair, EncryptedMasterKey, EncryptedWallet, KnownWallet,
    LocalWalletSecret, MasterKey, Network, WalletEntry, WalletMetadata, WalletMode, WalletType,
};

const PHRASE: &str =
    "abandon abandon abandon abandon abandon abandon abandon abandon abandon abandon abandon about";
const MASTER_KEY_RECORD: &str = "master-key-record";
const CREDENTIAL: [u8; 3] = [0xab, 0x01, 0xff];

fn wallet(id: &str, wallet_type: WalletType) -> WalletMetadata {
    WalletMetadata {
        id: id.to_string(),
        name: format!("Wallet {id}"),
        record_id: format!("record-{id}"),
        network: Network { code: 0 },
        wallet_mode: WalletMode::Main,
        wallet_type,
        master_fingerprint: Some(format!("F00D{id}")),
        is_tap_signer: false,
    }
}

fn copy_entry(entry: &WalletEntry) -> WalletEntry {
    WalletEntry {
        wallet_id: entry.wallet_id.clone(),
        secret: match &entry.secret {
            CloudWalletSecret::Mnemonic(words) => CloudWalletSecret::Mnemonic(words.clone()),
            CloudWalletSecret::TapSignerBackup(bytes) => {
                CloudWalletSecret::TapSignerBackup(bytes.clone())
            }
            CloudWalletSecret::Descriptor(text) => CloudWalletSecret::Descriptor(text.clone()),
            CloudWalletSecret::WatchOnly => CloudWalletSecret::WatchOnly,
        },
        metadata: entry.metadata.clone(),
        descriptors: entry.descriptors.as_ref().map(|pair| DescriptorPair {
            external: pair.external.clone(),
            internal: pair.internal.clone(),
        }),
        xpub: entry.xpub.clone(),
        wallet_mode: entry.wallet_mode,
    }
}

fn cancelled() -> PasskeyFailure {
    PasskeyFailure { error: PasskeyError::UserCancelled, message: "cancelled".to_string() }
}

fn blob(record_id: &str) -> PendingCloudUploadBlob {
    PendingCloudUploadBlob {
        record_id: record_id.to_string(),
        enqueued_at: 7,
        last_checked_at: None,
        attempt_count: 0,
        confirmed_at: None,
    }
}

fn snapshot() -> PersistedSnapshot {
    PersistedSnapshot {
        record: PersistedCloudBackupState::default(),
        should_prompt_verification: false,
    }
}

/// The device, the cloud and the passkey platform.
struct World {
    manager: RustCloudBackupManager,
    keychain: BTreeMap<&'static str, String>,
    master_key: Option<MasterKey>,
    wallets: Vec<WalletMetadata>,
    mnemonics: BTreeMap<String, String>,
    tap_signers: BTreeMap<String, Vec<u8>>,
    record: CloudBackup,
    queue: Option<PendingCloudUploadVerification>,
    /// What was sealed, found again by its position.
    sealed: Vec<WalletEntry>,
    cloud: BTreeMap<String, BTreeMap<String, Vec<u8>>>,
    /// The salt of each namespace's master key backup, its version and the key it opens with.
    master_keys: BTreeMap<String, (u32, [u8; 32], [u8; 32])>,
    prf_supported: bool,
    prf_output: Vec<u8>,
    stored_credential_fails: Option<PasskeyError>,
    discovery_fails: Option<PasskeyFailure>,
    listing_fails: Option<CloudStorageError>,
    upload_fails: bool,
    write_fails: bool,
    unwritable_key: Option<KeychainKey>,
    key_store_fails: bool,
    seal_error: Option<SealError>,
    open_fails: bool,
    duplicate_search_fails: bool,
    import_fails: bool,
    wallet_version: u32,
    uploaded: BTreeMap<String, Result<bool, CloudStorageError>>,
    session: Option<Result<DeepVerificationResult, CloudBackupError>>,
    repair: Option<Result<(), CloudBackupError>>,
    repair_strategy: Option<WrapperRepairStrategy>,
    imported: Vec<String>,
    messages: Vec<CloudBackupReconcileMessage>,
    requests: Vec<&'static str>,
    verifier_starts: u32,
    cache_resets: u32,
}

fn key_name(key: KeychainKey) -> &'static str {
    match key {
        KeychainKey::NamespaceId => "namespace",
        KeychainKey::CredentialId => "credential",
        KeychainKey::PrfSalt => "salt",
    }
}

impl World {
    fn new() -> World {
        World {
            manager: RustCloudBackupManager::init(),
            keychain: BTreeMap::new(),
            master_key: None,
            wallets: Vec::new(),
            mnemonics: BTreeMap::new(),
            tap_signers: BTreeMap::new(),
            record: CloudBackup::Disabled,
            queue: None,
            sealed: Vec::new(),
            cloud: BTreeMap::new(),
            master_keys: BTreeMap::new(),
            prf_supported: true,
            prf_output: vec![9; 32],
            stored_credential_fails: None,
            discovery_fails: None,
            listing_fails: None,
            upload_fails: false,
            write_fails: false,
            unwritable_key: None,
            key_store_fails: false,
            seal_error: None,
            open_fails: false,
            duplicate_search_fails: false,
            import_fails: false,
            wallet_version: 1,
            uploaded: BTreeMap::new(),
            session: None,
            repair: None,
            repair_strategy: None,
            imported: Vec::new(),
            messages: Vec::new(),
            requests: Vec::new(),
            verifier_starts: 0,
            cache_resets: 0,
        }
    }

    /// A device with a hot and a watched wallet.
    fn with_wallets() -> World {
        let mut world = World::new();
        world.wallets.push(wallet("a", WalletType::Hot));
        world.wallets.push(wallet("b", WalletType::XpubOnly));
        world.mnemonics.insert("a".to_string(), PHRASE.to_string());
        world
    }

    /// A device whose backup is enabled.
    fn enabled() -> World {
        let mut world = World::with_wallets();
        assert!(matches!(world.run(Operation::Enable), Outcome::Finished(Ok(()))));
        world.messages.clear();
        world.requests.clear();
        world
    }

    /// The same cloud, seen from a device that was just set up.
    fn fresh_device(self) -> World {
        let mut world = World::new();
        world.cloud = self.cloud;
        world.master_keys = self.master_keys;
        world.sealed = self.sealed;
        world.prf_output = self.prf_output;
        world
    }

    fn written(&self) -> Reply {
        if self.write_fails {
            Reply::Written(Err("disk full".to_string()))
        } else {
            Reply::Written(Ok(()))
        }
    }

    fn send(&mut self, message: CloudBackupReconcileMessage) {
        self.manager.apply_message_to_state(&message, &snapshot());
        self.messages.push(message);
    }

    fn perform(&mut self, effect: Effect) {
        match effect {
            Effect::Notify(message) => self.send(message),
            Effect::Update(change) => {
                let message = self.manager.update_state(change, &snapshot());
                self.send(message);
            }
            Effect::ForgetKeychain(key) => {
                self.keychain.remove(key_name(key));
            }
            Effect::ResetMasterKeyCache => self.cache_resets += 1,
            Effect::StartUploadVerifier => self.verifier_starts += 1,
        }
    }

    fn listed(&self, namespace: &str) -> Reply {
        if let Some(error) = &self.listing_fails {
            return Reply::Listed(Err(match error {
                CloudStorageError::NotFound(text) => CloudStorageError::NotFound(text.clone()),
                CloudStorageError::Other(text) => CloudStorageError::Other(text.clone()),
            }));
        }
        match self.cloud.get(namespace) {
            Some(records) => Reply::Listed(Ok(records.keys().cloned().collect())),
            None => Reply::Listed(Err(CloudStorageError::NotFound("gone".to_string()))),
        }
    }

    fn answer(&mut self, request: Request) -> Reply {
        match request {
            Request::ReadKeychain(key) => {
                self.requests.push("read keychain");
                Reply::Keychain(self.keychain.get(key_name(key)).cloned())
            }
            Request::SaveKeychain { key, value } => {
                self.requests.push("save keychain");
                if self.unwritable_key == Some(key) {
                    return Reply::Written(Err("locked".to_string()));
                }
                self.keychain.insert(key_name(key), value);
                Reply::Written(Ok(()))
            }
            Request::ReadMnemonic { wallet_id } => {
                Reply::Text(Ok(self.mnemonics.get(&wallet_id).cloned()))
            }
            Request::ReadTapSignerBackup { wallet_id } => {
                Reply::Backup(Ok(self.tap_signers.get(&wallet_id).cloned()))
            }
            Request::ReadXpub { wallet_id } => Reply::Text(Ok(Some(format!("xpub-{wallet_id}")))),
            Request::ReadDescriptors { wallet_id } => {
                Reply::Descriptors(Ok(Some(DescriptorPair {
                    external: format!("external-{wallet_id}"),
                    internal: format!("internal-{wallet_id}"),
                })))
            }
            Request::HasMasterKey => Reply::Flag(self.master_key.is_some()),
            Request::GetOrCreateMasterKey => {
                if self.key_store_fails {
                    return Reply::MasterKey(Err("locked".to_string()));
                }
                if self.master_key.is_none() {
                    self.master_key = Some(MasterKey { slot: 0, namespace_id: "ns".to_string() });
                }
                Reply::MasterKey(Ok(self.master_key.clone().unwrap()))
            }
            Request::LoadMasterKey => {
                if self.key_store_fails {
                    return Reply::StoredMasterKey(Err("locked".to_string()));
                }
                Reply::StoredMasterKey(Ok(self.master_key.clone()))
            }
            Request::SaveMasterKey(key) => {
                if self.write_fails {
                    return Reply::Written(Err("disk full".to_string()));
                }
                self.master_key = Some(key);
                Reply::Written(Ok(()))
            }
            Request::SealWallet { entry, key: _ } => {
                if let Some(error) = self.seal_error.take() {
                    return Reply::Sealed(Err(error));
                }
                self.sealed.push(entry);
                Reply::Sealed(Ok(vec![self.sealed.len() as u8 - 1]))
            }
            Request::SealMasterKey { key, prf_key, prf_salt } => {
                self.master_keys.insert(key.namespace_id.clone(), (1, prf_salt, prf_key));
                Reply::Sealed(Ok(key.namespace_id.into_bytes()))
            }
            Request::ParseMasterKeyBackup { bytes } => {
                let namespace = String::from_utf8(bytes.clone()).unwrap();
                match self.master_keys.get(&namespace) {
                    Some((version, prf_salt, _)) => Reply::MasterKeyBackup(Ok(EncryptedMasterKey {
                        version: *version,
                        prf_salt: *prf_salt,
                        payload: bytes,
                    })),
                    None => Reply::MasterKeyBackup(Err("expected value at line 1".to_string())),
                }
            }
            Request::OpenMasterKey { backup, prf_key } => {
                let namespace_id = String::from_utf8(backup.payload).unwrap();
                if self.master_keys[&namespace_id].2 == prf_key {
                    Reply::MasterKey(Ok(MasterKey { slot: 1, namespace_id }))
                } else {
                    Reply::MasterKey(Err("wrong key".to_string()))
                }
            }
            Request::ParseWalletBackup { bytes } => {
                if bytes.len() == 1 {
                    Reply::WalletBackup(Ok(EncryptedWallet {
                        version: self.wallet_version,
                        payload: bytes,
                    }))
                } else {
                    Reply::WalletBackup(Err("expected value at line 1".to_string()))
                }
            }
            Request::OpenWallet { backup, key: _ } => {
                if self.open_fails {
                    return Reply::Wallet(Err("wrong key".to_string()));
                }
                Reply::Wallet(Ok(copy_entry(&self.sealed[backup.payload[0] as usize])))
            }
            Request::EncodeMetadata { wallet } => Reply::Json(Ok(wallet.id)),
            Request::ParseMetadata { json } => {
                let kind = if json == "a" { WalletType::Hot } else { WalletType::XpubOnly };
                Reply::Metadata(Ok(wallet(&json, kind)))
            }
            Request::ListNamespaces => {
                Reply::Listed(Ok(self.master_keys.keys().cloned().collect()))
            }
            Request::ListWalletBackups { namespace } => {
                self.requests.push("list");
                self.listed(&namespace)
            }
            Request::DownloadMasterKeyBackup { namespace } => {
                Reply::Downloaded(Ok(namespace.into_bytes()))
            }
            Request::UploadMasterKeyBackup { .. } => {
                self.requests.push("upload master key");
                Reply::Stored(Ok(()))
            }
            Request::DownloadWalletBackup { namespace, record_id } => {
                match self.cloud.get(&namespace).and_then(|records| records.get(&record_id)) {
                    Some(bytes) => Reply::Downloaded(Ok(bytes.clone())),
                    None => Reply::Downloaded(Err(CloudStorageError::NotFound("gone".to_string()))),
                }
            }
            Request::UploadWalletBackup { namespace, record_id, bytes } => {
                self.requests.push("upload wallet");
                if self.upload_fails {
                    return Reply::Stored(Err(CloudStorageError::Other("quota".to_string())));
                }
                self.listing_fails = None;
                self.cloud.entry(namespace).or_default().insert(record_id, bytes);
                Reply::Stored(Ok(()))
            }
            Request::DeleteWalletBackup { namespace, record_id } => {
                self.cloud.get_mut(&namespace).unwrap().remove(&record_id);
                Reply::Stored(Ok(()))
            }
            Request::IsBackupUploaded { namespace: _, record_id } => {
                Reply::Uploaded(self.uploaded.remove(&record_id).unwrap_or(Ok(true)))
            }
            Request::IsPrfSupported => Reply::Flag(self.prf_supported),
            Request::CreatePasskey { rp_id, .. } => {
                assert_eq!(rp_id, RP_ID);
                self.requests.push("create passkey");
                Reply::Passkey(Ok(CREDENTIAL.to_vec()))
            }
            Request::AuthenticateWithPrf { credential_id, .. } => {
                self.requests.push("authenticate");
                assert_eq!(credential_id, CREDENTIAL.to_vec());
                match self.stored_credential_fails.take() {
                    Some(error) => Reply::Passkey(Err(PasskeyFailure {
                        error,
                        message: "failed".to_string(),
                    })),
                    None => Reply::Passkey(Ok(self.prf_output.clone())),
                }
            }
            Request::DiscoverAndAuthenticate { .. } => {
                self.requests.push("discover");
                match self.discovery_fails.take() {
                    Some(failure) => Reply::Discovered(Err(failure)),
                    None => Reply::Discovered(Ok(DiscoveredPasskey {
                        prf_output: self.prf_output.clone(),
                        credential_id: CREDENTIAL.to_vec(),
                    })),
                }
            }
            Request::ReadStatus => Reply::Status(self.manager.current_status()),
            Request::ReadCloudBackup => Reply::CloudBackup(self.record),
            Request::SaveCloudBackup(record) => {
                let reply = self.written();
                if !self.write_fails {
                    self.record = record;
                }
                reply
            }
            Request::ReadPendingUploads => Reply::PendingUploads(Ok(self.queue.clone())),
            Request::SavePendingUploads(queue) => {
                let reply = self.written();
                if !self.write_fails {
                    self.queue = Some(queue);
                }
                reply
            }
            Request::DeletePendingUploads => {
                let reply = self.written();
                if !self.write_fails {
                    self.queue = None;
                }
                reply
            }
            Request::ReadMasterKeyRecordId => Reply::RecordId(MASTER_KEY_RECORD.to_string()),
            Request::ReadLocalWallets => Reply::LocalWallets(self.wallets.clone()),
            Request::ReadKnownWallets => Reply::KnownWallets(Ok(Vec::new())),
            Request::IsDuplicateWallet { wallet, known } => {
                if self.duplicate_search_fails {
                    return Reply::Duplicate(Err("unreadable".to_string()));
                }
                Reply::Duplicate(Ok(known
                    .iter()
                    .any(|other| Some(&other.fingerprint) == wallet.master_fingerprint.as_ref())))
            }
            Request::ImportMnemonicWallet { wallet, phrase } => {
                if self.import_fails {
                    return Reply::Written(Err("no space".to_string()));
                }
                self.imported.push(format!("{}: {phrase}", wallet.id));
                Reply::Written(Ok(()))
            }
            Request::ImportDescriptorWallet { wallet, backup } => {
                if self.import_fails {
                    return Reply::Written(Err("no space".to_string()));
                }
                assert_eq!(backup.secret, LocalWalletSecret::NoSecret);
                assert!(backup.labels_jsonl.is_none());
                self.imported.push(format!("{}: {}", wallet.id, backup.xpub.unwrap()));
                Reply::Written(Ok(()))
            }
            Request::BuildDetail { record_ids } => {
                self.requests.push("build detail");
                Reply::Detail(CloudBackupDetail {
                    last_sync: None,
                    backed_up: Vec::new(),
                    not_backed_up: Vec::new(),
                    cloud_only_count: record_ids.len() as u32,
                })
            }
            Request::RunVerificationSession { .. } => {
                Reply::Verification(self.session.take().unwrap())
            }
            Request::RunWrapperRepair { strategy, .. } => {
                self.repair_strategy = Some(strategy);
                Reply::Repaired(self.repair.take().unwrap())
            }
            Request::ReadClock
            | Request::DrawChallenge
            | Request::DrawPasskeySeed
            | Request::Call(_) => unreachable!("the machine answers these"),
        }
    }

    fn run(&mut self, operation: Operation) -> Outcome {
        let mut machine = Machine::start(operation);
        loop {
            let (next, turn) = machine.proceed();
            machine = next;
            for effect in turn.effects {
                self.perform(effect);
            }
            match turn.action {
                Action::Proceed => {}
                Action::Perform(request) => {
                    let (next, taken) = machine.deliver(self.answer(request));
                    assert!(taken);
                    machine = next;
                }
                Action::Finish(outcome) => return outcome,
                Action::Refuse => panic!("a reply was refused"),
                Action::Idle => panic!("the machine stopped"),
            }
        }
    }

    fn error_of(&mut self, operation: Operation) -> String {
        match self.run(operation) {
            Outcome::Finished(Err(error)) => error.message(),
            _ => panic!("expected a failure"),
        }
    }

    fn statuses(&self) -> Vec<CloudBackupStatus> {
        self.messages
            .iter()
            .filter_map(|message| match message {
                CloudBackupReconcileMessage::StatusChanged(status) => Some(status.clone()),
                _ => None,
            })
            .collect()
    }
}

#[test]
fn enable_uploads_everything_and_watches_it() {
    let mut world = World::with_wallets();
    assert!(matches!(world.run(Operation::Enable), Outcome::Finished(Ok(()))));

    assert_eq!(world.statuses(), vec![CloudBackupStatus::Enabling, CloudBackupStatus::Enabled]);
    assert_eq!(world.keychain["namespace"], "ns");
    assert_eq!(world.keychain["credential"], "ab01ff");
    assert_eq!(world.keychain["salt"].len(), 64);
    assert_eq!(world.cloud["ns"].keys().collect::<Vec<_>>(), ["record-a", "record-b"]);
    let queue = world.queue.unwrap();
    assert_eq!(queue.namespace_id, "ns");
    let watched: Vec<_> = queue.blobs.iter().map(|blob| blob.record_id.as_str()).collect();
    assert_eq!(watched, [MASTER_KEY_RECORD, "record-a", "record-b"]);
    assert!(queue.blobs.iter().all(|blob| blob.enqueued_at > 1_700_000_000));
    assert_eq!(world.verifier_starts, 1);
    match world.record {
        CloudBackup::Enabled { last_sync: Some(at), wallet_count: Some(2) } => {
            assert!(at > 1_700_000_000)
        }
        other => panic!("{other:?}"),
    }
    assert!(world
        .messages
        .iter()
        .any(|message| matches!(message, CloudBackupReconcileMessage::EnableComplete)));
}

#[test]
fn enable_again_makes_a_new_passkey() {
    let mut world = World::enabled();
    let first_salt = world.keychain["salt"].clone();
    assert!(matches!(world.run(Operation::Enable), Outcome::Finished(Ok(()))));
    assert!(world.requests.contains(&"create passkey"));
    assert!(!world.requests.contains(&"read keychain"));
    assert_ne!(world.keychain["salt"], first_salt);
    assert_eq!(world.queue.unwrap().blobs.len(), 3);
}

#[test]
fn enable_needs_passkeys_with_prf() {
    let mut world = World::with_wallets();
    world.prf_supported = false;
    assert_eq!(
        world.error_of(Operation::Enable),
        "not supported: PRF extension not supported on this device"
    );
    assert_eq!(world.statuses(), vec![CloudBackupStatus::Enabling]);
}

#[test]
fn enable_fails_on_an_odd_passkey_output() {
    let mut world = World::with_wallets();
    world.prf_output = vec![1; 31];
    assert_eq!(world.error_of(Operation::Enable), "internal error: PRF output is not 32 bytes");
    assert!(world.keychain.is_empty());
}

#[test]
fn enable_stops_at_a_wallet_without_phrase() {
    let mut world = World::with_wallets();
    world.mnemonics.clear();
    assert_eq!(
        world.error_of(Operation::Enable),
        "internal error: hot wallet 'Wallet a' has no mnemonic"
    );
    assert!(!world.keychain.contains_key("namespace"));
    assert_eq!(world.record, CloudBackup::Disabled);
}

#[test]
fn restore_brings_wallets_back_to_a_fresh_device() {
    let mut world = World::enabled().fresh_device();
    assert!(matches!(world.run(Operation::RestoreAll), Outcome::Finished(Ok(()))));

    assert_eq!(world.imported, [format!("a: {PHRASE}"), "b: xpub-b".to_string()]);
    assert_eq!(world.statuses(), vec![CloudBackupStatus::Restoring, CloudBackupStatus::Enabled]);
    assert_eq!(world.keychain["namespace"], "ns");
    assert_eq!(world.keychain["credential"], "ab01ff");
    assert_eq!(world.cache_resets, 1);
    assert!(world.master_key.is_some());
    assert!(!world.requests.contains(&"read keychain"));
    let report = world.manager.state.restore_report.as_ref().unwrap();
    assert_eq!((report.wallets_restored, report.wallets_failed), (2, 0));
    assert!(matches!(
        world.record,
        CloudBackup::Enabled { last_sync: Some(_), wallet_count: Some(2) }
    ));
    let progress: Vec<_> = world
        .messages
        .iter()
        .filter_map(|message| match message {
            CloudBackupReconcileMessage::ProgressUpdated { completed, total } => {
                Some((*completed, *total))
            }
            _ => None,
        })
        .collect();
    assert_eq!(progress, [(1, 2), (2, 2)]);
}

#[test]
fn restore_leaves_the_keys_of_a_known_device() {
    let mut world = World::enabled();
    world.keychain.clear();
    let salt = world.master_key.clone();
    assert!(matches!(world.run(Operation::RestoreAll), Outcome::Finished(Ok(()))));
    assert!(world.keychain.is_empty());
    assert_eq!(world.master_key, salt);
    assert_eq!(world.cache_resets, 0);
}

#[test]
fn restore_needs_a_namespace() {
    let mut world = World::new();
    assert_eq!(
        world.error_of(Operation::RestoreAll),
        "internal error: no cloud backup namespaces found"
    );
}

#[test]
fn restore_refuses_another_version_of_the_master_key() {
    let mut world = World::enabled().fresh_device();
    world.master_keys.get_mut("ns").unwrap().0 = 20;
    assert_eq!(
        world.error_of(Operation::RestoreAll),
        "internal error: unsupported master key backup version: 20"
    );
}

#[test]
fn restore_tries_every_namespace_in_turn() {
    let mut world = World::enabled().fresh_device();
    let mine = world.master_keys["ns"];
    world.master_keys.insert("ab".to_string(), (1, mine.1, [1; 32]));
    world.master_keys.insert("ac".to_string(), (2, mine.1, mine.2));
    assert!(matches!(world.run(Operation::RestoreAll), Outcome::Finished(Ok(()))));
    assert_eq!(world.keychain["namespace"], "ns");
}

#[test]
fn restore_reports_a_passkey_that_opens_nothing() {
    let mut world = World::enabled().fresh_device();
    world.prf_output = vec![7; 32];
    assert_eq!(
        world.error_of(Operation::RestoreAll),
        "Passkey didn't match any backups, please try a new one"
    );
}

#[test]
fn restore_reports_a_cancelled_passkey() {
    let mut world = World::enabled().fresh_device();
    world.discovery_fails = Some(cancelled());
    assert_eq!(world.error_of(Operation::RestoreAll), "passkey error: cancelled");
}

#[test]
fn restore_fails_if_no_wallet_comes_back() {
    let mut world = World::enabled().fresh_device();
    world.wallet_version = 305;
    assert_eq!(
        world.error_of(Operation::RestoreAll),
        "internal error: all wallets failed to restore"
    );
    let report = world.manager.state.restore_report.as_ref().unwrap();
    assert_eq!((report.wallets_restored, report.wallets_failed), (0, 2));
    assert_eq!(
        report.failed_wallet_errors,
        ["internal error: unsupported wallet backup version: 305"; 2]
    );
    assert_eq!(world.record, CloudBackup::Disabled);
    assert!(world.keychain.is_empty());
}

#[test]
fn restore_goes_on_after_a_wallet_that_failed() {
    let mut world = World::enabled().fresh_device();
    world.cloud.get_mut("ns").unwrap().insert("record-a".to_string(), vec![1, 2]);
    assert!(matches!(world.run(Operation::RestoreAll), Outcome::Finished(Ok(()))));
    let report = world.manager.state.restore_report.as_ref().unwrap();
    assert_eq!((report.wallets_restored, report.wallets_failed), (1, 1));
    assert_eq!(
        report.failed_wallet_errors,
        ["internal error: deserialize wallet: expected value at line 1"]
    );
    assert_eq!(world.imported, ["b: xpub-b"]);
}

#[test]
fn restored_phrases_are_checked_and_normalised() {
    let mut world = World::enabled();
    world.sealed[0].secret = CloudWalletSecret::Mnemonic("not a phrase".to_string());
    world.wallets.clear();
    let record_id = "record-a".to_string();
    let error = world.error_of(Operation::RestoreCloudWallet { record_id });
    assert!(error.starts_with("internal error: invalid mnemonic: "), "{error}");

    world.sealed[0].secret = CloudWalletSecret::Mnemonic(PHRASE.replace(' ', "   "));
    let record_id = "record-a".to_string();
    assert!(matches!(
        world.run(Operation::RestoreCloudWallet { record_id }),
        Outcome::Finished(Ok(()))
    ));
    assert_eq!(world.imported, [format!("a: {PHRASE}")]);
}

#[test]
fn duplicates_are_not_imported() {
    let mut world = World::enabled();
    let record_id = "record-a".to_string();
    assert!(matches!(
        world.run(Operation::RestoreCloudWallet { record_id }),
        Outcome::Finished(Ok(()))
    ));
    assert!(world.imported.is_empty());
}

#[test]
fn a_failed_search_for_duplicates_keeps_no_wallet_back() {
    let mut world = World::enabled();
    world.duplicate_search_fails = true;
    for record_id in ["record-a", "record-b"] {
        let record_id = record_id.to_string();
        assert!(matches!(
            world.run(Operation::RestoreCloudWallet { record_id }),
            Outcome::Finished(Ok(()))
        ));
    }
    assert_eq!(world.imported, [format!("a: {PHRASE}"), "b: xpub-b".to_string()]);
}

#[test]
fn failed_imports_say_what_failed() {
    let mut world = World::enabled();
    world.wallets.clear();
    world.import_fails = true;
    let record_id = "record-a".to_string();
    assert_eq!(
        world.error_of(Operation::RestoreCloudWallet { record_id }),
        "internal error: restore mnemonic wallet: no space"
    );
    let record_id = "record-b".to_string();
    assert_eq!(
        world.error_of(Operation::RestoreCloudWallet { record_id }),
        "internal error: restore descriptor wallet: no space"
    );
    let record_id = "record-z".to_string();
    assert_eq!(
        world.error_of(Operation::RestoreCloudWallet { record_id }),
        "cloud storage error: download record-z: gone"
    );
}

#[test]
fn restoring_a_wallet_reports_the_wallets_on_the_device() {
    let mut world = World::enabled();
    let key = world.master_key.clone().unwrap();
    let known =
        vec![KnownWallet {
            fingerprint: "CAFE".to_string(),
            network: Network { code: 3 },
            wallet_mode: WalletMode::Decoy,
        }];
    let operation = Operation::RestoreWallet {
        namespace: "ns".to_string(),
        record_id: "record-b".to_string(),
        key,
        known,
    };
    match world.run(operation) {
        Outcome::WalletRestored(restored) => {
            assert!(restored.result.is_ok());
            let names: Vec<_> =
                restored.known.iter().map(|known| known.fingerprint.as_str()).collect();
            assert_eq!(names, ["CAFE", "F00Db"]);
        }
        _ => panic!("expected a restored wallet"),
    }
}

#[test]
fn tap_signer_backups_travel_along() {
    let mut world = World::new();
    let mut tap = wallet("t", WalletType::Cold);
    tap.is_tap_signer = true;
    world.tap_signers.insert("t".to_string(), vec![4, 5]);
    let mode = WalletMode::Decoy;
    match world.run(Operation::BuildWalletEntry { wallet: tap.clone(), mode }) {
        Outcome::Entry(Ok(entry)) => {
            assert_eq!(entry.wallet_id, "t");
            assert_eq!(entry.secret, CloudWalletSecret::TapSignerBackup(vec![4, 5]));
            assert_eq!(entry.xpub, Some("xpub-t".to_string()));
            assert_eq!(entry.descriptors.unwrap().internal, "internal-t");
            assert_eq!(entry.metadata, "t");
            assert_eq!(entry.wallet_mode, WalletMode::Decoy);
        }
        _ => panic!("expected an entry"),
    }
    world.tap_signers.clear();
    match world.run(Operation::BuildWalletEntry { wallet: tap, mode }) {
        Outcome::Entry(Ok(entry)) => assert_eq!(entry.secret, CloudWalletSecret::WatchOnly),
        _ => panic!("expected an entry"),
    }
}

#[test]
fn a_new_wallet_is_backed_up_and_counted() {
    let mut world = World::enabled();
    world.wallets.push(wallet("c", WalletType::WatchOnly));
    let added = wallet("c", WalletType::WatchOnly);
    let operation = world.manager.backup_new_wallet(added).unwrap();
    assert!(matches!(world.run(operation), Outcome::Nothing));
    assert!(world.cloud["ns"].contains_key("record-c"));
    assert!(matches!(world.record, CloudBackup::Enabled { wallet_count: Some(3), .. }));
    assert_eq!(world.queue.unwrap().blobs.len(), 4);
}

#[test]
fn a_failed_new_wallet_is_reported_after_the_sync_failed_too() {
    let mut world = World::enabled();
    world.wallets.push(wallet("c", WalletType::WatchOnly));
    world.upload_fails = true;
    let operation = Operation::BackupNewWallet { wallet: wallet("c", WalletType::WatchOnly) };
    assert!(matches!(world.run(operation), Outcome::Nothing));
    assert_eq!(world.requests.iter().filter(|name| **name == "upload wallet").count(), 2);
    assert_eq!(world.manager.state.sync_error, Some("cloud storage error: quota".to_string()));
}

#[test]
fn no_wallets_need_no_backup() {
    let mut world = World::new();
    let operation = Operation::BackupWallets { wallets: Vec::new() };
    assert!(matches!(world.run(operation), Outcome::Finished(Ok(()))));
    assert!(world.requests.is_empty());
}

#[test]
fn backups_need_a_namespace() {
    let mut world = World::with_wallets();
    assert_eq!(
        world.error_of(Operation::SyncUnsyncedWallets),
        "internal error: namespace_id not found in keychain"
    );
}

#[test]
fn sync_uploads_only_what_is_neither_listed_nor_watched() {
    let mut world = World::enabled();
    world.cloud.get_mut("ns").unwrap().remove("record-b");
    world.wallets.push(wallet("c", WalletType::WatchOnly));
    assert!(matches!(world.run(Operation::SyncUnsyncedWallets), Outcome::Finished(Ok(()))));
    // record-b is still being watched
    assert_eq!(world.cloud["ns"].keys().collect::<Vec<_>>(), ["record-a", "record-c"]);

    world.queue = None;
    assert!(matches!(world.run(Operation::SyncUnsyncedWallets), Outcome::Finished(Ok(()))));
    assert_eq!(world.cloud["ns"].len(), 3);
    world.requests.clear();
    assert!(matches!(world.run(Operation::SyncUnsyncedWallets), Outcome::Finished(Ok(()))));
    assert_eq!(world.requests, ["read keychain", "list"]);
}

#[test]
fn a_pass_confirms_uploads_one_by_one() {
    let mut world = World::enabled();
    world.uploaded.insert("record-a".to_string(), Ok(false));
    world.uploaded.insert(
        "record-b".to_string(),
        Err(CloudStorageError::Other("offline".to_string())),
    );
    assert!(matches!(world.run(Operation::VerifyPendingUploads), Outcome::StillPending(true)));
    let queue = world.queue.as_ref().unwrap();
    assert!(queue.blobs[0].confirmed_at.is_some());
    assert_eq!(queue.blobs[0].attempt_count, 0);
    assert_eq!(queue.blobs[1].attempt_count, 1);
    assert_eq!(queue.blobs[2].attempt_count, 1);
    assert!(world.manager.state.has_pending_upload_verification);

    assert!(matches!(world.run(Operation::VerifyPendingUploads), Outcome::StillPending(false)));
    assert!(world.queue.as_ref().unwrap().blobs.iter().all(|blob| blob.confirmed_at.is_some()));
    assert!(!world.manager.state.has_pending_upload_verification);
    assert!(matches!(world.run(Operation::VerifyPendingUploads), Outcome::StillPending(false)));
}

#[test]
fn a_pass_over_an_empty_queue_clears_it() {
    let mut world = World::new();
    assert!(matches!(world.run(Operation::VerifyPendingUploads), Outcome::StillPending(false)));
    world.queue = Some(PendingCloudUploadVerification {
        namespace_id: "ns".to_string(),
        blobs: Vec::new(),
    });
    world.write_fails = true;
    assert!(matches!(world.run(Operation::VerifyPendingUploads), Outcome::StillPending(true)));
    world.write_fails = false;
    assert!(matches!(world.run(Operation::VerifyPendingUploads), Outcome::StillPending(false)));
    assert!(world.queue.is_none());
}

#[test]
fn a_queue_that_cannot_be_written_is_an_error() {
    let mut world = World::new();
    world.write_fails = true;
    let operation = Operation::EnqueueUploads {
        namespace: "ns".to_string(),
        record_ids: vec!["r".to_string()],
    };
    assert_eq!(
        world.error_of(operation),
        "internal error: persist pending cloud upload verification: disk full"
    );
    assert_eq!(world.verifier_starts, 0);
}

#[test]
fn enqueueing_for_another_namespace_starts_a_new_queue() {
    let mut world = World::new();
    world.queue = Some(PendingCloudUploadVerification {
        namespace_id: "old".to_string(),
        blobs: vec![blob("x")],
    });
    let operation = Operation::EnqueueUploads {
        namespace: "ns".to_string(),
        record_ids: vec!["r".to_string(), "r".to_string()],
    };
    assert!(matches!(world.run(operation), Outcome::Finished(Ok(()))));
    let queue = world.queue.unwrap();
    assert_eq!(queue.namespace_id, "ns");
    assert_eq!(queue.blobs.len(), 1);
    assert_eq!(queue.blobs[0].record_id, "r");
}

#[test]
fn removing_uploads_clears_the_queue_when_none_is_left() {
    let mut world = World::new();
    world.queue = Some(PendingCloudUploadVerification {
        namespace_id: "ns".to_string(),
        blobs: vec![blob("x"), blob("y")],
    });
    let remove = |namespace: &str, id: &str| Operation::RemoveUploads {
        namespace: namespace.to_string(),
        record_ids: vec![id.to_string()],
    };
    assert!(matches!(world.run(remove("other", "x")), Outcome::Finished(Ok(()))));
    assert_eq!(world.queue.as_ref().unwrap().blobs.len(), 2);
    assert!(matches!(world.run(remove("ns", "x")), Outcome::Finished(Ok(()))));
    assert_eq!(world.queue.as_ref().unwrap().blobs.len(), 1);
    assert!(world.manager.state.has_pending_upload_verification);
    world.write_fails = true;
    assert_eq!(
        world.error_of(remove("ns", "y")),
        "internal error: clear pending cloud upload verification: disk full"
    );
    world.write_fails = false;
    assert!(matches!(world.run(remove("ns", "y")), Outcome::Finished(Ok(()))));
    assert!(world.queue.is_none());
    assert!(!world.manager.state.has_pending_upload_verification);
}

#[test]
fn deleting_a_wallet_recounts_the_backup() {
    let mut world = World::enabled();
    let before = world.record;
    let record_id = "record-a".to_string();
    assert!(matches!(
        world.run(Operation::DeleteCloudWallet { record_id }),
        Outcome::Finished(Ok(()))
    ));
    assert_eq!(world.cloud["ns"].len(), 1);
    assert_eq!(
        world.record,
        CloudBackup::Enabled { last_sync: before.get_last_sync(), wallet_count: Some(1) }
    );
    assert!(world.queue.unwrap().blobs.iter().all(|blob| blob.record_id != "record-a"));
}

#[test]
fn cloud_only_wallets_are_listed_and_unreadable_ones_passed_over() {
    let mut world = World::enabled();
    world.wallets.remove(1);
    world.cloud.get_mut("ns").unwrap().insert("broken".to_string(), vec![0, 0]);
    match world.run(Operation::FetchCloudOnly) {
        Outcome::CloudOnly(Ok(items)) => {
            assert_eq!(items.len(), 1);
            assert_eq!(items[0].name, "Wallet b");
            assert_eq!(items[0].record_id, "record-b");
            assert_eq!(items[0].status, CloudBackupWalletStatus::DeletedFromDevice);
            assert_eq!(items[0].fingerprint, Some("F00Db".to_string()));
        }
        _ => panic!("expected a list"),
    }
    world.wallets.push(wallet("b", WalletType::XpubOnly));
    world.cloud.get_mut("ns").unwrap().remove("broken");
    match world.run(Operation::FetchCloudOnly) {
        Outcome::CloudOnly(Ok(items)) => assert!(items.is_empty()),
        _ => panic!("expected a list"),
    }
}

#[test]
fn the_detail_is_only_refreshed_for_an_enabled_backup() {
    let mut world = World::new();
    assert!(matches!(world.run(Operation::RefreshDetail), Outcome::Detail(None)));
}

#[test]
fn a_missing_namespace_gets_all_wallets_again() {
    let mut world = World::enabled();
    world.cloud.clear();
    world.listing_fails = Some(CloudStorageError::NotFound("gone".to_string()));
    match world.run(Operation::RefreshDetail) {
        Outcome::Detail(Some(CloudBackupDetailResult::Success(detail))) => {
            assert_eq!(detail.cloud_only_count, 2)
        }
        _ => panic!("expected a detail"),
    }
    assert_eq!(world.cloud["ns"].len(), 2);
    assert!(!world.requests.contains(&"create passkey"));

    world.listing_fails = Some(CloudStorageError::Other("offline".to_string()));
    match world.run(Operation::RefreshDetail) {
        Outcome::Detail(Some(CloudBackupDetailResult::AccessError(text))) => {
            assert_eq!(text, "offline")
        }
        _ => panic!("expected an error"),
    }

    world.listing_fails = Some(CloudStorageError::NotFound("gone".to_string()));
    world.upload_fails = true;
    match world.run(Operation::RefreshDetail) {
        Outcome::Detail(Some(CloudBackupDetailResult::AccessError(text))) => {
            assert_eq!(text, "Failed to re-upload wallets: cloud storage error: quota")
        }
        _ => panic!("expected an error"),
    }
}

#[test]
fn a_refresh_unwatches_confirmed_uploads_that_are_listed() {
    let mut world = World::enabled();
    let queue = world.queue.as_mut().unwrap();
    queue.blobs.remove(0);
    queue.blobs[0].confirmed_at = Some(9);
    assert!(matches!(world.run(Operation::RefreshDetail), Outcome::Detail(Some(_))));
    let left = world.queue.as_ref().unwrap();
    assert_eq!(left.blobs.len(), 1);
    assert_eq!(left.blobs[0].record_id, "record-b");
    world.queue.as_mut().unwrap().blobs[0].confirmed_at = Some(9);
    assert!(matches!(world.run(Operation::RefreshDetail), Outcome::Detail(Some(_))));
    assert!(world.queue.is_none());
}

#[test]
fn a_sound_backup_passes_the_check() {
    let mut world = World::enabled();
    world.record = CloudBackup::Unverified { last_sync: Some(5), wallet_count: Some(2) };
    assert!(matches!(world.run(Operation::VerifyIntegrity), Outcome::Integrity(None)));
    assert_eq!(
        world.record,
        CloudBackup::Enabled { last_sync: Some(5), wallet_count: Some(2) }
    );
    for dialogue in ["create passkey", "authenticate", "discover"] {
        assert!(!world.requests.contains(&dialogue));
    }
}

#[test]
fn the_check_names_every_issue() {
    let mut world = World::enabled();
    world.master_key = None;
    world.keychain.clear();
    match world.run(Operation::VerifyIntegrity) {
        Outcome::Integrity(Some(text)) => assert_eq!(
            text,
            "master key not found in keychain; passkey credential not found — open Cloud Backup \
             in Settings to re-verify; passkey salt not found — open Cloud Backup in Settings to \
             re-verify; namespace_id not found in keychain"
        ),
        _ => panic!("expected issues"),
    }
    assert!(matches!(world.record, CloudBackup::Unverified { wallet_count: Some(2), .. }));
}

#[test]
fn the_check_backs_up_wallets_that_the_cloud_lacks() {
    let mut world = World::enabled();
    world.wallets.push(wallet("c", WalletType::WatchOnly));
    assert!(matches!(world.run(Operation::VerifyIntegrity), Outcome::Integrity(None)));
    assert!(world.cloud["ns"].contains_key("record-c"));

    world.wallets.push(wallet("d", WalletType::WatchOnly));
    world.upload_fails = true;
    match world.run(Operation::VerifyIntegrity) {
        Outcome::Integrity(Some(text)) => assert_eq!(text, "some wallets are not backed up"),
        _ => panic!("expected an issue"),
    }
    assert!(matches!(world.record, CloudBackup::Enabled { .. }));
}

#[test]
fn the_check_reports_that_the_files_are_missing() {
    let mut world = World::enabled();
    let record = CloudBackup::Unverified { last_sync: Some(5), wallet_count: Some(2) };
    world.record = record;
    world.listing_fails = Some(CloudStorageError::NotFound("gone".to_string()));
    match world.run(Operation::VerifyIntegrity) {
        Outcome::Integrity(Some(text)) => assert_eq!(text, "wallet backups not found in iCloud"),
        _ => panic!("expected an issue"),
    }
    assert_eq!(world.record, record);
    assert!(world.statuses().is_empty());
}

#[test]
fn the_check_passes_where_the_cloud_cannot_be_asked() {
    let mut world = World::enabled();
    world.record = CloudBackup::Unverified { last_sync: Some(5), wallet_count: Some(2) };
    world.listing_fails = Some(CloudStorageError::Other("offline".to_string()));
    assert!(matches!(world.run(Operation::VerifyIntegrity), Outcome::Integrity(None)));
    assert_eq!(
        world.record,
        CloudBackup::Enabled { last_sync: Some(5), wallet_count: Some(2) }
    );
}

#[test]
fn a_credential_that_is_no_hexadecimal_text_counts_as_missing() {
    let mut world = World::enabled();
    world.keychain.insert("credential", "xyz".to_string());
    match world.run(Operation::VerifyIntegrity) {
        Outcome::Integrity(Some(text)) => assert!(text.starts_with("passkey credential not found")),
        _ => panic!("expected an issue"),
    }
}

#[test]
fn a_disabled_backup_is_not_checked() {
    let mut world = World::new();
    assert!(matches!(world.run(Operation::VerifyIntegrity), Outcome::Integrity(None)));
    assert!(world.requests.is_empty());
}

#[test]
fn a_downgrade_is_announced_once_it_is_written() {
    let mut world = World::enabled();
    let downgrade = Some(IntegrityDowngrade::Unverified);
    world.write_fails = true;
    assert!(matches!(world.run(Operation::PersistDowngrade { downgrade }), Outcome::Nothing));
    assert!(world.statuses().is_empty());
    world.write_fails = false;
    assert!(matches!(world.run(Operation::PersistDowngrade { downgrade }), Outcome::Nothing));
    assert_eq!(world.statuses(), vec![CloudBackupStatus::Enabled]);
    let none = Operation::PersistDowngrade { downgrade: None };
    assert!(matches!(world.run(none), Outcome::Nothing));
}

#[test]
fn the_stored_credential_comes_first() {
    let mut world = World::enabled();
    let prf_salt = [3; 32];
    match world.run(Operation::Authenticate { prf_salt }) {
        Outcome::Authenticated(Ok(PasskeyAuthOutcome::Authenticated(passkey))) => {
            assert!(!passkey.credential_recovered);
            assert_eq!(passkey.credential_id, CREDENTIAL.to_vec());
            assert_eq!(passkey.prf_key, [9; 32]);
        }
        _ => panic!("expected a passkey"),
    }
    assert_eq!(world.requests, ["read keychain", "authenticate"]);

    world.stored_credential_fails = Some(PasskeyError::UserCancelled);
    assert!(matches!(
        world.run(Operation::Authenticate { prf_salt }),
        Outcome::Authenticated(Ok(PasskeyAuthOutcome::UserCancelled))
    ));
    assert!(!world.requests.contains(&"discover"));
}

#[test]
fn a_failed_credential_falls_back_to_discovery() {
    let mut world = World::enabled();
    let prf_salt = [3; 32];
    world.stored_credential_fails = Some(PasskeyError::NoCredentialFound);
    match world.run(Operation::Authenticate { prf_salt }) {
        Outcome::Authenticated(Ok(PasskeyAuthOutcome::Authenticated(passkey))) => {
            assert!(passkey.credential_recovered)
        }
        _ => panic!("expected a passkey"),
    }
    world.keychain.remove("credential");
    world.prf_output = vec![0; 33];
    match world.run(Operation::Authenticate { prf_salt }) {
        Outcome::Authenticated(Err(error)) => {
            assert_eq!(error.message(), "internal error: PRF output is not 32 bytes")
        }
        _ => panic!("expected an error"),
    }
    world.discovery_fails = Some(PasskeyFailure {
        error: PasskeyError::NoCredentialFound,
        message: "none".to_string(),
    });
    assert!(matches!(
        world.run(Operation::Authenticate { prf_salt }),
        Outcome::Authenticated(Ok(PasskeyAuthOutcome::NoCredentialFound))
    ));
}

#[test]
fn a_passkey_for_repair_is_not_stored() {
    let mut world = World::enabled();
    let before = world.keychain.clone();
    match world.run(Operation::CreatePrfKey) {
        Outcome::PrfKey(Ok(key)) => {
            assert_eq!(key.prf_key, [9; 32]);
            assert_eq!(key.credential_id, CREDENTIAL.to_vec());
        }
        _ => panic!("expected a key"),
    }
    assert_eq!(world.keychain, before);
}

#[test]
fn a_new_passkey_takes_the_place_of_the_stored_one() {
    let mut world = World::enabled();
    let first_salt = world.keychain["salt"].clone();
    world.keychain.insert("credential", "00".to_string());
    match world.run(Operation::ObtainPrfKey) {
        Outcome::PrfKey(Ok(key)) => {
            assert_eq!(key.prf_key, [9; 32]);
            assert_eq!(key.credential_id, CREDENTIAL.to_vec());
            let salt: String = key.prf_salt.iter().map(|byte| format!("{byte:02x}")).collect();
            assert_eq!(world.keychain["salt"], salt);
        }
        _ => panic!("expected a key"),
    }
    assert_eq!(world.keychain["credential"], "ab01ff");
    assert_ne!(world.keychain["salt"], first_salt);
    assert!(!world.requests.contains(&"read keychain"));
}

fn report() -> DeepVerificationReport {
    DeepVerificationReport {
        master_key_wrapper_repaired: false,
        local_master_key_repaired: false,
        credential_recovered: true,
        wallets_verified: 2,
        wallets_failed: 0,
        wallets_unsupported: 0,
        detail: None,
    }
}

#[test]
fn a_verification_is_recorded_and_shown() {
    let mut world = World::enabled();
    world.record = CloudBackup::PasskeyMissing { last_sync: Some(5), wallet_count: Some(2) };
    world.session = Some(Ok(DeepVerificationResult::Verified(report())));
    let operation = world.manager.start_verification();
    assert!(matches!(world.run(operation), Outcome::Nothing));
    assert_eq!(
        world.record,
        CloudBackup::Enabled { last_sync: Some(5), wallet_count: Some(2) }
    );
    assert_eq!(world.statuses(), vec![CloudBackupStatus::Enabled]);
    assert_eq!(world.manager.state.verification, VerificationState::Verified(report()));

    world.session = Some(Ok(DeepVerificationResult::PasskeyMissing(None)));
    let operation = world.manager.start_verification_discoverable();
    assert!(matches!(world.run(operation), Outcome::Nothing));
    assert_eq!(
        world.record,
        CloudBackup::PasskeyMissing { last_sync: Some(5), wallet_count: Some(2) }
    );
    assert_eq!(world.manager.state.status, CloudBackupStatus::PasskeyMissing);
    assert_eq!(world.manager.state.verification, VerificationState::Idle);
}

#[test]
fn a_session_that_fails_can_be_retried() {
    let mut world = World::enabled();
    world.session = Some(Err(CloudBackupError::Cloud("offline".to_string())));
    match world.run(Operation::DeepVerify { force_discoverable: false }) {
        Outcome::Verification(DeepVerificationResult::Failed(failure)) => {
            assert_eq!(failure.kind, VerificationFailureKind::Retry);
            assert_eq!(failure.message, "cloud storage error: offline");
            assert!(failure.detail.is_none());
        }
        _ => panic!("expected a failure"),
    }
    assert!(matches!(world.record, CloudBackup::Unverified { .. }));
}

#[test]
fn a_disabled_backup_is_not_verified() {
    let mut world = World::new();
    let operation = world.manager.start_verification();
    assert!(matches!(world.run(operation), Outcome::Nothing));
    assert_eq!(world.manager.state.verification, VerificationState::Verifying);
    assert_eq!(world.record, CloudBackup::Disabled);
}

#[test]
fn a_recovered_backup_is_verified() {
    let mut world = World::enabled();
    world.session = Some(Ok(DeepVerificationResult::UserCancelled(None)));
    let operation = world.manager.recreate_manifest();
    assert!(matches!(world.run(operation), Outcome::Nothing));
    assert_eq!(world.manager.state.recovery, RecoveryState::Idle);
    assert_eq!(world.manager.state.verification, VerificationState::Cancelled);

    world.prf_supported = false;
    let operation = world.manager.reinitialize_backup();
    assert!(matches!(world.run(operation), Outcome::Nothing));
    assert_eq!(
        world.manager.state.recovery,
        RecoveryState::Failed {
            action: RecoveryAction::ReinitializeBackup,
            error: "not supported: PRF extension not supported on this device".to_string(),
        }
    );
}

#[test]
fn a_repair_ends_with_a_refreshed_detail() {
    let mut world = World::enabled();
    world.record = CloudBackup::PasskeyMissing { last_sync: Some(5), wallet_count: None };
    world.repair = Some(Ok(()));
    let operation = world.manager.repair_passkey_no_discovery();
    assert!(matches!(world.run(operation), Outcome::Nothing));
    assert_eq!(world.repair_strategy, Some(WrapperRepairStrategy::CreateNew));
    assert!(matches!(world.record, CloudBackup::Enabled { wallet_count: Some(2), .. }));
    assert_eq!(world.manager.state.recovery, RecoveryState::Idle);
    assert_eq!(world.manager.state.detail.as_ref().unwrap().cloud_only_count, 2);
}

#[test]
fn a_cancelled_repair_is_no_failure() {
    let mut world = World::enabled();
    world.repair = Some(Err(CloudBackupError::PasskeyDiscoveryCancelled));
    let operation = world.manager.repair_passkey();
    assert!(matches!(world.run(operation), Outcome::Nothing));
    assert_eq!(world.repair_strategy, Some(WrapperRepairStrategy::DiscoverOrCreate));
    assert_eq!(world.manager.state.recovery, RecoveryState::Idle);
    assert!(matches!(
        world.messages.last(),
        Some(CloudBackupReconcileMessage::PasskeyDiscoveryCancelled)
    ));

    world.master_key = None;
    let operation = world.manager.repair_passkey();
    assert!(matches!(world.run(operation), Outcome::Nothing));
    assert_eq!(
        world.manager.state.recovery,
        RecoveryState::Failed {
            action: RecoveryAction::RepairPasskey,
            error: "internal error: no local master key".to_string(),
        }
    );
}

#[test]
fn a_repair_takes_a_missing_namespace_as_empty() {
    let mut world = World::enabled();
    world.listing_fails = Some(CloudStorageError::NotFound("gone".to_string()));
    world.repair = Some(Ok(()));
    let strategy = WrapperRepairStrategy::CreateNew;
    assert!(matches!(
        world.run(Operation::RepairPasskey { strategy }),
        Outcome::Finished(Ok(()))
    ));
    world.listing_fails = Some(CloudStorageError::Other("offline".to_string()));
    assert_eq!(
        world.error_of(Operation::RepairPasskey { strategy }),
        "cloud storage error: list wallet backups: offline"
    );
}

#[test]
fn a_sync_is_shown_from_start_to_end() {
    let mut world = World::enabled();
    let operation = world.manager.sync_unsynced();
    assert!(matches!(world.run(operation), Outcome::Nothing));
    assert_eq!(world.manager.state.sync, SyncState::Idle);
    assert!(world.manager.state.detail.is_some());

    world.listing_fails = Some(CloudStorageError::Other("offline".to_string()));
    let operation = world.manager.sync_unsynced();
    assert!(matches!(world.run(operation), Outcome::Nothing));
    assert_eq!(
        world.manager.state.sync,
        SyncState::Failed("cloud storage error: offline".to_string())
    );
}

#[test]
fn restored_and_deleted_wallets_leave_the_list() {
    let mut world = World::enabled();
    world.wallets.clear();
    let operation = world.manager.fetch_cloud_only();
    assert!(matches!(world.run(operation), Outcome::Nothing));
    match &world.manager.state.cloud_only {
        CloudOnlyState::Loaded { wallets } => assert_eq!(wallets.len(), 2),
        other => panic!("{other:?}"),
    }
    let operation = world.manager.restore_cloud_wallet("record-a".to_string());
    assert!(matches!(world.run(operation), Outcome::Nothing));
    let operation = world.manager.delete_cloud_wallet("record-b".to_string());
    assert!(matches!(world.run(operation), Outcome::Nothing));
    match &world.manager.state.cloud_only {
        CloudOnlyState::Loaded { wallets } => assert!(wallets.is_empty()),
        other => panic!("{other:?}"),
    }
    assert_eq!(world.manager.state.cloud_only_operation, CloudOnlyOperation::Idle);

    let operation = world.manager.restore_cloud_wallet("record-b".to_string());
    assert!(matches!(world.run(operation), Outcome::Nothing));
    assert_eq!(
        world.manager.state.cloud_only_operation,
        CloudOnlyOperation::Failed {
            error: "cloud storage error: download record-b: gone".to_string()
        }
    );
}

#[test]
fn a_list_that_cannot_be_fetched_shows_as_empty() {
    let mut world = World::new();
    let operation = world.manager.fetch_cloud_only();
    assert!(matches!(world.run(operation), Outcome::Nothing));
    assert_eq!(
        world.manager.state.cloud_only,
        CloudOnlyState::Loaded { wallets: Vec::new() }
    );
}

#[test]
fn a_machine_takes_only_replies_that_fit() {
    let (machine, turn) = Machine::start(Operation::VerifyIntegrity).proceed();
    assert!(matches!(turn.action, Action::Perform(Request::ReadStatus)));
    let (machine, turn) = machine.proceed();
    assert!(matches!(turn.action, Action::Idle));
    let (machine, taken) = machine.deliver(Reply::Flag(true));
    assert!(taken);
    let (machine, turn) = machine.proceed();
    assert!(matches!(turn.action, Action::Refuse));
    let (machine, taken) = machine.deliver(Reply::Status(CloudBackupStatus::Disabled));
    assert!(taken);
    let (machine, turn) = machine.proceed();
    assert!(matches!(turn.action, Action::Finish(Outcome::Integrity(None))));
    let (machine, taken) = machine.deliver(Reply::Flag(true));
    assert!(!taken);
    assert!(matches!(machine.proceed().1.action, Action::Idle));
}

#[test]
fn every_failing_step_of_enable_has_its_error() {
    let mut world = World::with_wallets();
    world.key_store_fails = true;
    assert_eq!(world.error_of(Operation::Enable), "internal error: master key: locked");
    world.key_store_fails = false;

    let cases = [
        (KeychainKey::CredentialId, "internal error: save credential: locked"),
        (KeychainKey::PrfSalt, "internal error: save prf_salt: locked"),
        (KeychainKey::NamespaceId, "internal error: save namespace_id: locked"),
    ];
    for (key, message) in cases {
        world.unwritable_key = Some(key);
        assert_eq!(world.error_of(Operation::Enable), message);
    }
    world.unwritable_key = None;

    world.seal_error = Some(SealError::Crypto("bad nonce".to_string()));
    assert_eq!(world.error_of(Operation::Enable), "crypto error: bad nonce");
    world.seal_error = Some(SealError::Encode("bad json".to_string()));
    assert_eq!(world.error_of(Operation::Enable), "internal error: bad json");
    world.upload_fails = true;
    assert_eq!(world.error_of(Operation::Enable), "cloud storage error: quota");
    world.upload_fails = false;
    world.write_fails = true;
    assert_eq!(
        world.error_of(Operation::Enable),
        "internal error: persist cloud backup state: disk full"
    );
    assert!(!world.statuses().contains(&CloudBackupStatus::Enabled));
}

#[test]
fn every_failing_step_of_a_restore_has_its_error() {
    let mut world = World::enabled().fresh_device();
    world.key_store_fails = true;
    assert_eq!(
        world.error_of(Operation::RestoreAll),
        "internal error: load local master key: locked"
    );
    world.key_store_fails = false;
    world.write_fails = true;
    assert_eq!(
        world.error_of(Operation::RestoreAll),
        "internal error: save master key: disk full"
    );
    world.write_fails = false;
    world.listing_fails = Some(CloudStorageError::Other("offline".to_string()));
    assert_eq!(world.error_of(Operation::RestoreAll), "cloud storage error: offline");
    world.listing_fails = None;

    let cases = [
        (KeychainKey::NamespaceId, "internal error: save namespace_id: locked"),
        (KeychainKey::CredentialId, "internal error: save credential_id: locked"),
        (KeychainKey::PrfSalt, "internal error: save prf_salt: locked"),
    ];
    for (key, message) in cases {
        world.master_key = None;
        world.unwritable_key = Some(key);
        assert_eq!(world.error_of(Operation::RestoreAll), message);
    }
    world.unwritable_key = None;
    world.master_key = Some(MasterKey { slot: 3, namespace_id: "mine".to_string() });
    world.write_fails = true;
    assert_eq!(
        world.error_of(Operation::RestoreAll),
        "internal error: persist cloud backup state: disk full"
    );
}

#[test]
fn a_wallet_that_cannot_be_opened_is_a_crypto_error() {
    let mut world = World::enabled();
    world.wallets.clear();
    world.open_fails = true;
    let record_id = "record-a".to_string();
    assert_eq!(
        world.error_of(Operation::RestoreCloudWallet { record_id }),
        "crypto error: decrypt wallet: wrong key"
    );
}

#[test]
fn a_restore_of_an_empty_namespace_restores_nothing() {
    let mut world = World::enabled().fresh_device();
    world.cloud.get_mut("ns").unwrap().clear();
    assert!(matches!(world.run(Operation::RestoreAll), Outcome::Finished(Ok(()))));
    assert!(matches!(world.record, CloudBackup::Enabled { wallet_count: Some(0), .. }));
    let report = world.manager.state.restore_report.as_ref().unwrap();
    assert_eq!((report.wallets_restored, report.wallets_failed), (0, 0));
}

#[test]
fn a_wallet_count_that_outgrows_the_record_is_refused() {
    let mut world = World::enabled();
    world.record = CloudBackup::Enabled { last_sync: None, wallet_count: Some(u32::MAX) };
    let wallets = vec![wallet("c", WalletType::WatchOnly)];
    let mut machine = Machine::start(Operation::BackupWallets { wallets });
    loop {
        let (next, turn) = machine.proceed();
        machine = next;
        match turn.action {
            Action::Proceed => {}
            Action::Perform(request) => {
                machine = machine.deliver(world.answer(request)).0;
            }
            Action::Refuse => break,
            _ => panic!("expected a refusal"),
        }
    }
}

#[test]
fn screens_refresh_the_detail() {
    let mut world = World::enabled();
    let operation = world.manager.refresh_detail();
    assert!(matches!(world.run(operation), Outcome::Nothing));
    assert_eq!(world.manager.state.detail.as_ref().unwrap().cloud_only_count, 2);
    let operation = world.manager.verify_backup_integrity();
    assert!(matches!(world.run(operation), Outcome::Integrity(None)));
}
