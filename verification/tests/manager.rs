use cloud_backup::error::CloudBackupError;
use cloud_backup::manager::{
    is_wallet_database, BackgroundWork, ResetStep, RustCloudBackupManager, WalletCountLookup,
};
use cloud_backup::protocol::{KeychainKey, Operation};
use cloud_backup::record::{
    PersistedCloudBackupState, PersistedCloudBackupStatus, PersistedSnapshot,
};
use cloud_backup::state::{
    CloudBackupReconcileMessage as Message, CloudBackupRestoreProgress, CloudBackupRestoreReport,
    CloudBackupRestoreStage, CloudBackupState, CloudBackupStatus, StateChange, SyncState,
};
use cloud_backup::upload_queue::{PendingCloudUploadBlob, PendingCloudUploadVerification};
use cloud_backup::wallet::{Network, WalletMetadata, WalletMode, WalletType};

fn record(status: PersistedCloudBackupStatus) -> PersistedCloudBackupState {
    PersistedCloudBackupState { status, ..PersistedCloudBackupState::default() }
}

fn snapshot_of(status: PersistedCloudBackupStatus) -> PersistedSnapshot {
    PersistedSnapshot { record: record(status), should_prompt_verification: false }
}

fn unused() -> PersistedSnapshot {
    snapshot_of(PersistedCloudBackupStatus::Disabled)
}

fn wallet() -> WalletMetadata {
    WalletMetadata {
        id: "w".to_string(),
        name: "W".to_string(),
        record_id: "record".to_string(),
        network: Network { code: 0 },
        wallet_mode: WalletMode::Main,
        wallet_type: WalletType::Hot,
        master_fingerprint: None,
        is_tap_signer: false,
    }
}

fn queue(confirmed_at: Option<u64>) -> PendingCloudUploadVerification {
    PendingCloudUploadVerification {
        namespace_id: "ns".to_string(),
        blobs: vec![PendingCloudUploadBlob {
            record_id: "r".to_string(),
            enqueued_at: 1,
            last_checked_at: None,
            attempt_count: 0,
            confirmed_at,
        }],
    }
}

#[test]
fn restore_progress_updates_state() {
    let mut manager = RustCloudBackupManager::init();
    let progress = CloudBackupRestoreProgress {
        stage: CloudBackupRestoreStage::Downloading,
        completed: 1,
        total: Some(2),
    };

    manager.apply_message_to_state(&Message::RestoreProgressUpdated(progress.clone()), &unused());

    assert_eq!(manager.state.restore_progress, Some(progress));
}

#[test]
fn restore_complete_clears_restore_progress() {
    let mut manager = RustCloudBackupManager::init();
    manager.apply_message_to_state(
        &Message::RestoreProgressUpdated(CloudBackupRestoreProgress {
            stage: CloudBackupRestoreStage::Restoring,
            completed: 1,
            total: Some(2),
        }),
        &unused(),
    );

    manager.apply_message_to_state(
        &Message::RestoreComplete(CloudBackupRestoreReport {
            wallets_restored: 1,
            wallets_failed: 0,
            failed_wallet_errors: Vec::new(),
        }),
        &unused(),
    );

    assert!(manager.state.restore_progress.is_none());
}

#[test]
fn terminal_status_clears_restore_progress_and_keeps_report() {
    let mut manager = RustCloudBackupManager::init();
    let report = CloudBackupRestoreReport {
        wallets_restored: 0,
        wallets_failed: 2,
        failed_wallet_errors: vec!["download failed".into()],
    };

    manager.apply_message_to_state(
        &Message::RestoreProgressUpdated(CloudBackupRestoreProgress {
            stage: CloudBackupRestoreStage::Restoring,
            completed: 1,
            total: Some(2),
        }),
        &unused(),
    );
    manager.apply_message_to_state(&Message::RestoreComplete(report.clone()), &unused());
    manager.apply_message_to_state(
        &Message::StatusChanged(CloudBackupStatus::Error("all wallets failed".into())),
        &unused(),
    );

    let state = &manager.state;
    assert!(state.restore_progress.is_none());
    assert_eq!(state.restore_report, Some(report));
}

#[test]
fn a_new_run_clears_the_report() {
    let mut manager = RustCloudBackupManager::init();
    manager.apply_message_to_state(
        &Message::RestoreComplete(CloudBackupRestoreReport {
            wallets_restored: 1,
            wallets_failed: 0,
            failed_wallet_errors: Vec::new(),
        }),
        &unused(),
    );
    manager.apply_message_to_state(
        &Message::ProgressUpdated { completed: 1, total: 3 },
        &unused(),
    );
    manager
        .apply_message_to_state(&Message::StatusChanged(CloudBackupStatus::Restoring), &unused());
    assert!(manager.state.restore_report.is_none());
    assert!(manager.state.progress.is_none());
}

#[test]
fn the_database_decides_the_flags() {
    let mut manager = RustCloudBackupManager::init();
    let mut snapshot = snapshot_of(PersistedCloudBackupStatus::Unverified);
    snapshot.record.last_verified_at = Some(12);
    manager.apply_message_to_state(
        &Message::VerificationPromptChanged { pending: true },
        &snapshot,
    );
    assert!(manager.state.is_unverified);
    assert!(manager.state.is_configured);
    assert_eq!(manager.state.last_verified_at, Some(12));
    assert!(!manager.state.should_prompt_verification);
    assert!(matches!(
        manager.update_state(StateChange::SyncStarted, &unused()),
        Message::Updated
    ));
    assert_eq!(manager.state.sync, SyncState::Syncing);
    assert!(!manager.state.is_configured);
}

#[test]
fn records_show_as_statuses() {
    let cases = [
        (PersistedCloudBackupStatus::Disabled, CloudBackupStatus::Disabled),
        (PersistedCloudBackupStatus::Enabled, CloudBackupStatus::Enabled),
        (PersistedCloudBackupStatus::Unverified, CloudBackupStatus::Enabled),
        (PersistedCloudBackupStatus::PasskeyMissing, CloudBackupStatus::PasskeyMissing),
    ];
    for (persisted, shown) in cases {
        assert_eq!(RustCloudBackupManager::runtime_status_for(&record(persisted)), shown);
    }
}

#[test]
fn the_record_is_taken_over_once() {
    let mut manager = RustCloudBackupManager::init();
    assert!(manager.sync_persisted_state(&unused()).is_none());
    let snapshot = snapshot_of(PersistedCloudBackupStatus::PasskeyMissing);
    assert!(matches!(
        manager.sync_persisted_state(&snapshot),
        Some(Message::StatusChanged(CloudBackupStatus::PasskeyMissing))
    ));
    assert_eq!(manager.current_status(), CloudBackupStatus::PasskeyMissing);
    assert!(manager.state.is_configured);
    assert!(manager
        .sync_persisted_state(&snapshot_of(PersistedCloudBackupStatus::Enabled))
        .is_none());
}

#[test]
fn the_state_shows_the_queue() {
    let mut manager = RustCloudBackupManager::init();
    let _ = manager.update_state(StateChange::SyncFailed("offline".to_string()), &unused());
    let state = manager
        .state(&snapshot_of(PersistedCloudBackupStatus::Unverified), &Ok(Some(queue(None))));
    assert!(state.has_pending_upload_verification);
    assert!(state.is_unverified);
    assert_eq!(state.sync, SyncState::Failed("offline".to_string()));
    assert_eq!(
        state,
        CloudBackupState {
            has_pending_upload_verification: true,
            is_unverified: true,
            is_configured: true,
            ..manager.state.clone()
        }
    );
}

#[test]
fn queues_that_cannot_be_read_are_not_pending() {
    let manager = RustCloudBackupManager::init();
    let pending = |read: &_| manager.has_pending_cloud_upload_verification(read);
    assert!(pending(&Ok(Some(queue(None)))));
    assert!(!pending(&Ok(Some(queue(Some(4))))));
    assert!(!pending(&Ok(None)));
    assert!(!pending(&Err("locked".to_string())));
}

#[test]
fn records_that_cannot_be_read_count_as_unused() {
    let failed = || Err("locked".to_string());
    assert!(!RustCloudBackupManager::init().is_cloud_backup_enabled(failed()));
    assert!(!RustCloudBackupManager::init().is_cloud_backup_unverified(failed()));
    assert!(!RustCloudBackupManager::init().is_cloud_backup_passkey_missing(failed()));
    let read = |status| Ok(snapshot_of(status));
    assert!(RustCloudBackupManager::init().is_cloud_backup_enabled(read(
        PersistedCloudBackupStatus::PasskeyMissing
    )));
    assert!(RustCloudBackupManager::init().is_cloud_backup_unverified(read(
        PersistedCloudBackupStatus::Unverified
    )));
    assert!(RustCloudBackupManager::init().is_cloud_backup_passkey_missing(read(
        PersistedCloudBackupStatus::PasskeyMissing
    )));
}

#[test]
fn one_loop_watches_uploads() {
    let mut manager = RustCloudBackupManager::init();
    assert!(manager.start_pending_upload_verification_loop());
    assert!(!manager.start_pending_upload_verification_loop());
    assert!(!manager.resume_pending_cloud_upload_verification());
    assert!(RustCloudBackupManager::goes_on_after_pass(Some(true)));
    assert!(RustCloudBackupManager::goes_on_after_pass(None));
    assert!(!RustCloudBackupManager::goes_on_after_pass(Some(false)));
    assert!(manager.finish_pending_upload_verification_loop(&Ok(Some(queue(None)))));
    assert!(manager.pending_upload_verifier_running);
    assert!(!manager.finish_pending_upload_verification_loop(&Ok(None)));
    assert!(!manager.pending_upload_verifier_running);
    assert!(manager.resume_pending_cloud_upload_verification());
}

#[test]
fn a_written_record_is_announced() {
    let mut snapshot = snapshot_of(PersistedCloudBackupStatus::Enabled);
    snapshot.should_prompt_verification = true;
    let messages =
        RustCloudBackupManager::init().persist_cloud_backup_state(&snapshot, Ok(()), "persist").unwrap();
    assert!(matches!(
        messages[..],
        [
            Message::StatusChanged(CloudBackupStatus::Enabled),
            Message::VerificationPromptChanged { pending: true }
        ]
    ));
    let error = RustCloudBackupManager::init().persist_cloud_backup_state(
        &snapshot,
        Err("disk full".to_string()),
        "persist cloud backup prompt dismissal",
    )
    .unwrap_err();
    assert_eq!(
        error.message(),
        "internal error: persist cloud backup prompt dismissal: disk full"
    );
}

#[test]
fn only_a_requested_prompt_is_dismissed() {
    let mut record = record(PersistedCloudBackupStatus::Enabled);
    assert_eq!(RustCloudBackupManager::init().dismiss_verification_prompt_impl(&record), None);
    record.last_verification_requested_at = Some(5);
    let updated = RustCloudBackupManager::init().dismiss_verification_prompt_impl(&record).unwrap();
    assert!(updated.last_verification_dismissed_at.unwrap() > 1_700_000_000);
    assert_eq!(updated.last_verification_requested_at, Some(5));
    assert_eq!(
        record.with_prompt_dismissed(9).unwrap().last_verification_dismissed_at,
        Some(9)
    );
}

#[test]
fn the_wallet_count_comes_from_the_record_first() {
    let mut known = record(PersistedCloudBackupStatus::Disabled);
    known.wallet_count = Some(4);
    assert_eq!(
        RustCloudBackupManager::init().backup_wallet_count(&known),
        WalletCountLookup::Known(4)
    );
    assert_eq!(
        RustCloudBackupManager::init().backup_wallet_count(&record(PersistedCloudBackupStatus::Enabled)),
        WalletCountLookup::CountLocal
    );
    assert_eq!(
        RustCloudBackupManager::init().backup_wallet_count(&record(PersistedCloudBackupStatus::Disabled)),
        WalletCountLookup::Unknown
    );
    let (count, updated) = RustCloudBackupManager::init().count_local_wallets(
        &record(PersistedCloudBackupStatus::Enabled),
        &vec![wallet(), wallet()],
    );
    assert_eq!(count, 2);
    assert_eq!(updated.wallet_count, Some(2));
}

#[test]
fn work_is_ignored_while_other_work_runs() {
    let mut manager = RustCloudBackupManager::init();
    let started = manager.enable_cloud_backup().unwrap();
    assert_eq!((started.entering_status, started.work), (None, BackgroundWork::Enable));
    let started = manager.enable_cloud_backup_force_new().unwrap();
    assert_eq!(
        (started.entering_status, started.work),
        (Some(CloudBackupStatus::Enabling), BackgroundWork::EnableForceNew)
    );
    let started = manager.enable_cloud_backup_no_discovery().unwrap();
    assert_eq!(
        (started.entering_status, started.work),
        (Some(CloudBackupStatus::Enabling), BackgroundWork::EnableNoDiscovery)
    );
    let started = manager.restore_from_cloud_backup().unwrap();
    assert_eq!((started.entering_status, started.work), (None, BackgroundWork::Restore));
    assert!(matches!(BackgroundWork::Enable.operation(), Some(Operation::Enable)));
    assert!(matches!(BackgroundWork::Restore.operation(), Some(Operation::RestoreAll)));
    assert!(BackgroundWork::EnableForceNew.operation().is_none());
    for status in [CloudBackupStatus::Enabling, CloudBackupStatus::Restoring] {
        manager.apply_message_to_state(&Message::StatusChanged(status), &unused());
        assert!(manager.enable_cloud_backup().is_none());
        assert!(manager.enable_cloud_backup_force_new().is_none());
        assert!(manager.enable_cloud_backup_no_discovery().is_none());
        assert!(manager.restore_from_cloud_backup().is_none());
    }
}

#[test]
fn failed_work_shows_as_an_error() {
    let message =
        RustCloudBackupManager::background_operation_failed(&CloudBackupError::PasskeyMismatch);
    match message {
        Message::StatusChanged(CloudBackupStatus::Error(text)) => {
            assert_eq!(text, "Passkey didn't match any backups, please try a new one")
        }
        other => panic!("{other:?}"),
    }
}

#[test]
fn new_wallets_are_backed_up_only_by_an_enabled_backup() {
    let mut manager = RustCloudBackupManager::init();
    assert!(manager.backup_new_wallet(wallet()).is_none());
    manager
        .apply_message_to_state(&Message::StatusChanged(CloudBackupStatus::Restoring), &unused());
    assert!(manager.backup_new_wallet(wallet()).is_none());
    for status in [CloudBackupStatus::Enabled, CloudBackupStatus::PasskeyMissing] {
        manager.apply_message_to_state(&Message::StatusChanged(status), &unused());
        assert!(matches!(
            manager.backup_new_wallet(wallet()),
            Some(Operation::BackupNewWallet { .. })
        ));
    }
}

#[test]
fn a_reset_forgets_everything_local() {
    let mut manager = RustCloudBackupManager::init();
    let _ = manager.update_state(StateChange::SyncStarted, &unused());
    let steps = RustCloudBackupManager::init().debug_reset_cloud_backup_state();
    assert_eq!(steps.len(), 11);
    assert!(matches!(steps[0], ResetStep::ForgetKeychain(KeychainKey::NamespaceId)));
    assert!(matches!(steps[4], ResetStep::DeleteMasterKey));
    for step in steps {
        match step {
            ResetStep::Update(change) => {
                let _ = manager.update_state(change, &unused());
            }
            ResetStep::Notify(message) => manager.apply_message_to_state(&message, &unused()),
            _ => {}
        }
    }
    assert_eq!(manager.state, CloudBackupState::default());
}

#[test]
fn wallet_databases_are_known_by_their_name() {
    assert!(is_wallet_database("bdk_wallet_abc.db"));
    assert!(!is_wallet_database("cove.db"));
    assert!(!is_wallet_database("old_bdk_wallet"));
}
