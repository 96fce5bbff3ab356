use cloud_backup::record::{
    downgrade_cloud_backup_state, promote_cloud_backup_state_after_integrity_pass, CloudBackup,
    IntegrityDowngrade,
};

#[test]
fn downgrade_state_marks_enabled_as_unverified() {
    let current = CloudBackup::Enabled { last_sync: Some(5), wallet_count: Some(2) };

    let updated = downgrade_cloud_backup_state(&current, IntegrityDowngrade::Unverified).unwrap();

    assert_eq!(updated, CloudBackup::Unverified { last_sync: Some(5), wallet_count: Some(2) });
}

#[test]
fn downgrade_state_keeps_passkey_missing_when_only_unverified_requested() {
    let current = CloudBackup::PasskeyMissing { last_sync: Some(11), wallet_count: Some(4) };

    let updated = downgrade_cloud_backup_state(&current, IntegrityDowngrade::Unverified);

    assert!(updated.is_none());
}

#[test]
fn promote_state_marks_unverified_as_enabled() {
    let current = CloudBackup::Unverified { last_sync: Some(13), wallet_count: Some(5) };

    let updated = promote_cloud_backup_state_after_integrity_pass(&current).unwrap();

    assert_eq!(updated, CloudBackup::Enabled { last_sync: Some(13), wallet_count: Some(5) });
}

#[test]
fn promote_state_preserves_passkey_missing() {
    let current = CloudBackup::PasskeyMissing { last_sync: Some(17), wallet_count: Some(6) };

    let updated = promote_cloud_backup_state_after_integrity_pass(&current);

    assert!(updated.is_none());
}

#[test]
fn promote_state_keeps_enabled_unchanged() {
    let current = CloudBackup::Enabled { last_sync: Some(19), wallet_count: Some(7) };

    let updated = promote_cloud_backup_state_after_integrity_pass(&current);

    assert!(updated.is_none());
}

#[test]
fn a_passed_check_undoes_a_failed_one() {
    let current = CloudBackup::Enabled { last_sync: Some(5), wallet_count: None };
    let lowered = downgrade_cloud_backup_state(&current, IntegrityDowngrade::Unverified).unwrap();
    assert_eq!(promote_cloud_backup_state_after_integrity_pass(&lowered), Some(current));
    let disabled = CloudBackup::Disabled;
    assert_eq!(downgrade_cloud_backup_state(&disabled, IntegrityDowngrade::Unverified), None);
    assert_eq!(promote_cloud_backup_state_after_integrity_pass(&disabled), None);
}

#[test]
fn a_further_upload_adds_to_the_count_of_a_verified_or_unverified_backup() {
    let last_sync = Some(3);
    let wallet_count = Some(4);
    assert_eq!(CloudBackup::Enabled { last_sync, wallet_count }.get_synced_count(), 4);
    assert_eq!(CloudBackup::Unverified { last_sync, wallet_count }.get_synced_count(), 4);
    assert_eq!(CloudBackup::PasskeyMissing { last_sync, wallet_count }.get_synced_count(), 0);
    assert_eq!(CloudBackup::Enabled { last_sync, wallet_count: None }.get_synced_count(), 0);
    assert_eq!(CloudBackup::Disabled.get_synced_count(), 0);
    assert_eq!(CloudBackup::PasskeyMissing { last_sync, wallet_count }.get_last_sync(), Some(3));
    assert_eq!(CloudBackup::Disabled.get_last_sync(), None);
}
