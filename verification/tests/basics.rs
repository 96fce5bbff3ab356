use cloud_backup::clock::{current_timestamp, timestamp_from_second, LAST_TIMESTAMP};
use cloud_backup::entropy::{
    bytes_of_key, fresh_challenge, fresh_passkey_seed, key_from_bytes,
};
use cloud_backup::error::{
    from_seal_error, from_storage_error, internal_error, CloudBackupError, CloudStorageError,
    PasskeyError, SealError,
};
use cloud_backup::flows::integrity::{join_issues, IntegrityIssue};
use cloud_backup::flows::passkey::{load_stored_credential_id, map_discovery_error};
use cloud_backup::flows::restore::RestoreWalletFlow;
use cloud_backup::hexcode::{from_hex, to_hex};
use cloud_backup::mnemonic::parse_mnemonic;
use cloud_backup::protocol::{PasskeyAuthOutcome, Progress, Request};
use cloud_backup::text::{decimal, prefixed, starts_with};
use cloud_backup::wallet::{Network, WalletMetadata, WalletMode, WalletType};

#[test]
fn map_discovery_error_returns_user_cancelled() {
    let outcome = map_discovery_error(PasskeyError::UserCancelled).unwrap();
    assert_eq!(outcome, PasskeyAuthOutcome::UserCancelled);
}

#[test]
fn map_discovery_error_returns_no_credential_found() {
    let outcome = map_discovery_error(PasskeyError::NoCredentialFound).unwrap();
    assert_eq!(outcome, PasskeyAuthOutcome::NoCredentialFound);
}

#[test]
fn map_discovery_error_preserves_unexpected_errors() {
    let error = map_discovery_error(PasskeyError::AuthenticationFailed("boom".into())).unwrap_err();
    assert!(
        matches!(error, CloudBackupError::Passkey(message) if message == "authentication failed: boom")
    );
}

#[test]
fn other_discovery_errors_keep_their_text() {
    let error = map_discovery_error(PasskeyError::Other("no window".into())).unwrap_err();
    assert_eq!(error.message(), "passkey error: no window");
}

#[test]
fn hexadecimal_text_is_read_back() {
    assert_eq!(to_hex(&vec![0x00, 0x7f, 0xa0, 0xff]), "007fa0ff");
    assert_eq!(from_hex(&"007fA0fF".to_string()), Some(vec![0x00, 0x7f, 0xa0, 0xff]));
    assert_eq!(from_hex(&String::new()), Some(Vec::new()));
    for text in ["0", "0g", "abc", "äb", "é"] {
        assert_eq!(from_hex(&text.to_string()), None);
    }
    let every_byte: Vec<u8> = (0..=255).collect();
    assert_eq!(from_hex(&to_hex(&every_byte)), Some(every_byte));
}

#[test]
fn stored_credentials_are_read_back() {
    let credential = vec![1, 2, 0xee];
    assert_eq!(load_stored_credential_id(Some(to_hex(&credential))), Some(credential));
    assert_eq!(load_stored_credential_id(Some("zz".to_string())), None);
    assert_eq!(load_stored_credential_id(None), None);
}

#[test]
fn keys_have_32_bytes() {
    assert_eq!(key_from_bytes(&vec![1; 31]), None);
    assert_eq!(key_from_bytes(&vec![1; 33]), None);
    let bytes: Vec<u8> = (0..32).collect();
    let key = key_from_bytes(&bytes).unwrap();
    assert_eq!(bytes_of_key(&key), bytes);
}

#[test]
fn random_values_differ() {
    assert_ne!(fresh_challenge(), fresh_challenge());
    let seed = fresh_passkey_seed();
    assert_ne!(seed.prf_salt, seed.challenge);
    assert_ne!(seed.user_id, fresh_passkey_seed().user_id);
}

#[test]
fn times_before_the_epoch_count_as_zero() {
    assert_eq!(timestamp_from_second(-1), 0);
    assert_eq!(timestamp_from_second(i64::MIN), 0);
    assert_eq!(timestamp_from_second(17), 17);
    assert!((1_700_000_000..=LAST_TIMESTAMP).contains(&current_timestamp()));
}

#[test]
fn recovery_phrases_are_normalised() {
    let phrase = "legal winner thank year wave sausage worth useful legal winner thank yellow";
    assert_eq!(parse_mnemonic(&phrase.replace(' ', "\n ")).unwrap(), phrase);
    assert!(parse_mnemonic("legal winner").is_err());
    assert!(parse_mnemonic("").is_err());
}

#[test]
fn parsed_phrases_are_imported() {
    let wallet = || WalletMetadata {
        id: "w".to_string(),
        name: "W".to_string(),
        record_id: "record".to_string(),
        network: Network { code: 0 },
        wallet_mode: WalletMode::Main,
        wallet_type: WalletType::Hot,
        master_fingerprint: None,
        is_tap_signer: false,
    };
    match RestoreWalletFlow::import_mnemonic(Vec::new(), wallet(), Ok("one two".to_string())) {
        Progress::Ask { request: Request::ImportMnemonicWallet { wallet, phrase }, .. } => {
            assert_eq!((wallet.id.as_str(), phrase.as_str()), ("w", "one two"))
        }
        _ => panic!("expected an import"),
    }
    match RestoreWalletFlow::import_mnemonic(Vec::new(), wallet(), Err("bad word".to_string())) {
        Progress::Done { value, .. } => assert_eq!(
            value.result.unwrap_err().message(),
            "internal error: invalid mnemonic: bad word"
        ),
        _ => panic!("expected a failure"),
    }
}

#[test]
fn errors_read_as_messages() {
    let text = || "x".to_string();
    let cases = [
        (CloudBackupError::NotSupported(text()), "not supported: x"),
        (CloudBackupError::Passkey(text()), "passkey error: x"),
        (CloudBackupError::Crypto(text()), "crypto error: x"),
        (CloudBackupError::Cloud(text()), "cloud storage error: x"),
        (CloudBackupError::Internal(text()), "internal error: x"),
        (
            CloudBackupError::PasskeyMismatch,
            "Passkey didn't match any backups, please try a new one",
        ),
        (CloudBackupError::PasskeyDiscoveryCancelled, "user cancelled passkey discovery"),
    ];
    for (error, message) in cases {
        assert_eq!(error.message(), message);
    }
}

#[test]
fn service_errors_become_backup_errors() {
    let text = || "x".to_string();
    assert_eq!(from_seal_error(SealError::Crypto(text())).message(), "crypto error: x");
    assert_eq!(from_seal_error(SealError::Encode(text())).message(), "internal error: x");
    assert_eq!(
        from_storage_error(CloudStorageError::NotFound(text())).message(),
        "cloud storage error: x"
    );
    assert_eq!(
        from_storage_error(CloudStorageError::Other(text())).message(),
        "cloud storage error: x"
    );
    assert_eq!(internal_error("doing", &text()).message(), "internal error: doing: x");
}

#[test]
fn numbers_are_written_in_decimal() {
    for number in [0, 7, 10, 99, 100, 305, 4_294_967_295] {
        assert_eq!(decimal(number), number.to_string());
    }
}

#[test]
fn texts_are_put_together() {
    assert_eq!(prefixed("a", "b"), "a: b");
    assert!(starts_with("bdk_wallet_1.db", "bdk_wallet"));
    assert!(starts_with("same", "same"));
    assert!(starts_with("any", ""));
    assert!(!starts_with("bdk", "bdk_wallet"));
    assert!(!starts_with("Bdk_wallet", "bdk_wallet"));
}

#[test]
fn issues_are_joined_with_semicolons() {
    assert_eq!(join_issues(&Vec::new()), "");
    assert_eq!(join_issues(&vec![IntegrityIssue::NotBackedUp]), "some wallets are not backed up");
    assert_eq!(
        join_issues(&vec![IntegrityIssue::FilesMissing]),
        "wallet backups not found in iCloud"
    );
    assert_eq!(
        join_issues(&vec![IntegrityIssue::NoMasterKey, IntegrityIssue::NoNamespace]),
        "master key not found in keychain; namespace_id not found in keychain"
    );
}
