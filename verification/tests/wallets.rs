use cloud_backup::wallet::{
    all_local_wallets, convert_cloud_secret, count_all_wallets, known_wallets, missing_wallets,
    orphan_records, record_ids, wallet_queries, CloudWalletSecret, LocalWalletSecret, Network,
    WalletMetadata, WalletMode, WalletType,
};

fn wallet(id: &str, fingerprint: Option<&str>) -> WalletMetadata {
    WalletMetadata {
        id: id.to_string(),
        name: id.to_uppercase(),
        record_id: format!("record-{id}"),
        network: Network { code: 1 },
        wallet_mode: WalletMode::Decoy,
        wallet_type: WalletType::Cold,
        master_fingerprint: fingerprint.map(str::to_string),
        is_tap_signer: false,
    }
}

fn owned(items: &[&str]) -> Vec<String> {
    items.iter().map(|item| item.to_string()).collect()
}

#[test]
fn convert_cloud_secret_mnemonic() {
    let secret = CloudWalletSecret::Mnemonic("abandon".into());
    let result = convert_cloud_secret(&secret);
    assert!(matches!(result, LocalWalletSecret::Mnemonic(ref m) if m == "abandon"));
}

#[test]
fn convert_cloud_secret_tap_signer() {
    let secret = CloudWalletSecret::TapSignerBackup(vec![1, 2, 3]);
    let result = convert_cloud_secret(&secret);
    assert!(matches!(result, LocalWalletSecret::TapSignerBackup(ref b) if b == &[1, 2, 3]));
}

#[test]
fn convert_cloud_secret_descriptor_to_none() {
    let secret = CloudWalletSecret::Descriptor("wpkh(...)".into());
    let result = convert_cloud_secret(&secret);
    assert!(matches!(result, LocalWalletSecret::NoSecret));
}

#[test]
fn convert_cloud_secret_watch_only_to_none() {
    let result = convert_cloud_secret(&CloudWalletSecret::WatchOnly);
    assert!(matches!(result, LocalWalletSecret::NoSecret));
}

#[test]
fn every_network_is_asked_for_both_modes() {
    let networks = vec![Network { code: 0 }, Network { code: 4 }];
    assert_eq!(
        wallet_queries(&networks),
        [
            (Network { code: 0 }, WalletMode::Main),
            (Network { code: 0 }, WalletMode::Decoy),
            (Network { code: 4 }, WalletMode::Main),
            (Network { code: 4 }, WalletMode::Decoy),
        ]
    );
}

#[test]
fn failed_queries_hold_no_wallets() {
    let results = vec![
        Ok(vec![wallet("a", None)]),
        Err("locked".to_string()),
        Ok(Vec::new()),
        Ok(vec![wallet("b", None), wallet("c", None)]),
    ];
    let wallets = all_local_wallets(results);
    assert_eq!(record_ids(&wallets), ["record-a", "record-b", "record-c"]);
    assert_eq!(count_all_wallets(&wallets), 3);
}

#[test]
fn missing_wallets_keep_their_order() {
    let wallets = vec![wallet("a", None), wallet("b", None), wallet("c", None)];
    let missing = missing_wallets(&wallets, &owned(&["record-b", "record-x"]));
    assert_eq!(record_ids(&missing), ["record-a", "record-c"]);
    assert!(missing_wallets(&wallets, &record_ids(&wallets)).is_empty());
}

#[test]
fn orphans_are_records_of_no_wallet() {
    let wallets = vec![wallet("a", None)];
    let listed = owned(&["record-z", "record-a", "record-y"]);
    assert_eq!(orphan_records(&listed, &wallets), ["record-z", "record-y"]);
}

#[test]
fn only_wallets_with_a_fingerprint_are_told_apart() {
    let wallets = vec![wallet("a", Some("AAAA")), wallet("b", None), wallet("c", Some("CCCC"))];
    let known = known_wallets(&wallets);
    let names: Vec<_> = known.iter().map(|item| item.fingerprint.as_str()).collect();
    assert_eq!(names, ["AAAA", "CCCC"]);
    assert_eq!(known[0].network, Network { code: 1 });
    assert_eq!(known[0].wallet_mode, WalletMode::Decoy);
}
