//! What bringing wallets back does, from the first step to the last.

use vstd::prelude::*;

use crate::conversation::{continues, is_conversation, lemma_stop_is_last, Stepwise};
use crate::error::CloudBackupError;
use crate::flows::restore::{
    FoundBackup, MasterKeySearch, RestoreAllFlow, RestoreCloudWalletFlow, RestoreWalletFlow,
};
use crate::hexcode::hex_text;
use crate::mnemonic::parsed_mnemonic;
use crate::protocol::{
    Attempt, DiscoveredPasskey, Effect, KeychainKey, Operation, Outcome, Progress, Reply, Request,
    RestoredWallet,
};
use crate::record::CloudBackup;
use crate::state::{CloudBackupReconcileMessage, CloudBackupRestoreReport, CloudBackupStatus};
use crate::text::{decimal_text, texts};
use crate::wallet::{
    is_known_list, law_known_wallets, CloudWalletSecret, EncryptedMasterKey, KnownWallet,
    LocalWalletSecret, MasterKey,
};

verus! {

impl Stepwise for RestoreWalletFlow {
    type Value = RestoredWallet;

    open spec fn follows(self, reply: Reply, progress: Progress<Self, RestoredWallet>) -> bool {
        self.next(reply, progress)
    }
}

impl Stepwise for RestoreCloudWalletFlow {
    type Value = Result<(), CloudBackupError>;

    open spec fn follows(self, reply: Reply, progress: Attempt<Self, ()>) -> bool {
        self.next(reply, progress)
    }
}

impl Stepwise for RestoreAllFlow {
    type Value = Result<(), CloudBackupError>;

    open spec fn follows(self, reply: Reply, progress: Attempt<Self, ()>) -> bool {
        self.next(reply, progress)
    }
}

/// A wallet that was restored is the one whose backup was asked for: downloaded from the given
/// namespace under the given record, of the version that is understood, decrypted with the given
/// master key. It is left out if it was found among the wallets that are known, and else it is
/// imported with its own secret, descriptors, extended public key and metadata, and known from then
/// on by its fingerprint, network and mode.
pub proof fn law_restored_wallet_is_the_backed_up_one(
    namespace: String,
    record_id: String,
    key: MasterKey,
    known: Vec<KnownWallet>,
    steps: Seq<Progress<RestoreWalletFlow, RestoredWallet>>,
    replies: Seq<Reply>,
    value: RestoredWallet,
)
    requires
        RestoreWalletFlow::began(namespace, record_id, key, known, steps[0]),
        is_conversation(steps, replies),
        steps.last() matches Progress::Done { value: given, .. } && given == value,
        value.result is Ok,
    ensures
        steps[0].requests(Request::DownloadWalletBackup { namespace, record_id }),
        replies.len() >= 5,
        replies[0] matches Reply::Downloaded(Ok(bytes)) && steps[1].requests(
            Request::ParseWalletBackup { bytes },
        ),
        replies[1] matches Reply::WalletBackup(Ok(encrypted)) && encrypted.version == 1
            && steps[2].requests(Request::OpenWallet { backup: encrypted, key }),
        replies[2] matches Reply::Wallet(Ok(entry)) && (replies[3] matches Reply::Metadata(
            Ok(wallet),
        ) && (replies[4] matches Reply::Duplicate(found) && {
            &&& steps[3].requests(Request::ParseMetadata { json: entry.metadata })
            &&& steps[4] matches Progress::Ask {
                request: Request::IsDuplicateWallet { wallet: sought, known: among },
                ..
            } && sought == wallet && among@ == known@
            &&& if found == Ok::<bool, String>(true) {
                replies.len() == 5 && value.known@ == known@
            } else {
                &&& replies.len() == 6
                &&& replies[5] matches Reply::Written(Ok(_))
                &&& match entry.secret {
                    CloudWalletSecret::Mnemonic(words) => steps[5] matches Progress::Ask {
                        request: Request::ImportMnemonicWallet { wallet: imported, phrase },
                        ..
                    } && imported == wallet && parsed_mnemonic(words@) == Ok::<
                        Seq<char>,
                        Seq<char>,
                    >(phrase@),
                    secret => {
                        &&& steps[5] matches Progress::Ask {
                            request: Request::ImportDescriptorWallet { wallet: imported, backup },
                            ..
                        }
                        &&& imported == wallet
                        &&& backup.metadata == entry.metadata
                        &&& backup.descriptors == entry.descriptors
                        &&& backup.xpub == entry.xpub
                        &&& backup.labels_jsonl is None
                        &&& match secret {
                            CloudWalletSecret::TapSignerBackup(bytes) =>
                                backup.secret matches LocalWalletSecret::TapSignerBackup(copy)
                                && copy@ == bytes@,
                            _ => backup.secret is NoSecret,
                        }
                    },
                }
                &&& value.known@ == match wallet.master_fingerprint {
                    Some(fingerprint) => known@.push(
                        KnownWallet {
                            fingerprint,
                            network: wallet.network,
                            wallet_mode: wallet.wallet_mode,
                        },
                    ),
                    None => known@,
                }
            }
        })),
{
    assert(continues(steps[0], replies[0], steps[1]));
    assert(continues(steps[1], replies[1], steps[2]));
    assert(continues(steps[2], replies[2], steps[3]));
    assert(continues(steps[3], replies[3], steps[4]));
    assert(continues(steps[4], replies[4], steps[5]));
    if steps[5] is Ask {
        assert(continues(steps[5], replies[5], steps[6]));
        lemma_stop_is_last(steps, replies, 6);
    } else {
        lemma_stop_is_last(steps, replies, 5);
    }
}

/// A wallet that was not restored leaves the known wallets as they were, and says what failed: the
/// download, the backup itself or its version, its decryption, its metadata, its phrase or the
/// import.
pub proof fn law_failed_wallet_says_why(
    namespace: String,
    record_id: String,
    key: MasterKey,
    known: Vec<KnownWallet>,
    steps: Seq<Progress<RestoreWalletFlow, RestoredWallet>>,
    replies: Seq<Reply>,
    value: RestoredWallet,
    error: CloudBackupError,
)
    requires
        RestoreWalletFlow::began(namespace, record_id, key, known, steps[0]),
        is_conversation(steps, replies),
        steps.last() matches Progress::Done { value: given, .. } && given == value,
        value.result == Err::<(), CloudBackupError>(error),
    ensures
        value.known@ == known@,
        match replies.last() {
            Reply::Downloaded(Err(why)) => error matches CloudBackupError::Cloud(text) && text@
                == "download "@ + record_id@ + ": "@ + why.text()@,
            Reply::WalletBackup(Ok(encrypted)) => encrypted.version != 1 && (
            error matches CloudBackupError::Internal(text) && text@
                == "unsupported wallet backup version"@ + ": "@ + decimal_text(
                encrypted.version as nat,
            )),
            Reply::WalletBackup(Err(why)) => error matches CloudBackupError::Internal(text) && text@
                == "deserialize wallet"@ + ": "@ + why@,
            Reply::Wallet(Err(why)) => error matches CloudBackupError::Crypto(text) && text@
                == "decrypt wallet"@ + ": "@ + why@,
            Reply::Metadata(Err(why)) => error matches CloudBackupError::Internal(text) && text@
                == "parse wallet metadata"@ + ": "@ + why@,
            Reply::Duplicate(_) => replies[2] matches Reply::Wallet(Ok(entry)) && (
            entry.secret matches CloudWalletSecret::Mnemonic(words) && (parsed_mnemonic(
                words@,
            ) matches Err(why) && (error matches CloudBackupError::Internal(text) && text@
                == "invalid mnemonic"@ + ": "@ + why))),
            Reply::Written(Err(why)) => error matches CloudBackupError::Internal(text) && (text@
                == "restore mnemonic wallet"@ + ": "@ + why@ || text@
                == "restore descriptor wallet"@ + ": "@ + why@),
            _ => false,
        },
{
    assert(continues(steps[0], replies[0], steps[1]));
    if steps[1] is Ask {
        assert(continues(steps[1], replies[1], steps[2]));
        if steps[2] is Ask {
            assert(continues(steps[2], replies[2], steps[3]));
            if steps[3] is Ask {
                assert(continues(steps[3], replies[3], steps[4]));
                if steps[4] is Ask {
                    assert(continues(steps[4], replies[4], steps[5]));
                    if steps[5] is Ask {
                        assert(continues(steps[5], replies[5], steps[6]));
                        lemma_stop_is_last(steps, replies, 6);
                    } else {
                        lemma_stop_is_last(steps, replies, 5);
                    }
                } else {
                    lemma_stop_is_last(steps, replies, 4);
                }
            } else {
                lemma_stop_is_last(steps, replies, 3);
            }
        } else {
            lemma_stop_is_last(steps, replies, 2);
        }
    } else {
        lemma_stop_is_last(steps, replies, 1);
    }
}

/// Restoring one wallet restores the record that was given, from the namespace that the keychain
/// names, with the master key of the key store, unless it is one of the wallets on the device; its
/// result is that of this restore.
pub proof fn law_one_wallet_is_restored_from_the_current_namespace(
    record_id: String,
    steps: Seq<Attempt<RestoreCloudWalletFlow, ()>>,
    replies: Seq<Reply>,
    value: Result<(), CloudBackupError>,
)
    requires
        RestoreCloudWalletFlow::began(record_id, steps[0]),
        is_conversation(steps, replies),
        steps.last() matches Progress::Done { value: given, .. } && given == value,
    ensures
        steps[0].requests(Request::ReadKeychain(KeychainKey::NamespaceId)),
        replies[0] matches Reply::Keychain(stored) && match stored {
            None => replies.len() == 1 && (value matches Err(CloudBackupError::Internal(text))
                && text@ == "namespace_id not found in keychain"@),
            Some(named) => {
                &&& steps[1].requests(Request::GetOrCreateMasterKey)
                &&& replies[1] matches Reply::MasterKey(given)
                &&& match given {
                    Err(why) => replies.len() == 2 && (value matches Err(
                        CloudBackupError::Internal(text),
                    ) && text@ == "master key"@ + ": "@ + why@),
                    Ok(local) => {
                        &&& replies.len() == 4
                        &&& steps[2].requests(Request::ReadLocalWallets)
                        &&& replies[2] matches Reply::LocalWallets(wallets)
                        &&& steps[3] matches Progress::Ask {
                            request: Request::Call(
                                Operation::RestoreWallet {
                                    namespace,
                                    record_id: sought,
                                    key,
                                    known,
                                },
                            ),
                            ..
                        }
                        &&& namespace == named
                        &&& sought == record_id
                        &&& key == local
                        &&& is_known_list(wallets@, known@)
                        &&& replies[3] matches Reply::Returned(Outcome::WalletRestored(restored))
                        &&& value == restored.result
                    },
                }
            },
        },
{
    assert(continues(steps[0], replies[0], steps[1]));
    if steps[1] is Ask {
        assert(continues(steps[1], replies[1], steps[2]));
        if steps[2] is Ask {
            assert(continues(steps[2], replies[2], steps[3]));
            if let Reply::LocalWallets(wallets) = replies[2] {
                law_known_wallets(wallets@);
            }
            assert(continues(steps[3], replies[3], steps[4]));
            lemma_stop_is_last(steps, replies, 4);
        } else {
            lemma_stop_is_last(steps, replies, 2);
        }
    } else {
        lemma_stop_is_last(steps, replies, 1);
    }
}

/// The steps of a restore of all wallets.
pub type RestoreSteps = Seq<Attempt<RestoreAllFlow, ()>>;

/// How a restore begins, up to the passkey that the user picks: the first namespace's master key
/// backup says the salt, and a challenge is drawn.
pub open spec fn asks_for_passkey(
    namespaces: Vec<String>,
    first_json: Vec<u8>,
    first: EncryptedMasterKey,
    drawn: [u8; 32],
    steps: RestoreSteps,
    replies: Seq<Reply>,
) -> bool {
    &&& steps[0].requests(Request::ListNamespaces)
    &&& replies[0] == Reply::Listed(Ok(namespaces))
    &&& namespaces@.len() > 0
    &&& steps[1].requests(Request::DownloadMasterKeyBackup { namespace: namespaces@[0] })
    &&& replies[1] == Reply::Downloaded(Ok(first_json))
    &&& steps[2] matches Progress::Ask { request: Request::ParseMasterKeyBackup { bytes }, .. }
        && bytes@ == first_json@
    &&& replies[2] == Reply::MasterKeyBackup(Ok(first))
    &&& first.version == 1
    &&& steps[3].requests(Request::DrawChallenge)
    &&& replies[3] == Reply::Challenge(drawn)
    &&& steps[4] matches Progress::Ask {
        request: Request::DiscoverAndAuthenticate { rp_id, prf_salt, challenge },
        ..
    } && rp_id@ == "covebitcoinwallet.com"@ && prf_salt == first.prf_salt && challenge == drawn
}

/// Whether the step at `at` parses the master key backup of the namespace at `r`: the bytes that
/// were downloaded for it, just before or, for the first one's name, at the beginning.
pub open spec fn parses_master_key(
    namespaces: Seq<String>,
    r: int,
    first_json: Seq<u8>,
    steps: RestoreSteps,
    replies: Seq<Reply>,
    at: int,
) -> bool {
    &&& steps[at] matches Progress::Ask { request: Request::ParseMasterKeyBackup { bytes }, .. }
    &&& ({
        ||| namespaces[r]@ == namespaces[0]@ && bytes@ == first_json
        ||| {
            &&& at > 5
            &&& steps[at - 1].requests(
                Request::DownloadMasterKeyBackup { namespace: namespaces[r] },
            )
            &&& replies[at - 1] == Reply::Downloaded(Ok(bytes))
        }
    })
}

/// Whether the step at `at` tries to open the master key backup of the namespace at `r` with the
/// output of the passkey.
pub open spec fn tries_to_open(
    namespaces: Seq<String>,
    r: int,
    first_json: Seq<u8>,
    output: Seq<u8>,
    steps: RestoreSteps,
    replies: Seq<Reply>,
    at: int,
) -> bool {
    &&& at > 5
    &&& parses_master_key(namespaces, r, first_json, steps, replies, at - 1)
    &&& steps[at] matches Progress::Ask {
        request: Request::OpenMasterKey { backup, prf_key },
        ..
    }
    &&& backup.version == 1
    &&& replies[at - 1] == Reply::MasterKeyBackup(Ok(backup))
    &&& prf_key@ == output
}

/// Whether the namespace at `r` turned out not to open, at the step `at`: its master key backup
/// could not be downloaded, could not be read, is of another version, or the passkey does not open
/// it.
pub open spec fn did_not_open(
    namespaces: Seq<String>,
    r: int,
    first_json: Seq<u8>,
    output: Seq<u8>,
    steps: RestoreSteps,
    replies: Seq<Reply>,
    at: int,
) -> bool {
    ||| {
        &&& steps[at].requests(Request::DownloadMasterKeyBackup { namespace: namespaces[r] })
        &&& replies[at] matches Reply::Downloaded(Err(_))
    }
    ||| {
        &&& parses_master_key(namespaces, r, first_json, steps, replies, at)
        &&& replies[at] matches Reply::MasterKeyBackup(parsed)
        &&& parsed matches Ok(backup) ==> backup.version != 1
    }
    ||| {
        &&& tries_to_open(namespaces, r, first_json, output, steps, replies, at)
        &&& replies[at] matches Reply::MasterKey(Err(_))
    }
}

/// Whether the namespace at `r` turned out not to open, before the step `until`.
pub open spec fn was_passed_over(
    namespaces: Seq<String>,
    r: int,
    first_json: Seq<u8>,
    output: Seq<u8>,
    steps: RestoreSteps,
    replies: Seq<Reply>,
    until: int,
) -> bool {
    exists|at: int|
        5 <= at < until && #[trigger] did_not_open(
            namespaces,
            r,
            first_json,
            output,
            steps,
            replies,
            at,
        )
}

/// Whether each of the first `count` namespaces turned out not to open, before the step `until`.
pub open spec fn none_opened(
    namespaces: Seq<String>,
    count: int,
    first_json: Seq<u8>,
    output: Seq<u8>,
    steps: RestoreSteps,
    replies: Seq<Reply>,
    until: int,
) -> bool {
    forall|r: int|
        0 <= r < count ==> #[trigger] was_passed_over(
            namespaces,
            r,
            first_json,
            output,
            steps,
            replies,
            until,
        )
}

/// Whether the first namespace that opens is the one at `r`, at the step `at`, with the master key
/// `key`.
pub open spec fn opened_first(
    namespaces: Seq<String>,
    r: int,
    first_json: Seq<u8>,
    output: Seq<u8>,
    key: MasterKey,
    steps: RestoreSteps,
    replies: Seq<Reply>,
    at: int,
) -> bool {
    &&& 0 <= r < namespaces.len()
    &&& none_opened(namespaces, r, first_json, output, steps, replies, at)
    &&& tries_to_open(namespaces, r, first_json, output, steps, replies, at)
    &&& replies[at] == Reply::MasterKey(Ok(key))
}

/// How a restore begins.
proof fn lemma_restore_begins(steps: RestoreSteps, replies: Seq<Reply>, at: int)
    requires
        RestoreAllFlow::began(steps[0]),
        is_conversation(steps, replies),
        0 <= at < steps.len(),
    ensures
        at < 5 ==> (steps[at] matches Progress::Ask { flow, .. } ==> match flow {
            RestoreAllFlow::Namespaces => at == 0,
            RestoreAllFlow::FirstDownload { .. } => at == 1,
            RestoreAllFlow::FirstParse { .. } => at == 2,
            RestoreAllFlow::Challenge { .. } => at == 3,
            RestoreAllFlow::Discovery { .. } => at == 4,
            _ => false,
        }),
        at >= 4 ==> (replies[0] matches Reply::Listed(Ok(namespaces)) && (
        replies[1] matches Reply::Downloaded(Ok(first_json)) && (
        replies[2] matches Reply::MasterKeyBackup(Ok(first)) && (
        replies[3] matches Reply::Challenge(drawn) ==> asks_for_passkey(
            namespaces,
            first_json,
            first,
            drawn,
            steps,
            replies,
        ) && (steps[4] matches Progress::Ask { flow, .. } && flow == (RestoreAllFlow::Discovery {
            namespaces,
            first_json,
            prf_salt: first.prf_salt,
        }))))) || at == 4 && steps[4] is Refused),
        at > 4 ==> replies[3] is Challenge,
{
    if at > 0 {
        assert(continues(steps[0], replies[0], steps[1]));
    }
    if at > 1 {
        assert(continues(steps[1], replies[1], steps[2]));
    }
    if at > 2 {
        assert(continues(steps[2], replies[2], steps[3]));
    }
    if at > 3 {
        assert(continues(steps[3], replies[3], steps[4]));
    }
    if at > 4 {
        assert(continues(steps[4], replies[4], steps[5]));
    }
}

/// Whether a search is for the namespaces that were listed, with the passkey that the user picked,
/// and the namespaces before the current one did not open.
spec fn is_search(
    namespaces: Vec<String>,
    first_json: Vec<u8>,
    prf_salt: [u8; 32],
    discovered: DiscoveredPasskey,
    search: MasterKeySearch,
    steps: RestoreSteps,
    replies: Seq<Reply>,
    until: int,
) -> bool {
    &&& search.namespaces == namespaces
    &&& search.first_json == first_json
    &&& search.prf_salt == prf_salt
    &&& search.prf_key@ == discovered.prf_output@
    &&& search.credential_id == discovered.credential_id
    &&& search.index < namespaces@.len()
    &&& none_opened(
        namespaces@,
        search.index as int,
        first_json@,
        discovered.prf_output@,
        steps,
        replies,
        until,
    )
}

/// What a step of a restore is while it looks for the namespace that opens.
spec fn is_search_step(
    namespaces: Vec<String>,
    first_json: Vec<u8>,
    prf_salt: [u8; 32],
    discovered: DiscoveredPasskey,
    steps: RestoreSteps,
    replies: Seq<Reply>,
    at: int,
) -> bool {
    match steps[at] {
        Progress::Ask { flow, effects, request } => effects@.len() == 0 && match flow {
            RestoreAllFlow::Download { search } => {
                &&& is_search(
                    namespaces,
                    first_json,
                    prf_salt,
                    discovered,
                    search,
                    steps,
                    replies,
                    at,
                )
                &&& request == Request::DownloadMasterKeyBackup {
                    namespace: namespaces@[search.index as int],
                }
            },
            RestoreAllFlow::Parse { search } => {
                &&& is_search(
                    namespaces,
                    first_json,
                    prf_salt,
                    discovered,
                    search,
                    steps,
                    replies,
                    at,
                )
                &&& parses_master_key(
                    namespaces@,
                    search.index as int,
                    first_json@,
                    steps,
                    replies,
                    at,
                )
            },
            RestoreAllFlow::Open { search } => {
                &&& is_search(
                    namespaces,
                    first_json,
                    prf_salt,
                    discovered,
                    search,
                    steps,
                    replies,
                    at,
                )
                &&& tries_to_open(
                    namespaces@,
                    search.index as int,
                    first_json@,
                    discovered.prf_output@,
                    steps,
                    replies,
                    at,
                )
            },
            _ => false,
        },
        Progress::Done { effects, value } => {
            &&& effects@.len() == 0
            &&& value matches Err(CloudBackupError::PasskeyMismatch)
            &&& none_opened(
                namespaces@,
                namespaces@.len() as int,
                first_json@,
                discovered.prf_output@,
                steps,
                replies,
                at,
            )
        },
        Progress::Refused { .. } => true,
    }
}

/// The search goes on after a namespace that did not open.
proof fn lemma_search_goes_on(
    namespaces: Vec<String>,
    first_json: Vec<u8>,
    prf_salt: [u8; 32],
    discovered: DiscoveredPasskey,
    search: MasterKeySearch,
    steps: RestoreSteps,
    replies: Seq<Reply>,
    at: int,
)
    requires
        5 <= at,
        at + 1 < steps.len(),
        is_search(namespaces, first_json, prf_salt, discovered, search, steps, replies, at),
        did_not_open(
            namespaces@,
            search.index as int,
            first_json@,
            discovered.prf_output@,
            steps,
            replies,
            at,
        ),
        RestoreAllFlow::seeks(
            MasterKeySearch { index: (search.index + 1) as usize, ..search },
            steps[at + 1],
        ),
    ensures
        is_search_step(namespaces, first_json, prf_salt, discovered, steps, replies, at + 1),
{
    let output = discovered.prf_output@;
    let index = search.index + 1;
    assert(index <= namespaces.len());
    assert forall|r: int| 0 <= r < index implies #[trigger] was_passed_over(
        namespaces@,
        r,
        first_json@,
        output,
        steps,
        replies,
        at + 1,
    ) by {
        if r < search.index {
            assert(was_passed_over(namespaces@, r, first_json@, output, steps, replies, at));
        } else {
            assert(did_not_open(namespaces@, r, first_json@, output, steps, replies, at));
        }
    }
    assert(none_opened(namespaces@, index, first_json@, output, steps, replies, at + 1));
}

proof fn lemma_none_opened_later(
    namespaces: Seq<String>,
    count: int,
    first_json: Seq<u8>,
    output: Seq<u8>,
    steps: RestoreSteps,
    replies: Seq<Reply>,
    until: int,
)
    requires
        none_opened(namespaces, count, first_json, output, steps, replies, until),
    ensures
        none_opened(namespaces, count, first_json, output, steps, replies, until + 1),
{
    assert forall|r: int| 0 <= r < count implies #[trigger] was_passed_over(
        namespaces,
        r,
        first_json,
        output,
        steps,
        replies,
        until + 1,
    ) by {
        assert(was_passed_over(namespaces, r, first_json, output, steps, replies, until));
    }
}

/// Whether the step at `at` is that which opened the backup that `found` tells of.
spec fn is_found_at(
    namespaces: Vec<String>,
    first_json: Vec<u8>,
    prf_salt: [u8; 32],
    discovered: DiscoveredPasskey,
    found: FoundBackup,
    steps: RestoreSteps,
    replies: Seq<Reply>,
    at: int,
) -> bool {
    &&& 5 < at < replies.len()
    &&& found.prf_salt == prf_salt
    &&& found.credential_id == discovered.credential_id
    &&& !found.is_fresh_device
    &&& steps[at + 1] matches Progress::Ask { flow, request, effects } && flow
        == (RestoreAllFlow::LocalKey { found }) && request is LoadMasterKey && effects@.len() == 0
    &&& exists|r: int|
        #[trigger] opened_first(
            namespaces@,
            r,
            first_json@,
            discovered.prf_output@,
            found.key,
            steps,
            replies,
            at,
        ) && found.namespace == namespaces@[r]
}

proof fn lemma_search_steps(
    namespaces: Vec<String>,
    first_json: Vec<u8>,
    first: EncryptedMasterKey,
    discovered: DiscoveredPasskey,
    steps: RestoreSteps,
    replies: Seq<Reply>,
    at: int,
)
    requires
        RestoreAllFlow::began(steps[0]),
        is_conversation(steps, replies),
        5 <= at < steps.len(),
        replies[0] == Reply::Listed(Ok(namespaces)),
        replies[1] == Reply::Downloaded(Ok(first_json)),
        replies[2] == Reply::MasterKeyBackup(Ok(first)),
        replies[4] == Reply::Discovered(Ok(discovered)),
        discovered.prf_output@.len() == 32,
    ensures
        is_search_step(namespaces, first_json, first.prf_salt, discovered, steps, replies, at)
            || exists|opened: int, found: FoundBackup|
            opened < at && #[trigger] is_found_at(
                namespaces,
                first_json,
                first.prf_salt,
                discovered,
                found,
                steps,
                replies,
                opened,
            ),
    decreases at,
{
    let salt = first.prf_salt;
    lemma_restore_begins(steps, replies, at);
    assert(continues(steps[at - 1], replies[at - 1], steps[at]));
    if at == 5 {
        assert(namespaces@[0]@ == namespaces@[0]@);
    } else {
        lemma_search_steps(namespaces, first_json, first, discovered, steps, replies, at - 1);
        if is_search_step(namespaces, first_json, salt, discovered, steps, replies, at - 1) {
            if let Progress::Ask { flow, .. } = steps[at - 1] {
                match flow {
                    RestoreAllFlow::Download { search } => {
                        lemma_none_opened_later(
                            namespaces@,
                            search.index as int,
                            first_json@,
                            discovered.prf_output@,
                            steps,
                            replies,
                            at - 1,
                        );
                        if let Reply::Downloaded(Err(_)) = replies[at - 1] {
                            lemma_search_goes_on(
                                namespaces,
                                first_json,
                                salt,
                                discovered,
                                search,
                                steps,
                                replies,
                                at - 1,
                            );
                        }
                    },
                    RestoreAllFlow::Parse { search } => {
                        lemma_none_opened_later(
                            namespaces@,
                            search.index as int,
                            first_json@,
                            discovered.prf_output@,
                            steps,
                            replies,
                            at - 1,
                        );
                        if let Reply::MasterKeyBackup(parsed) = replies[at - 1] {
                            if parsed is Err || parsed->Ok_0.version != 1 {
                                lemma_search_goes_on(
                                    namespaces,
                                    first_json,
                                    salt,
                                    discovered,
                                    search,
                                    steps,
                                    replies,
                                    at - 1,
                                );
                            }
                        }
                    },
                    RestoreAllFlow::Open { search } => {
                        match replies[at - 1] {
                            Reply::MasterKey(Err(_)) => {
                                lemma_search_goes_on(
                                    namespaces,
                                    first_json,
                                    salt,
                                    discovered,
                                    search,
                                    steps,
                                    replies,
                                    at - 1,
                                );
                            },
                            Reply::MasterKey(Ok(key)) => {
                                if let Progress::Ask {
                                    flow: RestoreAllFlow::LocalKey { found },
                                    ..
                                } = steps[at] {
                                    let r = search.index as int;
                                    assert(opened_first(
                                        namespaces@,
                                        r,
                                        first_json@,
                                        discovered.prf_output@,
                                        key,
                                        steps,
                                        replies,
                                        at - 1,
                                    ));
                                    assert(found.namespace == namespaces@[r]);
                                    assert(found.key == key);
                                    assert(found.prf_salt == salt);
                                    assert(found.credential_id == discovered.credential_id);
                                    assert(5 < at - 1 < replies.len());
                                    assert(steps[at - 1 + 1] == steps[at]);
                                    assert(is_found_at(
                                        namespaces,
                                        first_json,
                                        salt,
                                        discovered,
                                        found,
                                        steps,
                                        replies,
                                        at - 1,
                                    ));
                                }
                            },
                            _ => {},
                        }
                    },
                    _ => {},
                }
            }
        }
    }
}

/// The passkey is asked for once, with the salt that the master key backup of the first namespace
/// holds and a challenge drawn for it.
pub proof fn law_restore_asks_with_the_salt_of_the_backup(
    steps: RestoreSteps,
    replies: Seq<Reply>,
    at: int,
)
    requires
        RestoreAllFlow::began(steps[0]),
        is_conversation(steps, replies),
        0 <= at < steps.len(),
    ensures
        steps[at] matches Progress::Ask { request: Request::DiscoverAndAuthenticate { .. }, .. }
            ==> {
            &&& at == 4
            &&& replies[0] matches Reply::Listed(Ok(namespaces))
            &&& replies[1] matches Reply::Downloaded(Ok(first_json))
            &&& replies[2] matches Reply::MasterKeyBackup(Ok(first))
            &&& replies[3] matches Reply::Challenge(drawn)
            &&& asks_for_passkey(namespaces, first_json, first, drawn, steps, replies)
        },
{
    lemma_restore_begins(steps, replies, at);
    if at > 0 {
        assert(continues(steps[at - 1], replies[at - 1], steps[at]));
        lemma_challenge_is_early(steps, replies, at - 1);
    }
}

proof fn lemma_challenge_is_early(steps: RestoreSteps, replies: Seq<Reply>, at: int)
    requires
        RestoreAllFlow::began(steps[0]),
        is_conversation(steps, replies),
        0 <= at < steps.len(),
    ensures
        steps[at] matches Progress::Ask { flow, .. } ==> match flow {
            RestoreAllFlow::Namespaces => at == 0,
            RestoreAllFlow::FirstDownload { .. } => at == 1,
            RestoreAllFlow::FirstParse { .. } => at == 2,
            RestoreAllFlow::Challenge { .. } => at == 3,
            RestoreAllFlow::Discovery { .. } => at == 4,
            _ => at > 4,
        },
    decreases at,
{
    if at > 0 {
        lemma_challenge_is_early(steps, replies, at - 1);
        assert(continues(steps[at - 1], replies[at - 1], steps[at]));
    }
}

/// A restore that ends because the passkey opens nothing has tried every namespace that the cloud
/// listed, with the output of the passkey that the user picked, and none of them opened.
pub proof fn law_passkey_is_unfit_only_if_no_namespace_opens(
    steps: RestoreSteps,
    replies: Seq<Reply>,
    discovered: DiscoveredPasskey,
)
    requires
        RestoreAllFlow::began(steps[0]),
        is_conversation(steps, replies),
        steps.last() matches Progress::Done { value: Err(CloudBackupError::PasskeyMismatch), .. },
        replies.len() > 4 && replies[4] == Reply::Discovered(Ok(discovered)),
    ensures
        replies[0] matches Reply::Listed(Ok(namespaces)) && (replies[1] matches Reply::Downloaded(
            Ok(first_json),
        ) && none_opened(
            namespaces@,
            namespaces@.len() as int,
            first_json@,
            discovered.prf_output@,
            steps,
            replies,
            steps.len() - 1,
        )),
{
    let end = steps.len() - 1;
    lemma_restore_begins(steps, replies, end);
    assert(continues(steps[4], replies[4], steps[5]));
    if let (
        Reply::Listed(Ok(namespaces)),
        Reply::Downloaded(Ok(first_json)),
        Reply::MasterKeyBackup(Ok(first)),
    ) = (replies[0], replies[1], replies[2]) {
        if discovered.prf_output@.len() == 32 {
            lemma_search_steps(namespaces, first_json, first, discovered, steps, replies, end);
            if exists|opened: int, found: FoundBackup|
                opened < end && #[trigger] is_found_at(
                    namespaces,
                    first_json,
                    first.prf_salt,
                    discovered,
                    found,
                    steps,
                    replies,
                    opened,
                ) {
                let (opened, found) = choose|opened: int, found: FoundBackup|
                    opened < end && #[trigger] is_found_at(
                        namespaces,
                        first_json,
                        first.prf_salt,
                        discovered,
                        found,
                        steps,
                        replies,
                        opened,
                    );
                lemma_stages(found, opened, steps, replies, end);
            }
        } else {
            lemma_stop_is_last(steps, replies, 5);
        }
    }
}

/// How many of the `count` wallets whose results come from the reply at `from` on were restored.
pub open spec fn restored_among(replies: Seq<Reply>, from: int, count: int) -> int
    decreases count,
{
    if count <= 0 {
        0
    } else {
        restored_among(replies, from, count - 1) + match replies[from + count - 1] {
            Reply::Returned(Outcome::WalletRestored(restored)) => if restored.result is Ok {
                1int
            } else {
                0
            },
            _ => 0,
        }
    }
}

/// The messages of those that failed, in order.
pub open spec fn errors_among(replies: Seq<Reply>, from: int, count: int) -> Seq<Seq<char>>
    decreases count,
{
    if count <= 0 {
        Seq::empty()
    } else {
        let before = errors_among(replies, from, count - 1);
        match replies[from + count - 1] {
            Reply::Returned(Outcome::WalletRestored(restored)) => match restored.result {
                Ok(_) => before,
                Err(error) => before.push(error@.message()),
            },
            _ => before,
        }
    }
}

/// Whether a report is about the `count` wallets whose results come from the reply at `from` on:
/// how many came back, how many did not, and why not.
pub open spec fn reports(
    report: CloudBackupRestoreReport,
    replies: Seq<Reply>,
    from: int,
    count: int,
) -> bool {
    &&& report.wallets_restored == restored_among(replies, from, count)
    &&& report.wallets_failed == count - restored_among(replies, from, count)
    &&& texts(report.failed_wallet_errors@) =~= errors_among(replies, from, count)
}

/// Whether the device turned out to have no master key of its own, after the backup was opened at
/// the step `opened`.
pub open spec fn on_fresh_device(replies: Seq<Reply>, opened: int) -> bool {
    replies[opened + 1] matches Reply::StoredMasterKey(Ok(None))
}

/// The step at which the wallets are listed, after the backup was opened at the step `opened`.
pub open spec fn listing_step(replies: Seq<Reply>, opened: int) -> int {
    if on_fresh_device(replies, opened) {
        opened + 3
    } else {
        opened + 2
    }
}

/// Whether `known` are the wallets that were known before the one at `i` of those listed at
/// `listing`.
pub open spec fn is_known_before(
    known: Vec<KnownWallet>,
    replies: Seq<Reply>,
    listing: int,
    i: int,
) -> bool {
    if i == 0 {
        replies[listing + 1] == Reply::KnownWallets(Ok(known))
    } else {
        replies[listing + 1 + i] matches Reply::Returned(Outcome::WalletRestored(restored)) && known
            == restored.known
    }
}

/// Whether the wallet under the record at `i` of those listed is restored in its turn: from the
/// namespace and with the master key that were found, beside the wallets that are known by then.
pub open spec fn restores_record(
    namespace: String,
    key: MasterKey,
    record_ids: Seq<String>,
    steps: RestoreSteps,
    replies: Seq<Reply>,
    listing: int,
    i: int,
) -> bool {
    &&& steps[listing + 2 + i] matches Progress::Ask {
        request: Request::Call(
            Operation::RestoreWallet { namespace: source, record_id, key: opening, known },
        ),
        ..
    }
    &&& source == namespace
    &&& record_id == record_ids[i]
    &&& opening == key
    &&& is_known_before(known, replies, listing, i)
    &&& replies[listing + 2 + i] matches Reply::Returned(Outcome::WalletRestored(_))
}

/// What the user is told of the progress once `done` of `total` wallets were tried.
pub open spec fn tells_progress(done: int, total: int) -> Seq<Effect> {
    if done == 0 {
        Seq::empty()
    } else {
        seq![
            Effect::Notify(
                CloudBackupReconcileMessage::ProgressUpdated {
                    completed: done as u32,
                    total: total as u32,
                },
            ),
        ]
    }
}

/// What a step of a restore is after the wallets were tried; `ended` is the step that follows the
/// last wallet.
spec fn is_closing(
    found: FoundBackup,
    step: Attempt<RestoreAllFlow, ()>,
    replies: Seq<Reply>,
    first: int,
    count: int,
    ended: int,
    at: int,
) -> bool {
    let clock = if found.is_fresh_device {
        ended + 3
    } else {
        ended
    };
    match step {
        Progress::Ask { flow, effects, request } => {
            &&& !(restored_among(replies, first, count) == 0 && count > 0)
            &&& effects@ == if at == ended {
                tells_progress(count, count)
            } else {
                Seq::empty()
            }
            &&& ended < at <= clock ==> (replies[at - 1] matches Reply::Written(Ok(_)))
            &&& match flow {
                RestoreAllFlow::SaveNamespace { found: source, report } => {
                    &&& at == ended
                    &&& found.is_fresh_device
                    &&& source == found
                    &&& reports(report, replies, first, count)
                    &&& request == Request::SaveKeychain {
                        key: KeychainKey::NamespaceId,
                        value: found.namespace,
                    }
                },
                RestoreAllFlow::SaveCredential { prf_salt, report } => {
                    &&& at == ended + 1
                    &&& found.is_fresh_device
                    &&& prf_salt == found.prf_salt
                    &&& reports(report, replies, first, count)
                    &&& request matches Request::SaveKeychain { key, value }
                    &&& key is CredentialId
                    &&& value@ == hex_text(found.credential_id@)
                },
                RestoreAllFlow::SaveSalt { report } => {
                    &&& at == ended + 2
                    &&& found.is_fresh_device
                    &&& reports(report, replies, first, count)
                    &&& request matches Request::SaveKeychain { key, value }
                    &&& key is PrfSalt
                    &&& value@ == hex_text(found.prf_salt@)
                },
                RestoreAllFlow::Clock { report } => {
                    &&& at == clock
                    &&& reports(report, replies, first, count)
                    &&& request is ReadClock
                },
                RestoreAllFlow::Persist { report } => {
                    &&& at == clock + 1
                    &&& reports(report, replies, first, count)
                    &&& replies[clock] matches Reply::Time(now)
                    &&& request == Request::SaveCloudBackup(
                        CloudBackup::Enabled {
                            last_sync: Some(now),
                            wallet_count: Some(report.wallets_restored),
                        },
                    )
                },
                _ => false,
            }
        },
        Progress::Done { effects, value: Ok(_) } => {
            &&& !(restored_among(replies, first, count) == 0 && count > 0)
            &&& at == clock + 2
            &&& replies[at - 1] matches Reply::Written(Ok(_))
            &&& effects@.len() == 2
            &&& effects@[0] matches Effect::Notify(
                CloudBackupReconcileMessage::RestoreComplete(report),
            )
            &&& reports(report, replies, first, count)
            &&& effects@[1] == Effect::Notify(
                CloudBackupReconcileMessage::StatusChanged(CloudBackupStatus::Enabled),
            )
        },
        Progress::Done { effects, value: Err(error) } => {
            ||| {
                &&& at == ended
                &&& count > 0
                &&& restored_among(replies, first, count) == 0
                &&& effects@.len() == 2
                &&& effects@[0] == tells_progress(count, count)[0]
                &&& effects@[1] matches Effect::Notify(
                    CloudBackupReconcileMessage::RestoreComplete(report),
                )
                &&& reports(report, replies, first, count)
                &&& error matches CloudBackupError::Internal(text)
                &&& text@ == "all wallets failed to restore"@
            }
            ||| {
                &&& effects@.len() == 0
                &&& replies[at - 1] matches Reply::Written(Err(_))
                &&& error is Internal
            }
        },
        Progress::Refused { .. } => true,
    }
}

/// What a step of a restore is, after the backup was opened at the step `opened`.
spec fn is_stage(
    found: FoundBackup,
    opened: int,
    steps: RestoreSteps,
    replies: Seq<Reply>,
    at: int,
) -> bool {
    let fresh = on_fresh_device(replies, opened);
    let backup = FoundBackup { is_fresh_device: fresh, ..found };
    let listing = listing_step(replies, opened);
    if at == opened + 1 {
        steps[at] matches Progress::Ask { flow, request, .. } && flow
            == (RestoreAllFlow::LocalKey { found }) && request is LoadMasterKey
    } else {
        match steps[at] {
            Progress::Ask { flow, effects, request } => if at < listing {
                &&& flow == (RestoreAllFlow::SaveKey { found: backup })
                &&& request == Request::SaveMasterKey(found.key)
                &&& effects@.len() == 0
            } else if at == listing {
                &&& flow == (RestoreAllFlow::List { found: backup })
                &&& request == Request::ListWalletBackups { namespace: found.namespace }
                &&& fresh ==> (replies[opened + 2] matches Reply::Written(Ok(_)))
                &&& effects@ == if fresh {
                    seq![Effect::ResetMasterKeyCache]
                } else {
                    Seq::empty()
                }
            } else {
                &&& replies[listing] matches Reply::Listed(Ok(record_ids))
                &&& record_ids@.len() <= u32::MAX
                &&& if at == listing + 1 {
                    &&& flow == (RestoreAllFlow::Known { found: backup, record_ids })
                    &&& request is ReadKnownWallets
                    &&& effects@.len() == 0
                } else if at < listing + 2 + record_ids@.len() {
                    &&& flow matches RestoreAllFlow::Wallet {
                        found: source,
                        record_ids: all,
                        index,
                        report,
                    }
                    &&& source == backup
                    &&& all == record_ids
                    &&& index == at - listing - 2
                    &&& reports(report, replies, listing + 2, index as int)
                    &&& request matches Request::Call(
                        Operation::RestoreWallet { namespace, record_id, key, known },
                    )
                    &&& namespace == found.namespace
                    &&& record_id == record_ids@[index as int]
                    &&& key == found.key
                    &&& is_known_before(known, replies, listing, index as int)
                    &&& effects@ == tells_progress(index as int, record_ids@.len() as int)
                } else {
                    is_closing(
                        backup,
                        steps[at],
                        replies,
                        listing + 2,
                        record_ids@.len() as int,
                        listing + 2 + record_ids@.len(),
                        at,
                    )
                }
            },
            Progress::Done { effects, value } => if value is Ok || effects@.len() > 0 {
                &&& at >= listing + 2
                &&& replies[listing] matches Reply::Listed(Ok(record_ids))
                &&& record_ids@.len() <= u32::MAX
                &&& is_closing(
                    backup,
                    steps[at],
                    replies,
                    listing + 2,
                    record_ids@.len() as int,
                    listing + 2 + record_ids@.len(),
                    at,
                )
            } else {
                value matches Err(error) && match replies[at - 1] {
                    Reply::StoredMasterKey(Err(why)) => error matches CloudBackupError::Internal(
                        text,
                    ) && text@ == "load local master key"@ + ": "@ + why@,
                    Reply::Written(Err(_)) => error is Internal,
                    Reply::Listed(Err(why)) => error matches CloudBackupError::Cloud(text) && text@
                        == why.text()@,
                    Reply::KnownWallets(Err(why)) => error matches CloudBackupError::Internal(text)
                        && text@ == "collect fingerprints"@ + ": "@ + why@,
                    _ => false,
                }
            },
            Progress::Refused { .. } => true,
        }
    }
}

proof fn lemma_restored_among(replies: Seq<Reply>, from: int, count: int)
    requires
        0 <= count,
    ensures
        0 <= restored_among(replies, from, count) <= count,
    decreases count,
{
    if count > 0 {
        lemma_restored_among(replies, from, count - 1);
    }
}

proof fn lemma_stages(
    found: FoundBackup,
    opened: int,
    steps: RestoreSteps,
    replies: Seq<Reply>,
    at: int,
)
    requires
        is_conversation(steps, replies),
        0 <= opened < at < steps.len(),
        !found.is_fresh_device,
        steps[opened + 1] matches Progress::Ask { flow, request, .. } && flow
            == (RestoreAllFlow::LocalKey { found }) && request is LoadMasterKey,
    ensures
        is_stage(found, opened, steps, replies, at),
    decreases at,
{
    if at > opened + 1 {
        lemma_stages(found, opened, steps, replies, at - 1);
        assert(continues(steps[at - 1], replies[at - 1], steps[at]));
        let listing = listing_step(replies, opened);
        if let Reply::Listed(Ok(record_ids)) = replies[listing] {
            let count = record_ids@.len() as int;
            lemma_restored_among(replies, listing + 2, count);
            if listing + 1 < at {
                lemma_restored_among(replies, listing + 2, at - listing - 2);
            }
        }
    }
}

/// Whether a restore keeps what it found on a device without a master key of its own: the
/// namespace, the credential and the salt, from the step `ended` on.
pub open spec fn keeps_what_was_found(
    namespace: String,
    prf_salt: [u8; 32],
    credential_id: Seq<u8>,
    steps: RestoreSteps,
    ended: int,
) -> bool {
    &&& steps[ended].requests(
        Request::SaveKeychain { key: KeychainKey::NamespaceId, value: namespace },
    )
    &&& steps[ended + 1] matches Progress::Ask {
        request: Request::SaveKeychain { key: entry, value },
        ..
    } && entry is CredentialId && value@ == hex_text(credential_id)
    &&& steps[ended + 2] matches Progress::Ask {
        request: Request::SaveKeychain { key: entry, value },
        ..
    } && entry is PrfSalt && value@ == hex_text(prf_salt@)
}

/// Whether a restore records, from the step `clock` on, that the backup is on, with the time and
/// the number of wallets that came back, and ends there.
pub open spec fn records_restore(
    restored: int,
    steps: RestoreSteps,
    replies: Seq<Reply>,
    clock: int,
) -> bool {
    &&& steps[clock].requests(Request::ReadClock)
    &&& replies[clock] matches Reply::Time(now)
    &&& steps[clock + 1] matches Progress::Ask { request: Request::SaveCloudBackup(record), .. }
    &&& record matches CloudBackup::Enabled { last_sync, wallet_count }
    &&& last_sync == Some(now)
    &&& wallet_count matches Some(count)
    &&& count == restored
    &&& replies.len() == clock + 2
    &&& replies[clock + 1] matches Reply::Written(Ok(_))
}

/// The step at which the clock is read, if `count` wallets were listed.
pub open spec fn clock_step(replies: Seq<Reply>, opened: int, count: int) -> int {
    let ended = listing_step(replies, opened) + 2 + count;
    if on_fresh_device(replies, opened) {
        ended + 3
    } else {
        ended
    }
}

/// Whether a device without a master key gets the one that was opened at the step `opened`, and any
/// other device keeps its own.
pub open spec fn gives_key(
    key: MasterKey,
    steps: RestoreSteps,
    replies: Seq<Reply>,
    opened: int,
) -> bool {
    &&& steps[opened + 1].requests(Request::LoadMasterKey)
    &&& replies[opened + 1] matches Reply::StoredMasterKey(Ok(_))
    &&& on_fresh_device(replies, opened) ==> {
        &&& steps[opened + 2].requests(Request::SaveMasterKey(key))
        &&& replies[opened + 2] matches Reply::Written(Ok(_))
    }
}

/// Whether a restore goes from the backup that was opened at the step `opened` to its end: a device
/// without a master key gets the one that was opened; every wallet that the cloud lists in that
/// backup's namespace is restored in its turn; such a device is then given the namespace, the
/// credential and the salt; and the restore is recorded.
pub open spec fn restores_from(
    namespace: String,
    key: MasterKey,
    prf_salt: [u8; 32],
    credential_id: Seq<u8>,
    steps: RestoreSteps,
    replies: Seq<Reply>,
    opened: int,
) -> bool {
    let listing = listing_step(replies, opened);
    &&& gives_key(key, steps, replies, opened)
    &&& steps[listing].requests(Request::ListWalletBackups { namespace })
    &&& replies[listing] matches Reply::Listed(Ok(record_ids))
    &&& steps[listing + 1].requests(Request::ReadKnownWallets)
    &&& forall|i: int|
        0 <= i < record_ids@.len() ==> #[trigger] restores_record(
            namespace,
            key,
            record_ids@,
            steps,
            replies,
            listing,
            i,
        )
    &&& record_ids@.len() > 0 ==> restored_among(
        replies,
        listing + 2,
        record_ids@.len() as int,
    ) > 0
    &&& on_fresh_device(replies, opened) ==> keeps_what_was_found(
        namespace,
        prf_salt,
        credential_id,
        steps,
        listing + 2 + record_ids@.len(),
    )
    &&& records_restore(
        restored_among(replies, listing + 2, record_ids@.len() as int),
        steps,
        replies,
        clock_step(replies, opened, record_ids@.len() as int),
    )
}

/// A restore that succeeds has found the first namespace whose master key the passkey opens, asked
/// with the salt of the first namespace's backup, and restored from there.
pub proof fn law_restore_restores_the_backup_that_opens(steps: RestoreSteps, replies: Seq<Reply>)
    requires
        RestoreAllFlow::began(steps[0]),
        is_conversation(steps, replies),
        steps.last() matches Progress::Done { value: Ok(_), .. },
    ensures
        replies.len() > 5,
        replies[0] matches Reply::Listed(Ok(namespaces)) && (replies[1] matches Reply::Downloaded(
            Ok(first_json),
        ) && (replies[2] matches Reply::MasterKeyBackup(Ok(first)) && (
        replies[3] matches Reply::Challenge(drawn) && (replies[4] matches Reply::Discovered(
            Ok(discovered),
        ) && {
            &&& asks_for_passkey(namespaces, first_json, first, drawn, steps, replies)
            &&& discovered.prf_output@.len() == 32
            &&& exists|opened: int, r: int, key: MasterKey|
                {
                    &&& #[trigger] opened_first(
                        namespaces@,
                        r,
                        first_json@,
                        discovered.prf_output@,
                        key,
                        steps,
                        replies,
                        opened,
                    )
                    &&& restores_from(
                        namespaces@[r],
                        key,
                        first.prf_salt,
                        discovered.credential_id@,
                        steps,
                        replies,
                        opened,
                    )
                }
        })))),
{
    let end = steps.len() - 1;
    assert(continues(steps[0], replies[0], steps[1]));
    assert(continues(steps[1], replies[1], steps[2]));
    assert(continues(steps[2], replies[2], steps[3]));
    assert(continues(steps[3], replies[3], steps[4]));
    assert(continues(steps[4], replies[4], steps[5]));
    lemma_restore_begins(steps, replies, end);
    if let (
        Reply::Listed(Ok(namespaces)),
        Reply::Downloaded(Ok(first_json)),
        Reply::MasterKeyBackup(Ok(first)),
    ) = (replies[0], replies[1], replies[2]) {
        if let Reply::Discovered(Ok(discovered)) = replies[4] {
            if discovered.prf_output@.len() != 32 {
                lemma_stop_is_last(steps, replies, 5);
            }
            lemma_search_steps(namespaces, first_json, first, discovered, steps, replies, end);
            let (opened, found) = choose|opened: int, found: FoundBackup|
                opened < end && #[trigger] is_found_at(
                    namespaces,
                    first_json,
                    first.prf_salt,
                    discovered,
                    found,
                    steps,
                    replies,
                    opened,
                );
            let r = choose|r: int| #[trigger]
                opened_first(
                    namespaces@,
                    r,
                    first_json@,
                    discovered.prf_output@,
                    found.key,
                    steps,
                    replies,
                    opened,
                ) && found.namespace == namespaces@[r];
            lemma_restores_from(found, opened, steps, replies);
            assert(opened_first(
                namespaces@,
                r,
                first_json@,
                discovered.prf_output@,
                found.key,
                steps,
                replies,
                opened,
            ));
        } else if !(steps[5] is Ask) {
            lemma_stop_is_last(steps, replies, 5);
        }
    }
}

proof fn lemma_restore_lists(
    found: FoundBackup,
    opened: int,
    steps: RestoreSteps,
    replies: Seq<Reply>,
)
    requires
        is_conversation(steps, replies),
        0 <= opened,
        opened + 1 < steps.len(),
        !found.is_fresh_device,
        steps[opened + 1] matches Progress::Ask { flow, request, .. } && flow
            == (RestoreAllFlow::LocalKey { found }) && request is LoadMasterKey,
        steps.last() matches Progress::Done { value: Ok(_), .. },
    ensures
        ({
            let listing = listing_step(replies, opened);
            &&& gives_key(found.key, steps, replies, opened)
            &&& steps[listing].requests(Request::ListWalletBackups { namespace: found.namespace })
            &&& steps[listing + 1].requests(Request::ReadKnownWallets)
            &&& replies[listing] matches Reply::Listed(Ok(record_ids))
            &&& record_ids@.len() <= u32::MAX
            &&& replies.len() == clock_step(replies, opened, record_ids@.len() as int) + 2
            &&& replies[replies.len() - 1] matches Reply::Written(Ok(_))
            &&& record_ids@.len() > 0 ==> restored_among(
                replies,
                listing + 2,
                record_ids@.len() as int,
            ) > 0
        }),
{
    let end = steps.len() - 1;
    let listing = listing_step(replies, opened);
    assert(continues(steps[opened + 1], replies[opened + 1], steps[opened + 2]));
    lemma_stages(found, opened, steps, replies, end);
    lemma_stages(found, opened, steps, replies, listing);
    assert(continues(steps[listing], replies[listing], steps[listing + 1]));
    if on_fresh_device(replies, opened) {
        lemma_stages(found, opened, steps, replies, opened + 2);
    }
    assert(continues(steps[listing + 1], replies[listing + 1], steps[listing + 2]));
    lemma_stages(found, opened, steps, replies, listing + 1);
    if let Reply::Listed(Ok(record_ids)) = replies[listing] {
        lemma_restored_among(replies, listing + 2, record_ids@.len() as int);
    }
}

proof fn lemma_restores_record(
    found: FoundBackup,
    opened: int,
    steps: RestoreSteps,
    replies: Seq<Reply>,
    record_ids: Vec<String>,
    i: int,
)
    requires
        is_conversation(steps, replies),
        0 <= opened,
        opened + 1 < steps.len(),
        !found.is_fresh_device,
        steps[opened + 1] matches Progress::Ask { flow, request, .. } && flow
            == (RestoreAllFlow::LocalKey { found }) && request is LoadMasterKey,
        steps.last() matches Progress::Done { value: Ok(_), .. },
        replies[listing_step(replies, opened)] == Reply::Listed(Ok(record_ids)),
        0 <= i < record_ids@.len(),
    ensures
        restores_record(
            found.namespace,
            found.key,
            record_ids@,
            steps,
            replies,
            listing_step(replies, opened),
            i,
        ),
{
    lemma_restore_lists(found, opened, steps, replies);
    let at = listing_step(replies, opened) + 2 + i;
    lemma_stages(found, opened, steps, replies, at);
    assert(continues(steps[at], replies[at], steps[at + 1]));
    if !(steps[at + 1] is Ask) {
        lemma_stop_is_last(steps, replies, at + 1);
    }
}

proof fn lemma_restore_closes(
    found: FoundBackup,
    opened: int,
    steps: RestoreSteps,
    replies: Seq<Reply>,
    record_ids: Vec<String>,
    at: int,
)
    requires
        is_conversation(steps, replies),
        0 <= opened,
        opened + 1 < steps.len(),
        !found.is_fresh_device,
        steps[opened + 1] matches Progress::Ask { flow, request, .. } && flow
            == (RestoreAllFlow::LocalKey { found }) && request is LoadMasterKey,
        steps.last() matches Progress::Done { value: Ok(_), .. },
        replies[listing_step(replies, opened)] == Reply::Listed(Ok(record_ids)),
        listing_step(replies, opened) + 2 + record_ids@.len() <= at < steps.len(),
    ensures
        is_closing(
            FoundBackup { is_fresh_device: on_fresh_device(replies, opened), ..found },
            steps[at],
            replies,
            listing_step(replies, opened) + 2,
            record_ids@.len() as int,
            listing_step(replies, opened) + 2 + record_ids@.len(),
            at,
        ),
        at < replies.len() ==> steps[at] is Ask,
{
    lemma_restore_lists(found, opened, steps, replies);
    lemma_stages(found, opened, steps, replies, at);
    if at < replies.len() {
        assert(continues(steps[at], replies[at], steps[at + 1]));
    }
}

proof fn lemma_restore_keeps(
    found: FoundBackup,
    opened: int,
    steps: RestoreSteps,
    replies: Seq<Reply>,
    record_ids: Vec<String>,
)
    requires
        is_conversation(steps, replies),
        0 <= opened,
        opened + 1 < steps.len(),
        !found.is_fresh_device,
        steps[opened + 1] matches Progress::Ask { flow, request, .. } && flow
            == (RestoreAllFlow::LocalKey { found }) && request is LoadMasterKey,
        steps.last() matches Progress::Done { value: Ok(_), .. },
        replies[listing_step(replies, opened)] == Reply::Listed(Ok(record_ids)),
    ensures
        on_fresh_device(replies, opened) ==> keeps_what_was_found(
            found.namespace,
            found.prf_salt,
            found.credential_id@,
            steps,
            listing_step(replies, opened) + 2 + record_ids@.len(),
        ),
{
    lemma_restore_lists(found, opened, steps, replies);
    let ended = listing_step(replies, opened) + 2 + record_ids@.len();
    if on_fresh_device(replies, opened) {
        lemma_restore_closes(found, opened, steps, replies, record_ids, ended);
        lemma_restore_closes(found, opened, steps, replies, record_ids, ended + 1);
        lemma_restore_closes(found, opened, steps, replies, record_ids, ended + 2);
    }
}

proof fn lemma_restore_records(
    found: FoundBackup,
    opened: int,
    steps: RestoreSteps,
    replies: Seq<Reply>,
    record_ids: Vec<String>,
)
    requires
        is_conversation(steps, replies),
        0 <= opened,
        opened + 1 < steps.len(),
        !found.is_fresh_device,
        steps[opened + 1] matches Progress::Ask { flow, request, .. } && flow
            == (RestoreAllFlow::LocalKey { found }) && request is LoadMasterKey,
        steps.last() matches Progress::Done { value: Ok(_), .. },
        replies[listing_step(replies, opened)] == Reply::Listed(Ok(record_ids)),
    ensures
        records_restore(
            restored_among(
                replies,
                listing_step(replies, opened) + 2,
                record_ids@.len() as int,
            ),
            steps,
            replies,
            clock_step(replies, opened, record_ids@.len() as int),
        ),
{
    lemma_restore_lists(found, opened, steps, replies);
    let clock = clock_step(replies, opened, record_ids@.len() as int);
    lemma_restore_closes(found, opened, steps, replies, record_ids, clock);
    lemma_restore_closes(found, opened, steps, replies, record_ids, clock + 1);
}

proof fn lemma_restores_from(
    found: FoundBackup,
    opened: int,
    steps: RestoreSteps,
    replies: Seq<Reply>,
)
    requires
        is_conversation(steps, replies),
        0 <= opened,
        opened + 1 < steps.len(),
        !found.is_fresh_device,
        steps[opened + 1] matches Progress::Ask { flow, request, .. } && flow
            == (RestoreAllFlow::LocalKey { found }) && request is LoadMasterKey,
        steps.last() matches Progress::Done { value: Ok(_), .. },
    ensures
        restores_from(
            found.namespace,
            found.key,
            found.prf_salt,
            found.credential_id@,
            steps,
            replies,
            opened,
        ),
{
    let listing = listing_step(replies, opened);
    lemma_restore_lists(found, opened, steps, replies);
    if let Reply::Listed(Ok(record_ids)) = replies[listing] {
        assert forall|i: int| 0 <= i < record_ids@.len() implies #[trigger] restores_record(
            found.namespace,
            found.key,
            record_ids@,
            steps,
            replies,
            listing,
            i,
        ) by {
            lemma_restores_record(found, opened, steps, replies, record_ids, i);
        }
        lemma_restore_keeps(found, opened, steps, replies, record_ids);
        lemma_restore_records(found, opened, steps, replies, record_ids);
    }
}

/// What the user is told of a restore: that it runs, before anything is asked for; after each
/// wallet how many were tried; and in the end, if some wallet came back or there was none, the
/// report and that the backup is on. If none came back of some, the report is given with the
/// failure.
pub proof fn law_restore_tells_its_progress(
    steps: RestoreSteps,
    replies: Seq<Reply>,
    opened: int,
    at: int,
)
    requires
        RestoreAllFlow::began(steps[0]),
        is_conversation(steps, replies),
        0 <= opened < replies.len(),
        steps[opened + 1].requests(Request::LoadMasterKey),
        opened < at < steps.len(),
        listing_step(replies, opened) + 2 <= at,
    ensures
        steps[0] matches Progress::Ask { effects, .. } && effects@ == seq![
            Effect::Notify(
                CloudBackupReconcileMessage::StatusChanged(CloudBackupStatus::Restoring),
            ),
        ],
        !(steps[at] is Refused) ==> ({
            let listing = listing_step(replies, opened);
            let first = listing + 2;
            match steps[at] {
                Progress::Ask { effects, .. } => replies[listing] matches Reply::Listed(
                    Ok(record_ids),
                ) && effects@ == if at <= first + record_ids@.len() {
                    tells_progress(at - first, record_ids@.len() as int)
                } else {
                    Seq::empty()
                },
                Progress::Done { effects, value: Ok(_) } => replies[listing] matches Reply::Listed(
                    Ok(record_ids),
                ) && {
                    &&& effects@.len() == 2
                    &&& effects@[0] matches Effect::Notify(
                        CloudBackupReconcileMessage::RestoreComplete(report),
                    )
                    &&& reports(report, replies, first, record_ids@.len() as int)
                    &&& effects@[1] == Effect::Notify(
                        CloudBackupReconcileMessage::StatusChanged(CloudBackupStatus::Enabled),
                    )
                },
                Progress::Done { effects, value: Err(error) } => effects@.len() > 0 ==> (
                replies[listing] matches Reply::Listed(Ok(record_ids)) && {
                    &&& restored_among(replies, first, record_ids@.len() as int) == 0
                    &&& effects@.len() == 2
                    &&& effects@[1] matches Effect::Notify(
                        CloudBackupReconcileMessage::RestoreComplete(report),
                    )
                    &&& reports(report, replies, first, record_ids@.len() as int)
                    &&& error matches CloudBackupError::Internal(text)
                    &&& text@ == "all wallets failed to restore"@
                }),
                Progress::Refused { .. } => true,
            }
        }),
{
    lemma_loads_key_when_found(steps, replies, opened + 1);
    if let Progress::Ask { flow: RestoreAllFlow::LocalKey { found }, .. } = steps[opened + 1] {
        lemma_stages(found, opened, steps, replies, at);
    }
}

proof fn lemma_loads_key_when_found(steps: RestoreSteps, replies: Seq<Reply>, at: int)
    requires
        RestoreAllFlow::began(steps[0]),
        is_conversation(steps, replies),
        0 <= at < steps.len(),
        steps[at].requests(Request::LoadMasterKey),
    ensures
        steps[at] matches Progress::Ask { flow: RestoreAllFlow::LocalKey { found }, .. }
            && !found.is_fresh_device,
{
    if at > 0 {
        assert(continues(steps[at - 1], replies[at - 1], steps[at]));
    }
}

/// A restore that fails before the wallets are tried says what failed.
pub proof fn law_failed_restore_says_why(
    steps: RestoreSteps,
    replies: Seq<Reply>,
    effects: Vec<Effect>,
    error: CloudBackupError,
)
    requires
        RestoreAllFlow::began(steps[0]),
        is_conversation(steps, replies),
        steps.last() matches Progress::Done { effects: told, value: Err(given) } && given == error
            && told == effects,
        effects@.len() == 0,
    ensures
        match replies.last() {
            Reply::Listed(Ok(namespaces)) => namespaces@.len() == 0 && (
            error matches CloudBackupError::Internal(text) && text@
                == "no cloud backup namespaces found"@),
            Reply::Listed(Err(why)) => error matches CloudBackupError::Cloud(text) && text@
                == why.text()@,
            Reply::Downloaded(Err(why)) => if replies.len() == 2 {
                error matches CloudBackupError::Cloud(text) && text@ == why.text()@
            } else {
                error is PasskeyMismatch
            },
            Reply::MasterKeyBackup(Ok(backup)) => backup.version != 1 && if replies.len() == 3 {
                error matches CloudBackupError::Internal(text) && text@
                    == "unsupported master key backup version"@ + ": "@ + decimal_text(
                    backup.version as nat,
                )
            } else {
                error is PasskeyMismatch
            },
            Reply::MasterKeyBackup(Err(why)) => if replies.len() == 3 {
                error matches CloudBackupError::Internal(text) && text@ == why@
            } else {
                error is PasskeyMismatch
            },
            Reply::Discovered(Err(failure)) => error matches CloudBackupError::Passkey(text)
                && text@ == failure.message@,
            Reply::Discovered(Ok(discovered)) => discovered.prf_output@.len() != 32 && (
            error matches CloudBackupError::Internal(text) && text@
                == "PRF output is not 32 bytes"@),
            Reply::MasterKey(Err(_)) => error is PasskeyMismatch,
            Reply::StoredMasterKey(Err(why)) => error matches CloudBackupError::Internal(text)
                && text@ == "load local master key"@ + ": "@ + why@,
            Reply::KnownWallets(Err(why)) => error matches CloudBackupError::Internal(text)
                && text@ == "collect fingerprints"@ + ": "@ + why@,
            Reply::Written(Err(why)) => error matches CloudBackupError::Internal(text) && (
            steps[steps.len() - 2] matches Progress::Ask { request, .. } && match request {
                Request::SaveMasterKey(_) => text@ == "save master key"@ + ": "@ + why@,
                Request::SaveKeychain { key: KeychainKey::NamespaceId, .. } => text@
                    == "save namespace_id"@ + ": "@ + why@,
                Request::SaveKeychain { key: KeychainKey::CredentialId, .. } => text@
                    == "save credential_id"@ + ": "@ + why@,
                Request::SaveKeychain { key: KeychainKey::PrfSalt, .. } => text@
                    == "save prf_salt"@ + ": "@ + why@,
                Request::SaveCloudBackup(_) => text@ == "persist cloud backup state"@ + ": "@
                    + why@,
                _ => false,
            }),
            _ => false,
        },
{
    let end = replies.len() - 1;
    assert(continues(steps[end], replies[end], steps[end + 1]));
    lemma_challenge_is_early(steps, replies, end);
    if end > 0 {
        assert(continues(steps[end - 1], replies[end - 1], steps[end]));
    }
}

} // verus!
