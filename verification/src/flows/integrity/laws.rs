//! What the check at launch does, from its first step to its last.

use vstd::prelude::*;

use crate::conversation::{continues, is_conversation, lemma_stop_is_last, Stepwise};
use crate::flows::integrity::{
    issues_text, DowngradeFlow, IntegrityFlow, IntegrityIssue, KeychainFindings, PromoteFlow,
};
use crate::flows::passkey::stored_credential;
use crate::hexcode::is_hex_text;
use crate::protocol::{Effect, KeychainKey, Operation, Outcome, Progress, Reply, Request};
use crate::record::{CloudBackup, IntegrityDowngrade};
use crate::state::{CloudBackupReconcileMessage, CloudBackupStatus};
use crate::text::joined_text;

verus! {

impl Stepwise for IntegrityFlow {
    type Value = Option<String>;

    open spec fn follows(self, reply: Reply, progress: Progress<Self, Option<String>>) -> bool {
        self.next(reply, progress)
    }
}

impl Stepwise for PromoteFlow {
    type Value = ();

    open spec fn follows(self, reply: Reply, progress: Progress<Self, ()>) -> bool {
        self.next(reply, progress)
    }
}

impl Stepwise for DowngradeFlow {
    type Value = ();

    open spec fn follows(self, reply: Reply, progress: Progress<Self, ()>) -> bool {
        self.next(reply, progress)
    }
}

/// Whether a keychain entry spells a credential.
pub open spec fn spells_credential(stored: Option<String>) -> bool {
    stored matches Some(text) && is_hex_text(text@)
}

/// What the user is told of a keychain that is not complete, part by part.
pub open spec fn what_is_missing(
    has_master_key: bool,
    salt: Option<String>,
    credential: Option<String>,
    namespace: Option<String>,
) -> Seq<Seq<char>> {
    let key = if has_master_key {
        Seq::empty()
    } else {
        seq!["master key not found in keychain"@]
    };
    let passkey = if spells_credential(credential) {
        Seq::empty()
    } else {
        seq!["passkey credential not found — open Cloud Backup in Settings to re-verify"@]
    };
    let salted = if salt is Some {
        Seq::empty()
    } else {
        seq!["passkey salt not found — open Cloud Backup in Settings to re-verify"@]
    };
    let named = if namespace is Some {
        Seq::empty()
    } else {
        seq!["namespace_id not found in keychain"@]
    };
    key + passkey + salted + named
}

/// What a check asks of the device, one after the other, before it asks the cloud.
pub open spec fn asks_the_device(
    steps: Seq<Progress<IntegrityFlow, Option<String>>>,
) -> bool {
    &&& steps[0].requests(Request::ReadStatus)
    &&& steps[1].requests(Request::HasMasterKey)
    &&& steps[2].requests(Request::ReadKeychain(KeychainKey::PrfSalt))
    &&& steps[3].requests(Request::ReadKeychain(KeychainKey::CredentialId))
    &&& steps[4].requests(Request::ReadKeychain(KeychainKey::NamespaceId))
}

/// The check of a backup that is on, or whose passkey is missing, reports exactly what is wrong:
/// what the keychain lacks, or else that the cloud has no files, or that it lacks wallets that
/// could not be backed up. It asks the cloud only if the keychain lacks nothing, about the
/// keychain's namespace. The record is lowered if the credential or the salt is missing, left if
/// anything else is wrong, and raised if nothing is. A backup in any other state is not checked.
pub proof fn law_check_reports_exactly_what_is_wrong(
    steps: Seq<Progress<IntegrityFlow, Option<String>>>,
    replies: Seq<Reply>,
    report: Option<String>,
)
    requires
        IntegrityFlow::began(steps[0]),
        is_conversation(steps, replies),
        steps.last() matches Progress::Done { value, .. } && value == report,
    ensures
        replies[0] matches Reply::Status(status) && if status is Enabled
            || status is PasskeyMissing {
            &&& replies.len() >= 6
            &&& asks_the_device(steps)
            &&& replies[1] matches Reply::Flag(has_master_key)
            &&& replies[2] matches Reply::Keychain(salt)
            &&& replies[3] matches Reply::Keychain(credential)
            &&& replies[4] matches Reply::Keychain(stored)
            &&& ({
                let missing = what_is_missing(has_master_key, salt, credential, stored);
                if missing.len() > 0 {
                    &&& replies.len() == 6
                    &&& steps[5].requests(
                        Request::Call(
                            Operation::PersistDowngrade {
                                downgrade: if spells_credential(credential) && salt is Some {
                                    None
                                } else {
                                    Some(IntegrityDowngrade::Unverified)
                                },
                            },
                        ),
                    )
                    &&& report matches Some(text) && text@ == joined_text(missing, "; "@)
                } else {
                    &&& stored matches Some(namespace)
                    &&& steps[5].requests(Request::ListWalletBackups { namespace })
                    &&& replies[5] matches Reply::Listed(listed)
                    &&& match listed {
                        Err(error) => if error is NotFound {
                            &&& replies.len() == 7
                            &&& steps[6].requests(
                                Request::Call(Operation::PersistDowngrade { downgrade: None }),
                            )
                            &&& report matches Some(text) && text@
                                == "wallet backups not found in iCloud"@
                        } else {
                            &&& replies.len() == 7
                            &&& steps[6].requests(Request::Call(Operation::PromoteVerified))
                            &&& report is None
                        },
                        Ok(record_ids) => {
                            &&& steps[6].requests(Request::ReadLocalWallets)
                            &&& replies[6] matches Reply::LocalWallets(wallets)
                            &&& if wallets@.len() as u32 <= record_ids@.len() as u32 {
                                &&& replies.len() == 8
                                &&& steps[7].requests(Request::Call(Operation::PromoteVerified))
                                &&& report is None
                            } else {
                                &&& replies.len() == 9
                                &&& steps[7].requests(
                                    Request::Call(Operation::SyncUnsyncedWallets),
                                )
                                &&& replies[7] matches Reply::Returned(Outcome::Finished(synced))
                                &&& match synced {
                                    Ok(_) => steps[8].requests(
                                        Request::Call(Operation::PromoteVerified),
                                    ) && report is None,
                                    Err(_) => steps[8].requests(
                                        Request::Call(
                                            Operation::PersistDowngrade { downgrade: None },
                                        ),
                                    ) && (report matches Some(text) && text@
                                        == "some wallets are not backed up"@),
                                }
                            }
                        },
                    }
                }
            })
        } else {
            replies.len() == 1 && report is None
        },
{
    assert(continues(steps[0], replies[0], steps[1]));
    if steps[1] is Ask {
        assert(continues(steps[1], replies[1], steps[2]));
        assert(continues(steps[2], replies[2], steps[3]));
        assert(continues(steps[3], replies[3], steps[4]));
        assert(continues(steps[4], replies[4], steps[5]));
        assert(continues(steps[5], replies[5], steps[6]));
        if let (
            Reply::Flag(has_master_key),
            Reply::Keychain(salt),
            Reply::Keychain(credential),
            Reply::Keychain(stored),
        ) = (replies[1], replies[2], replies[3], replies[4]) {
            lemma_missing_texts(has_master_key, salt, credential, stored);
        }
        lemma_single_issue(IntegrityIssue::FilesMissing);
        lemma_single_issue(IntegrityIssue::NotBackedUp);
        if steps[6] is Ask {
            assert(continues(steps[6], replies[6], steps[7]));
            if steps[7] is Ask {
                assert(continues(steps[7], replies[7], steps[8]));
                if steps[8] is Ask {
                    assert(continues(steps[8], replies[8], steps[9]));
                    lemma_stop_is_last(steps, replies, 9);
                } else {
                    lemma_stop_is_last(steps, replies, 8);
                }
            } else {
                lemma_stop_is_last(steps, replies, 7);
            }
        } else {
            lemma_stop_is_last(steps, replies, 6);
        }
    } else {
        lemma_stop_is_last(steps, replies, 1);
    }
}

proof fn lemma_single_issue(issue: IntegrityIssue)
    ensures
        issues_text(seq![issue]) == issue.text(),
{
    let issues = seq![issue];
    assert(issues.map_values(
        |issue: IntegrityIssue| issue.text(),
    ) =~= seq![issue.text()]);
}

proof fn lemma_missing_texts(
    has_master_key: bool,
    salt: Option<String>,
    credential: Option<String>,
    namespace: Option<String>,
)
    ensures
        ({
            let findings = KeychainFindings {
                has_master_key,
                has_prf_salt: salt is Some,
                has_credential: stored_credential(credential) is Some,
            };
            let issues = if namespace is None {
                findings.issues().push(IntegrityIssue::NoNamespace)
            } else {
                findings.issues()
            };
            let missing = what_is_missing(has_master_key, salt, credential, namespace);
            &&& issues_text(issues) == joined_text(missing, "; "@)
            &&& issues.len() == missing.len()
        }),
{
    let findings = KeychainFindings {
        has_master_key,
        has_prf_salt: salt is Some,
        has_credential: stored_credential(credential) is Some,
    };
    let issues = if namespace is None {
        findings.issues().push(IntegrityIssue::NoNamespace)
    } else {
        findings.issues()
    };
    assert(issues.map_values(
        |issue: IntegrityIssue| issue.text(),
    ) =~= what_is_missing(has_master_key, salt, credential, namespace));
}

/// A record is raised only from unverified to verified, with its sync time and wallet count, and
/// that is announced once it was written, and only then.
pub proof fn law_promotion_writes_the_verified_record(
    steps: Seq<Progress<PromoteFlow, ()>>,
    replies: Seq<Reply>,
    effects: Vec<Effect>,
)
    requires
        PromoteFlow::began(steps[0]),
        is_conversation(steps, replies),
        steps.last() matches Progress::Done { effects: told, .. } && told == effects,
    ensures
        steps[0].requests(Request::ReadCloudBackup),
        replies[0] matches Reply::CloudBackup(current) && match current {
            CloudBackup::Unverified { last_sync, wallet_count } => {
                &&& replies.len() == 2
                &&& steps[1].requests(
                    Request::SaveCloudBackup(CloudBackup::Enabled { last_sync, wallet_count }),
                )
                &&& replies[1] matches Reply::Written(written)
                &&& effects@ == if written is Ok {
                    seq![
                        Effect::Notify(
                            CloudBackupReconcileMessage::StatusChanged(CloudBackupStatus::Enabled),
                        ),
                    ]
                } else {
                    Seq::empty()
                }
            },
            _ => replies.len() == 1 && effects@.len() == 0,
        },
{
    assert(continues(steps[0], replies[0], steps[1]));
    if steps[1] is Ask {
        assert(continues(steps[1], replies[1], steps[2]));
        lemma_stop_is_last(steps, replies, 2);
    } else {
        lemma_stop_is_last(steps, replies, 1);
    }
}

/// A record is lowered only from verified to unverified, with its sync time and wallet count, and
/// only if a downgrade is asked for; the status is announced once it was written, and only then.
pub proof fn law_downgrade_writes_the_unverified_record(
    downgrade: Option<IntegrityDowngrade>,
    steps: Seq<Progress<DowngradeFlow, ()>>,
    replies: Seq<Reply>,
    effects: Vec<Effect>,
)
    requires
        DowngradeFlow::began(downgrade, steps[0]),
        is_conversation(steps, replies),
        steps.last() matches Progress::Done { effects: told, .. } && told == effects,
    ensures
        downgrade is None ==> replies.len() == 0 && effects@.len() == 0,
        downgrade is Some ==> {
            &&& steps[0].requests(Request::ReadCloudBackup)
            &&& replies[0] matches Reply::CloudBackup(current)
            &&& match current {
                CloudBackup::Enabled { last_sync, wallet_count } => {
                    &&& replies.len() == 2
                    &&& steps[1].requests(
                        Request::SaveCloudBackup(
                            CloudBackup::Unverified { last_sync, wallet_count },
                        ),
                    )
                    &&& replies[1] matches Reply::Written(written)
                    &&& effects@ == if written is Ok {
                        seq![
                            Effect::Notify(
                                CloudBackupReconcileMessage::StatusChanged(
                                    CloudBackupStatus::Enabled,
                                ),
                            ),
                        ]
                    } else {
                        Seq::empty()
                    }
                },
                _ => replies.len() == 1 && effects@.len() == 0,
            }
        },
{
    if downgrade is Some {
        assert(continues(steps[0], replies[0], steps[1]));
        if steps[1] is Ask {
            assert(continues(steps[1], replies[1], steps[2]));
            lemma_stop_is_last(steps, replies, 2);
        } else {
            lemma_stop_is_last(steps, replies, 1);
        }
    } else {
        lemma_stop_is_last(steps, replies, 0);
    }
}

} // verus!
