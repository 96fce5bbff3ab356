//! The health check that runs in the background when the app starts.

pub mod laws;

use vstd::prelude::*;
use vstd::string::*;

use crate::error::CloudStorageError;
use crate::flows::passkey::{load_stored_credential_id, stored_credential};
use crate::protocol::{
    announce, announces, one_effect, Effect, KeychainKey, Operation, Outcome, Progress, Reply,
    Request,
};
use crate::record::{
    downgrade_cloud_backup_state, promote_cloud_backup_state_after_integrity_pass, CloudBackup,
    IntegrityDowngrade,
};
use crate::state::CloudBackupStatus;
use crate::text::{joined_text, owned};
use crate::wallet::count_all_wallets;

verus! {

/// Something that is wrong with the backup.
#[derive(Debug, Clone, Copy, PartialEq, Eq, Structural)]
pub enum IntegrityIssue {
    NoMasterKey,
    NoCredential,
    NoSalt,
    NoNamespace,
    FilesMissing,
    NotBackedUp,
}

impl IntegrityIssue {
    /// What the user is told of the issue.
    pub open spec fn text(self) -> Seq<char> {
        match self {
            IntegrityIssue::NoMasterKey => "master key not found in keychain"@,
            IntegrityIssue::NoCredential =>
                "passkey credential not found — open Cloud Backup in Settings to re-verify"@,
            IntegrityIssue::NoSalt =>
                "passkey salt not found — open Cloud Backup in Settings to re-verify"@,
            IntegrityIssue::NoNamespace => "namespace_id not found in keychain"@,
            IntegrityIssue::FilesMissing => "wallet backups not found in iCloud"@,
            IntegrityIssue::NotBackedUp => "some wallets are not backed up"@,
        }
    }

    /// What the user is told of the issue.
    pub fn get_text(self) -> (text: &'static str)
        ensures
            text@ == self.text(),
    {
        match self {
            IntegrityIssue::NoMasterKey => "master key not found in keychain",
            IntegrityIssue::NoCredential =>
                "passkey credential not found — open Cloud Backup in Settings to re-verify",
            IntegrityIssue::NoSalt =>
                "passkey salt not found — open Cloud Backup in Settings to re-verify",
            IntegrityIssue::NoNamespace => "namespace_id not found in keychain",
            IntegrityIssue::FilesMissing => "wallet backups not found in iCloud",
            IntegrityIssue::NotBackedUp => "some wallets are not backed up",
        }
    }
}

/// What the user is told of several issues.
pub open spec fn issues_text(issues: Seq<IntegrityIssue>) -> Seq<char> {
    joined_text(issues.map_values(|issue: IntegrityIssue| issue.text()), "; "@)
}

/// What the user is told of several issues.
pub fn join_issues(issues: &Vec<IntegrityIssue>) -> (text: String)
    ensures
        text@ == issues_text(issues@),
{
    let ghost pieces = issues@.map_values(|issue: IntegrityIssue| issue.text());
    if issues.is_empty() {
        return String::new();
    }
    let mut text: String = owned(issues[0].get_text());
    let mut i: usize = 1;
    assert(pieces.take(1).len() == 1);
    while i < issues.len()
        invariant
            1 <= i <= issues@.len(),
            pieces == issues@.map_values(|issue: IntegrityIssue| issue.text()),
            text@ == joined_text(pieces.take(i as int), "; "@),
        decreases issues@.len() - i,
    {
        assert(pieces.take(i + 1).drop_last() =~= pieces.take(i as int));
        text = text.concat("; ").concat(issues[i].get_text());
        i += 1;
    }
    assert(pieces.take(i as int) =~= pieces);
    text
}

/// What the keychain holds of the backup.
#[derive(Debug, Clone, Copy, PartialEq, Eq, Structural)]
pub struct KeychainFindings {
    pub has_master_key: bool,
    pub has_prf_salt: bool,
    pub has_credential: bool,
}

impl KeychainFindings {
    /// What is missing.
    pub open spec fn issues(self) -> Seq<IntegrityIssue> {
        let key = if self.has_master_key {
            Seq::empty()
        } else {
            seq![IntegrityIssue::NoMasterKey]
        };
        let credential = if self.has_credential {
            Seq::empty()
        } else {
            seq![IntegrityIssue::NoCredential]
        };
        let salt = if self.has_prf_salt {
            Seq::empty()
        } else {
            seq![IntegrityIssue::NoSalt]
        };
        key + credential + salt
    }

    /// A passkey that is not all there leaves the backup unverified.
    pub open spec fn downgrade(self) -> Option<IntegrityDowngrade> {
        if self.has_credential && self.has_prf_salt {
            None
        } else {
            Some(IntegrityDowngrade::Unverified)
        }
    }

    fn get_issues(self) -> (issues: Vec<IntegrityIssue>)
        ensures
            issues@ == self.issues(),
    {
        let mut issues: Vec<IntegrityIssue> = Vec::new();
        if !self.has_master_key {
            issues.push(IntegrityIssue::NoMasterKey);
        }
        if !self.has_credential {
            issues.push(IntegrityIssue::NoCredential);
        }
        if !self.has_prf_salt {
            issues.push(IntegrityIssue::NoSalt);
        }
        assert(issues@ =~= self.issues());
        issues
    }

    fn get_downgrade(self) -> (downgrade: Option<IntegrityDowngrade>)
        ensures
            downgrade == self.downgrade(),
    {
        if self.has_credential && self.has_prf_salt {
            None
        } else {
            Some(IntegrityDowngrade::Unverified)
        }
    }
}

/// Checks that the keychain is complete, that the cloud has the backup files, and that these are at
/// least as many as the wallets on the device, and lowers or raises the record accordingly. The
/// outcome is what is wrong, if anything is.
pub enum IntegrityFlow {
    Status,
    MasterKey,
    Salt { has_master_key: bool },
    Credential { has_master_key: bool, has_prf_salt: bool },
    Namespace { findings: KeychainFindings },
    Listing,
    Wallets { cloud_count: u32 },
    Sync,
    Promote,
    Downgrade { issues: Vec<IntegrityIssue> },
}

impl IntegrityFlow {
    /// The check passed.
    pub open spec fn passes(progress: Progress<Self, Option<String>>) -> bool {
        progress.asks(IntegrityFlow::Promote, Request::Call(Operation::PromoteVerified))
    }

    /// The check found issues.
    pub open spec fn fails_with(
        issues: Seq<IntegrityIssue>,
        downgrade: Option<IntegrityDowngrade>,
        progress: Progress<Self, Option<String>>,
    ) -> bool {
        &&& progress matches Progress::Ask {
            flow: IntegrityFlow::Downgrade { issues: found },
            effects,
            request,
        }
        &&& found@ == issues
        &&& effects@ == Seq::<Effect>::empty()
        &&& request == Request::Call(Operation::PersistDowngrade { downgrade })
    }

    /// What follows a reply. The cloud is asked only if the keychain is complete. That it has no
    /// backup files is an issue; that it could not be asked is none. Where it lists fewer files
    /// than there are wallets, the missing ones are backed up, and that they could not be is an
    /// issue.
    pub open spec fn next(self, reply: Reply, progress: Progress<Self, Option<String>>) -> bool {
        match (self, reply) {
            (IntegrityFlow::Status, Reply::Status(status)) => if status is Enabled
                || status is PasskeyMissing {
                progress.asks(IntegrityFlow::MasterKey, Request::HasMasterKey)
            } else {
                progress.ends(None)
            },
            (IntegrityFlow::MasterKey, Reply::Flag(has_master_key)) => progress.asks(
                IntegrityFlow::Salt { has_master_key },
                Request::ReadKeychain(KeychainKey::PrfSalt),
            ),
            (IntegrityFlow::Salt { has_master_key }, Reply::Keychain(stored)) => progress.asks(
                IntegrityFlow::Credential { has_master_key, has_prf_salt: stored is Some },
                Request::ReadKeychain(KeychainKey::CredentialId),
            ),
            (
                IntegrityFlow::Credential { has_master_key, has_prf_salt },
                Reply::Keychain(stored),
            ) => progress.asks(
                IntegrityFlow::Namespace {
                    findings: KeychainFindings {
                        has_master_key,
                        has_prf_salt,
                        has_credential: stored_credential(stored) is Some,
                    },
                },
                Request::ReadKeychain(KeychainKey::NamespaceId),
            ),
            (IntegrityFlow::Namespace { findings }, Reply::Keychain(Some(namespace))) =>
                if findings.issues().len() == 0 {
                progress.asks(IntegrityFlow::Listing, Request::ListWalletBackups { namespace })
            } else {
                Self::fails_with(findings.issues(), findings.downgrade(), progress)
            },
            (IntegrityFlow::Namespace { findings }, Reply::Keychain(None)) => Self::fails_with(
                findings.issues().push(IntegrityIssue::NoNamespace),
                findings.downgrade(),
                progress,
            ),
            (IntegrityFlow::Listing, Reply::Listed(Ok(listed))) => progress.asks(
                IntegrityFlow::Wallets { cloud_count: listed.len() as u32 },
                Request::ReadLocalWallets,
            ),
            (IntegrityFlow::Listing, Reply::Listed(Err(CloudStorageError::NotFound(_)))) =>
                Self::fails_with(seq![IntegrityIssue::FilesMissing], None, progress),
            (IntegrityFlow::Listing, Reply::Listed(Err(CloudStorageError::Other(_)))) =>
                Self::passes(progress),
            (IntegrityFlow::Wallets { cloud_count }, Reply::LocalWallets(wallets)) =>
                if wallets.len() as u32 > cloud_count {
                progress.asks(IntegrityFlow::Sync, Request::Call(Operation::SyncUnsyncedWallets))
            } else {
                Self::passes(progress)
            },
            (IntegrityFlow::Sync, Reply::Returned(Outcome::Finished(Ok(_)))) => Self::passes(
                progress,
            ),
            (IntegrityFlow::Sync, Reply::Returned(Outcome::Finished(Err(_)))) => Self::fails_with(
                seq![IntegrityIssue::NotBackedUp],
                None,
                progress,
            ),
            (IntegrityFlow::Promote, Reply::Returned(Outcome::Nothing)) => progress.ends(None),
            (IntegrityFlow::Downgrade { issues }, Reply::Returned(Outcome::Nothing)) => {
                &&& progress matches Progress::Done { effects, value: Some(text) }
                &&& effects@ == Seq::<Effect>::empty()
                &&& text@ == issues_text(issues@)
            },
            _ => progress.refuses(self),
        }
    }

    fn pass() -> (progress: Progress<Self, Option<String>>)
        ensures
            Self::passes(progress),
    {
        Progress::ask(IntegrityFlow::Promote, Request::Call(Operation::PromoteVerified))
    }

    fn fail_with(issues: Vec<IntegrityIssue>, downgrade: Option<IntegrityDowngrade>) -> (progress:
        Progress<Self, Option<String>>)
        ensures
            Self::fails_with(issues@, downgrade, progress),
    {
        Progress::ask(
            IntegrityFlow::Downgrade { issues },
            Request::Call(Operation::PersistDowngrade { downgrade }),
        )
    }

    /// The first step.
    pub open spec fn began(progress: Progress<Self, Option<String>>) -> bool {
        progress.asks(IntegrityFlow::Status, Request::ReadStatus)
    }

    /// Starts with the status.
    pub fn start() -> (progress: Progress<Self, Option<String>>)
        ensures
            Self::began(progress),
    {
        Progress::ask(IntegrityFlow::Status, Request::ReadStatus)
    }

    /// Goes on with a reply.
    pub fn step(self, reply: Reply) -> (progress: Progress<Self, Option<String>>)
        ensures
            self.next(reply, progress),
    {
        match (self, reply) {
            (IntegrityFlow::Status, Reply::Status(status)) => {
                if matches!(
                    status,
                    CloudBackupStatus::Enabled | CloudBackupStatus::PasskeyMissing
                ) {
                    Progress::ask(IntegrityFlow::MasterKey, Request::HasMasterKey)
                } else {
                    Progress::end(None)
                }
            },
            (IntegrityFlow::MasterKey, Reply::Flag(has_master_key)) => Progress::ask(
                IntegrityFlow::Salt { has_master_key },
                Request::ReadKeychain(KeychainKey::PrfSalt),
            ),
            (IntegrityFlow::Salt { has_master_key }, Reply::Keychain(stored)) => Progress::ask(
                IntegrityFlow::Credential { has_master_key, has_prf_salt: stored.is_some() },
                Request::ReadKeychain(KeychainKey::CredentialId),
            ),
            (
                IntegrityFlow::Credential { has_master_key, has_prf_salt },
                Reply::Keychain(stored),
            ) => {
                let has_credential: bool = load_stored_credential_id(stored).is_some();
                Progress::ask(
                    IntegrityFlow::Namespace {
                        findings: KeychainFindings {
                            has_master_key,
                            has_prf_salt,
                            has_credential,
                        },
                    },
                    Request::ReadKeychain(KeychainKey::NamespaceId),
                )
            },
            (IntegrityFlow::Namespace { findings }, Reply::Keychain(Some(namespace))) => {
                let issues: Vec<IntegrityIssue> = findings.get_issues();
                if issues.is_empty() {
                    Progress::ask(IntegrityFlow::Listing, Request::ListWalletBackups { namespace })
                } else {
                    Self::fail_with(issues, findings.get_downgrade())
                }
            },
            (IntegrityFlow::Namespace { findings }, Reply::Keychain(None)) => {
                let mut issues: Vec<IntegrityIssue> = findings.get_issues();
                issues.push(IntegrityIssue::NoNamespace);
                Self::fail_with(issues, findings.get_downgrade())
            },
            (IntegrityFlow::Listing, Reply::Listed(Ok(listed))) => {
                let cloud_count: u32 = listed.len() as u32;
                Progress::ask(IntegrityFlow::Wallets { cloud_count }, Request::ReadLocalWallets)
            },
            (IntegrityFlow::Listing, Reply::Listed(Err(CloudStorageError::NotFound(_)))) => {
                let mut issues: Vec<IntegrityIssue> = Vec::new();
                issues.push(IntegrityIssue::FilesMissing);
                Self::fail_with(issues, None)
            },
            (IntegrityFlow::Listing, Reply::Listed(Err(CloudStorageError::Other(_)))) =>
                Self::pass(),
            (IntegrityFlow::Wallets { cloud_count }, Reply::LocalWallets(wallets)) => {
                if count_all_wallets(&wallets) > cloud_count {
                    Progress::ask(
                        IntegrityFlow::Sync,
                        Request::Call(Operation::SyncUnsyncedWallets),
                    )
                } else {
                    Self::pass()
                }
            },
            (IntegrityFlow::Sync, Reply::Returned(Outcome::Finished(Ok(_)))) => Self::pass(),
            (IntegrityFlow::Sync, Reply::Returned(Outcome::Finished(Err(_)))) => {
                let mut issues: Vec<IntegrityIssue> = Vec::new();
                issues.push(IntegrityIssue::NotBackedUp);
                Self::fail_with(issues, None)
            },
            (IntegrityFlow::Promote, Reply::Returned(Outcome::Nothing)) => Progress::end(None),
            (IntegrityFlow::Downgrade { issues }, Reply::Returned(Outcome::Nothing)) =>
                Progress::end(Some(join_issues(&issues))),
            (flow, _) => Progress::Refused { flow },
        }
    }
}

/// Raises the record after a check that passed.
pub enum PromoteFlow {
    Current,
    Save,
}

impl PromoteFlow {
    /// What follows a reply. A record that could not be written is announced to nobody.
    pub open spec fn next(self, reply: Reply, progress: Progress<Self, ()>) -> bool {
        match (self, reply) {
            (PromoteFlow::Current, Reply::CloudBackup(current)) => match current.promoted() {
                Some(updated) => progress.asks(
                    PromoteFlow::Save,
                    Request::SaveCloudBackup(updated),
                ),
                None => progress.ends(()),
            },
            (PromoteFlow::Save, Reply::Written(Ok(_))) => progress.ends_after(
                seq![announces(CloudBackupStatus::Enabled)],
                (),
            ),
            (PromoteFlow::Save, Reply::Written(Err(_))) => progress.ends(()),
            _ => progress.refuses(self),
        }
    }

    /// The first step.
    pub open spec fn began(progress: Progress<Self, ()>) -> bool {
        progress.asks(PromoteFlow::Current, Request::ReadCloudBackup)
    }

    /// Starts with the record.
    pub fn start() -> (progress: Progress<Self, ()>)
        ensures
            Self::began(progress),
    {
        Progress::ask(PromoteFlow::Current, Request::ReadCloudBackup)
    }

    /// Goes on with a reply.
    pub fn step(self, reply: Reply) -> (progress: Progress<Self, ()>)
        ensures
            self.next(reply, progress),
    {
        match (self, reply) {
            (PromoteFlow::Current, Reply::CloudBackup(current)) => {
                match promote_cloud_backup_state_after_integrity_pass(&current) {
                    Some(updated) => Progress::ask(
                        PromoteFlow::Save,
                        Request::SaveCloudBackup(updated),
                    ),
                    None => Progress::end(()),
                }
            },
            (PromoteFlow::Save, Reply::Written(Ok(_))) => Progress::Done {
                effects: one_effect(announce(CloudBackupStatus::Enabled)),
                value: (),
            },
            (PromoteFlow::Save, Reply::Written(Err(_))) => Progress::end(()),
            (flow, _) => Progress::Refused { flow },
        }
    }
}

/// The status that a record of a backup shows.
pub open spec fn shown_status(record: CloudBackup) -> Option<CloudBackupStatus> {
    match record {
        CloudBackup::PasskeyMissing { .. } => Some(CloudBackupStatus::PasskeyMissing),
        CloudBackup::Enabled { .. } => Some(CloudBackupStatus::Enabled),
        CloudBackup::Unverified { .. } => Some(CloudBackupStatus::Enabled),
        CloudBackup::Disabled => None,
    }
}

/// The announcement of the status that a record shows.
pub open spec fn announces_record(record: CloudBackup) -> Seq<Effect> {
    match shown_status(record) {
        Some(status) => seq![announces(status)],
        None => Seq::empty(),
    }
}

/// The announcement of the status that a record shows.
pub fn announce_record(record: &CloudBackup) -> (effects: Vec<Effect>)
    ensures
        effects@ == announces_record(*record),
{
    match record {
        CloudBackup::PasskeyMissing { .. } => one_effect(
            announce(CloudBackupStatus::PasskeyMissing),
        ),
        CloudBackup::Enabled { .. } | CloudBackup::Unverified { .. } => one_effect(
            announce(CloudBackupStatus::Enabled),
        ),
        CloudBackup::Disabled => Vec::new(),
    }
}

/// Lowers the record after a check that failed.
pub enum DowngradeFlow {
    Current { downgrade: IntegrityDowngrade },
    Save { updated: CloudBackup },
}

impl DowngradeFlow {
    /// Nothing where the check asks for no downgrade.
    pub open spec fn began(
        downgrade: Option<IntegrityDowngrade>,
        progress: Progress<Self, ()>,
    ) -> bool {
        match downgrade {
            Some(downgrade) => progress.asks(
                DowngradeFlow::Current { downgrade },
                Request::ReadCloudBackup,
            ),
            None => progress.ends(()),
        }
    }

    /// What follows a reply. A record that could not be written is announced to nobody.
    pub open spec fn next(self, reply: Reply, progress: Progress<Self, ()>) -> bool {
        match (self, reply) {
            (DowngradeFlow::Current { downgrade }, Reply::CloudBackup(current)) =>
                match current.downgraded(downgrade) {
                Some(updated) => progress.asks(
                    DowngradeFlow::Save { updated },
                    Request::SaveCloudBackup(updated),
                ),
                None => progress.ends(()),
            },
            (DowngradeFlow::Save { updated }, Reply::Written(Ok(_))) => progress.ends_after(
                announces_record(updated),
                (),
            ),
            (DowngradeFlow::Save { updated }, Reply::Written(Err(_))) => progress.ends(()),
            _ => progress.refuses(self),
        }
    }

    /// Starts with the record.
    pub fn start(downgrade: Option<IntegrityDowngrade>) -> (progress: Progress<Self, ()>)
        ensures
            Self::began(downgrade, progress),
    {
        match downgrade {
            Some(downgrade) => Progress::ask(
                DowngradeFlow::Current { downgrade },
                Request::ReadCloudBackup,
            ),
            None => Progress::end(()),
        }
    }

    /// Goes on with a reply.
    pub fn step(self, reply: Reply) -> (progress: Progress<Self, ()>)
        ensures
            self.next(reply, progress),
    {
        match (self, reply) {
            (DowngradeFlow::Current { downgrade }, Reply::CloudBackup(current)) => {
                match downgrade_cloud_backup_state(&current, downgrade) {
                    Some(updated) => Progress::ask(
                        DowngradeFlow::Save { updated },
                        Request::SaveCloudBackup(updated),
                    ),
                    None => Progress::end(()),
                }
            },
            (DowngradeFlow::Save { updated }, Reply::Written(Ok(_))) => Progress::Done {
                effects: announce_record(&updated),
                value: (),
            },
            (DowngradeFlow::Save { .. }, Reply::Written(Err(_))) => Progress::end(()),
            (flow, _) => Progress::Refused { flow },
        }
    }
}

/// The keychain has no issue exactly if everything is there, and only a passkey that is not all
/// there leaves the backup unverified.
pub proof fn law_findings(findings: KeychainFindings)
    ensures
        findings.issues().len() == 0 <==> findings.has_master_key && findings.has_prf_salt
            && findings.has_credential,
        findings.downgrade() is Some <==> findings.issues().contains(IntegrityIssue::NoCredential)
            || findings.issues().contains(IntegrityIssue::NoSalt),
{
    let issues = findings.issues();
    let key: int = if findings.has_master_key {
        0
    } else {
        1
    };
    let credential: int = if findings.has_credential {
        0
    } else {
        1
    };
    if !findings.has_credential {
        assert(issues[key] == IntegrityIssue::NoCredential);
    }
    if !findings.has_prf_salt {
        assert(issues[key + credential] == IntegrityIssue::NoSalt);
    }
}

/// Whether a reply to a step shows nothing wrong with the files in the cloud: it lists enough of
/// them, or it could not say, or the missing ones were backed up.
pub open spec fn shows_nothing_wrong(flow: IntegrityFlow, reply: Reply) -> bool {
    match (flow, reply) {
        (IntegrityFlow::Listing, Reply::Listed(Err(error))) => !(error is NotFound),
        (IntegrityFlow::Wallets { cloud_count }, Reply::LocalWallets(wallets)) =>
            wallets.len() as u32 <= cloud_count,
        (IntegrityFlow::Sync, Reply::Returned(Outcome::Finished(result))) => result is Ok,
        _ => false,
    }
}

/// The record is raised if and only if the last reply shows nothing wrong with the files in the
/// cloud, and then nothing is reported; whatever is reported was found before the record was
/// touched.
pub proof fn law_report_and_promotion_exclude_each_other(
    flow: IntegrityFlow,
    reply: Reply,
    progress: Progress<IntegrityFlow, Option<String>>,
)
    requires
        flow.next(reply, progress),
    ensures
        progress matches Progress::Done { value, .. } ==> {
            &&& flow is Promote ==> value is None
            &&& flow is Downgrade ==> value is Some
            &&& flow is Status || flow is Promote || flow is Downgrade
        },
        shows_nothing_wrong(flow, reply) <==> (progress matches Progress::Ask {
            request: Request::Call(Operation::PromoteVerified),
            ..
        }),
        shows_nothing_wrong(flow, reply) <==> (progress matches Progress::Ask {
            flow: IntegrityFlow::Promote,
            ..
        }),
{
}

/// What follows a reply to a step that is waiting for one.
pub open spec fn then_reply(
    before: Progress<IntegrityFlow, Option<String>>,
    reply: Reply,
    after: Progress<IntegrityFlow, Option<String>>,
) -> bool {
    before matches Progress::Ask { flow, .. } && flow.next(reply, after)
}

/// The check of an enabled backup reports everything that the keychain lacks, in one text, and
/// lowers the record if the passkey is not all there.
pub proof fn law_incomplete_keychain_is_reported(
    status: CloudBackupStatus,
    has_master_key: bool,
    salt: Option<String>,
    credential: Option<String>,
    namespace: Option<String>,
    steps: Seq<Progress<IntegrityFlow, Option<String>>>,
)
    requires
        status is Enabled || status is PasskeyMissing,
        !has_master_key || salt is None || stored_credential(credential) is None
            || namespace is None,
        steps.len() == 7,
        IntegrityFlow::began(steps[0]),
        then_reply(steps[0], Reply::Status(status), steps[1]),
        then_reply(steps[1], Reply::Flag(has_master_key), steps[2]),
        then_reply(steps[2], Reply::Keychain(salt), steps[3]),
        then_reply(steps[3], Reply::Keychain(credential), steps[4]),
        then_reply(steps[4], Reply::Keychain(namespace), steps[5]),
        then_reply(steps[5], Reply::Returned(Outcome::Nothing), steps[6]),
    ensures
        ({
            let findings = KeychainFindings {
                has_master_key,
                has_prf_salt: salt is Some,
                has_credential: stored_credential(credential) is Some,
            };
            let issues = if namespace is None {
                findings.issues().push(IntegrityIssue::NoNamespace)
            } else {
                findings.issues()
            };
            &&& steps[5] matches Progress::Ask { request, .. } && request == Request::Call(
                Operation::PersistDowngrade { downgrade: findings.downgrade() },
            )
            &&& steps[6] matches Progress::Done { value: Some(text), .. } && text@ == issues_text(
                issues,
            )
        }),
{
    law_findings(
        KeychainFindings {
            has_master_key,
            has_prf_salt: salt is Some,
            has_credential: stored_credential(credential) is Some,
        },
    );
}

/// Whether `steps` are those of one check, from its start, with `replies` between them.
pub open spec fn is_run(
    steps: Seq<Progress<IntegrityFlow, Option<String>>>,
    replies: Seq<Reply>,
) -> bool {
    &&& steps.len() == replies.len() + 1
    &&& IntegrityFlow::began(steps[0])
    &&& forall|i: int|
        0 <= i < replies.len() ==> then_reply(steps[i], #[trigger] replies[i], steps[i + 1])
}

proof fn lemma_end_is_last(
    steps: Seq<Progress<IntegrityFlow, Option<String>>>,
    replies: Seq<Reply>,
    at: int,
)
    requires
        is_run(steps, replies),
        0 <= at < steps.len(),
        !(steps[at] is Ask),
    ensures
        steps.len() == at + 1,
{
    if at < replies.len() {
        assert(then_reply(steps[at], replies[at], steps[at + 1]));
    }
}

/// A check of an enabled backup that reports nothing has found everything in the keychain, was not
/// told that the backup files are missing, and was told of at least as many as there are wallets,
/// or backed up the missing ones; only where the cloud could not be asked are the files unknown.
/// The record was raised, and not touched otherwise.
pub proof fn law_silence_means_a_sound_backup(
    steps: Seq<Progress<IntegrityFlow, Option<String>>>,
    replies: Seq<Reply>,
)
    requires
        is_run(steps, replies),
        steps.last() matches Progress::Done { value: None, .. },
        replies.len() > 0 && (replies[0] matches Reply::Status(status) && (status is Enabled
            || status is PasskeyMissing)),
    ensures
        replies.len() >= 7,
        replies[1] == Reply::Flag(true),
        replies[2] matches Reply::Keychain(Some(_)),
        replies[3] matches Reply::Keychain(stored) && stored_credential(stored) is Some,
        replies[4] matches Reply::Keychain(Some(namespace)) && (steps[5] matches Progress::Ask {
            request,
            ..
        } && request == (Request::ListWalletBackups { namespace })),
        match replies[5] {
            Reply::Listed(Ok(listed)) => replies[6] matches Reply::LocalWallets(wallets) && (
            wallets.len() as u32 <= listed.len() as u32 || replies[7] matches Reply::Returned(
                Outcome::Finished(Ok(_)),
            )),
            Reply::Listed(Err(error)) => !(error is NotFound),
            _ => false,
        },
        steps[steps.len() - 2] matches Progress::Ask {
            request: Request::Call(Operation::PromoteVerified),
            ..
        },
        forall|i: int|
            0 <= i < steps.len() ==> !((#[trigger] steps[i]) matches Progress::Ask {
                request: Request::Call(Operation::PersistDowngrade { .. }),
                ..
            }),
{
    assert(then_reply(steps[0], replies[0], steps[1]));
    assert(then_reply(steps[1], replies[1], steps[2]));
    assert(then_reply(steps[2], replies[2], steps[3]));
    assert(then_reply(steps[3], replies[3], steps[4]));
    assert(then_reply(steps[4], replies[4], steps[5]));
    assert(then_reply(steps[5], replies[5], steps[6]));
    assert(then_reply(steps[6], replies[6], steps[7]));
    if steps[7] is Done {
        lemma_end_is_last(steps, replies, 7);
    } else {
        assert(then_reply(steps[7], replies[7], steps[8]));
        if steps[8] is Done {
            lemma_end_is_last(steps, replies, 8);
        } else {
            assert(then_reply(steps[8], replies[8], steps[9]));
            lemma_end_is_last(steps, replies, 9);
        }
    }
}

/// The check of an enabled backup with a complete keychain reports that the files are missing in
/// the cloud, and leaves the record as it is.
pub proof fn law_missing_files_are_reported(
    status: CloudBackupStatus,
    salt: String,
    credential: String,
    namespace: String,
    error: CloudStorageError,
    steps: Seq<Progress<IntegrityFlow, Option<String>>>,
)
    requires
        status is Enabled || status is PasskeyMissing,
        stored_credential(Some(credential)) is Some,
        error is NotFound,
        steps.len() == 8,
        IntegrityFlow::began(steps[0]),
        then_reply(steps[0], Reply::Status(status), steps[1]),
        then_reply(steps[1], Reply::Flag(true), steps[2]),
        then_reply(steps[2], Reply::Keychain(Some(salt)), steps[3]),
        then_reply(steps[3], Reply::Keychain(Some(credential)), steps[4]),
        then_reply(steps[4], Reply::Keychain(Some(namespace)), steps[5]),
        then_reply(steps[5], Reply::Listed(Err(error)), steps[6]),
        then_reply(steps[6], Reply::Returned(Outcome::Nothing), steps[7]),
    ensures
        steps[5] matches Progress::Ask { request, .. } && request == (Request::ListWalletBackups {
            namespace,
        }),
        steps[6] matches Progress::Ask { request, .. } && request == Request::Call(
            Operation::PersistDowngrade { downgrade: None },
        ),
        steps[7] matches Progress::Done { value: Some(text), .. } && text@
            == IntegrityIssue::FilesMissing.text(),
{
    let issues = seq![IntegrityIssue::FilesMissing];
    assert(issues.map_values(|issue: IntegrityIssue| issue.text()) =~= seq![
        IntegrityIssue::FilesMissing.text(),
    ]);
}

} // verus!
