//! Collecting what the backup of one wallet holds.

pub mod laws;

use vstd::prelude::*;

use crate::error::{internal_error, CloudBackupError, CloudBackupErrorView};
use crate::protocol::{fail, fails, Attempt, Progress, Reply, Request};
use crate::text::{concat3, concat4, prefixed_text};
use crate::wallet::{
    CloudWalletSecret, DescriptorPair, WalletEntry, WalletMetadata, WalletMode, WalletType,
};

verus! {

/// Builds the entry of one wallet from what the keychain holds of it.
pub struct WalletEntryFlow {
    pub wallet: WalletMetadata,
    pub mode: WalletMode,
    pub phase: WalletEntryPhase,
}

/// What is still to be read.
pub enum WalletEntryPhase {
    Mnemonic,
    TapSigner,
    Xpub { secret: CloudWalletSecret },
    Descriptors { secret: CloudWalletSecret, xpub: Option<String> },
    Metadata {
        secret: CloudWalletSecret,
        xpub: Option<String>,
        descriptors: Option<DescriptorPair>,
    },
}

impl WalletEntryFlow {
    /// A message about a wallet: `before 'name' after`.
    pub open spec fn about(before: Seq<char>, name: Seq<char>, after: Seq<char>) -> Seq<char> {
        before + name + after
    }

    /// A message about a wallet that ends in the text of an error.
    pub open spec fn about_error(
        before: Seq<char>,
        name: Seq<char>,
        error: Seq<char>,
    ) -> CloudBackupErrorView {
        CloudBackupErrorView::Internal(before + name + "': "@ + error)
    }

    /// The first thing read: the secret, where the type of the wallet says that there is one.
    pub open spec fn began(
        wallet: WalletMetadata,
        mode: WalletMode,
        progress: Attempt<Self, WalletEntry>,
    ) -> bool {
        if wallet.wallet_type is Hot {
            progress.asks(
                WalletEntryFlow { wallet, mode, phase: WalletEntryPhase::Mnemonic },
                Request::ReadMnemonic { wallet_id: wallet.id },
            )
        } else if wallet.wallet_type is Cold && wallet.is_tap_signer {
            progress.asks(
                WalletEntryFlow { wallet, mode, phase: WalletEntryPhase::TapSigner },
                Request::ReadTapSignerBackup { wallet_id: wallet.id },
            )
        } else {
            progress.asks(
                WalletEntryFlow {
                    wallet,
                    mode,
                    phase: WalletEntryPhase::Xpub { secret: CloudWalletSecret::WatchOnly },
                },
                Request::ReadXpub { wallet_id: wallet.id },
            )
        }
    }

    /// What follows a reply.
    pub open spec fn next(
        self,
        reply: Reply,
        progress: Attempt<Self, WalletEntry>,
    ) -> bool {
        let name = self.wallet.name@;
        match (self.phase, reply) {
            (WalletEntryPhase::Mnemonic, Reply::Text(Ok(Some(words)))) => progress.asks(
                WalletEntryFlow {
                    phase: WalletEntryPhase::Xpub { secret: CloudWalletSecret::Mnemonic(words) },
                    ..self
                },
                Request::ReadXpub { wallet_id: self.wallet.id },
            ),
            (WalletEntryPhase::Mnemonic, Reply::Text(Ok(None))) => fails(
                progress,
                CloudBackupErrorView::Internal(
                    Self::about("hot wallet '"@, name, "' has no mnemonic"@),
                ),
            ),
            (WalletEntryPhase::Mnemonic, Reply::Text(Err(error))) => fails(
                progress,
                Self::about_error("failed to get mnemonic for '"@, name, error@),
            ),
            (WalletEntryPhase::TapSigner, Reply::Backup(Ok(backup))) => progress.asks(
                WalletEntryFlow {
                    phase: WalletEntryPhase::Xpub {
                        secret: match backup {
                            Some(bytes) => CloudWalletSecret::TapSignerBackup(bytes),
                            None => CloudWalletSecret::WatchOnly,
                        },
                    },
                    ..self
                },
                Request::ReadXpub { wallet_id: self.wallet.id },
            ),
            (WalletEntryPhase::TapSigner, Reply::Backup(Err(error))) => fails(
                progress,
                Self::about_error("failed to read tap signer backup for '"@, name, error@),
            ),
            (WalletEntryPhase::Xpub { secret }, Reply::Text(Ok(xpub))) => progress.asks(
                WalletEntryFlow { phase: WalletEntryPhase::Descriptors { secret, xpub }, ..self },
                Request::ReadDescriptors { wallet_id: self.wallet.id },
            ),
            (WalletEntryPhase::Xpub { secret }, Reply::Text(Err(error))) => fails(
                progress,
                Self::about_error("failed to read xpub for '"@, name, error@),
            ),
            (
                WalletEntryPhase::Descriptors { secret, xpub },
                Reply::Descriptors(Ok(descriptors)),
            ) => progress.asks(
                WalletEntryFlow {
                    phase: WalletEntryPhase::Metadata { secret, xpub, descriptors },
                    ..self
                },
                Request::EncodeMetadata { wallet: self.wallet },
            ),
            (WalletEntryPhase::Descriptors { secret, xpub }, Reply::Descriptors(Err(error))) =>
                fails(
                progress,
                Self::about_error("failed to read descriptors for '"@, name, error@),
            ),
            (
                WalletEntryPhase::Metadata { secret, xpub, descriptors },
                Reply::Json(Ok(metadata)),
            ) => progress.ends(
                Ok(
                    WalletEntry {
                        wallet_id: self.wallet.id,
                        secret,
                        metadata,
                        descriptors,
                        xpub,
                        wallet_mode: self.mode,
                    },
                ),
            ),
            (
                WalletEntryPhase::Metadata { secret, xpub, descriptors },
                Reply::Json(Err(error)),
            ) => fails(
                progress,
                CloudBackupErrorView::Internal(prefixed_text("serialize metadata"@, error@)),
            ),
            _ => progress.refuses(self),
        }
    }

    /// Starts with the wallet's secret.
    pub fn start(
        wallet: WalletMetadata,
        mode: WalletMode,
    ) -> (progress: Attempt<Self, WalletEntry>)
        ensures
            Self::began(wallet, mode, progress),
    {
        let wallet_id: String = wallet.id.clone();
        match wallet.wallet_type {
            WalletType::Hot => Progress::ask(
                WalletEntryFlow { wallet, mode, phase: WalletEntryPhase::Mnemonic },
                Request::ReadMnemonic { wallet_id },
            ),
            WalletType::Cold => {
                if wallet.is_tap_signer {
                    Progress::ask(
                        WalletEntryFlow { wallet, mode, phase: WalletEntryPhase::TapSigner },
                        Request::ReadTapSignerBackup { wallet_id },
                    )
                } else {
                    Self::without_secret(wallet, mode)
                }
            },
            WalletType::XpubOnly | WalletType::WatchOnly => Self::without_secret(wallet, mode),
        }
    }

    fn without_secret(
        wallet: WalletMetadata,
        mode: WalletMode,
    ) -> (progress: Attempt<Self, WalletEntry>)
        ensures
            progress.asks(
                WalletEntryFlow {
                    wallet,
                    mode,
                    phase: WalletEntryPhase::Xpub { secret: CloudWalletSecret::WatchOnly },
                },
                Request::ReadXpub { wallet_id: wallet.id },
            ),
    {
        let wallet_id: String = wallet.id.clone();
        Progress::ask(
            WalletEntryFlow {
                wallet,
                mode,
                phase: WalletEntryPhase::Xpub { secret: CloudWalletSecret::WatchOnly },
            },
            Request::ReadXpub { wallet_id },
        )
    }

    /// Goes on with a reply.
    pub fn step(self, reply: Reply) -> (progress: Attempt<Self, WalletEntry>)
        ensures
            self.next(reply, progress),
    {
        let WalletEntryFlow { wallet, mode, phase } = self;
        let wallet_id: String = wallet.id.clone();
        match (phase, reply) {
            (WalletEntryPhase::Mnemonic, Reply::Text(Ok(Some(words)))) => Progress::ask(
                WalletEntryFlow {
                    wallet,
                    mode,
                    phase: WalletEntryPhase::Xpub { secret: CloudWalletSecret::Mnemonic(words) },
                },
                Request::ReadXpub { wallet_id },
            ),
            (WalletEntryPhase::Mnemonic, Reply::Text(Ok(None))) => fail(
                CloudBackupError::Internal(
                    concat3("hot wallet '", wallet.name.as_str(), "' has no mnemonic"),
                ),
            ),
            (WalletEntryPhase::Mnemonic, Reply::Text(Err(error))) => fail(
                CloudBackupError::Internal(
                    concat4(
                        "failed to get mnemonic for '",
                        wallet.name.as_str(),
                        "': ",
                        error.as_str(),
                    ),
                ),
            ),
            (WalletEntryPhase::TapSigner, Reply::Backup(Ok(backup))) => {
                let secret: CloudWalletSecret = match backup {
                    Some(bytes) => CloudWalletSecret::TapSignerBackup(bytes),
                    None => CloudWalletSecret::WatchOnly,
                };
                Progress::ask(
                    WalletEntryFlow { wallet, mode, phase: WalletEntryPhase::Xpub { secret } },
                    Request::ReadXpub { wallet_id },
                )
            },
            (WalletEntryPhase::TapSigner, Reply::Backup(Err(error))) => fail(
                CloudBackupError::Internal(
                    concat4(
                        "failed to read tap signer backup for '",
                        wallet.name.as_str(),
                        "': ",
                        error.as_str(),
                    ),
                ),
            ),
            (WalletEntryPhase::Xpub { secret }, Reply::Text(Ok(xpub))) => Progress::ask(
                WalletEntryFlow {
                    wallet,
                    mode,
                    phase: WalletEntryPhase::Descriptors { secret, xpub },
                },
                Request::ReadDescriptors { wallet_id },
            ),
            (WalletEntryPhase::Xpub { secret: _ }, Reply::Text(Err(error))) => fail(
                CloudBackupError::Internal(
                    concat4(
                        "failed to read xpub for '",
                        wallet.name.as_str(),
                        "': ",
                        error.as_str(),
                    ),
                ),
            ),
            (
                WalletEntryPhase::Descriptors { secret, xpub },
                Reply::Descriptors(Ok(descriptors)),
            ) => {
                let encoded: WalletMetadata = wallet.clone();
                Progress::ask(
                    WalletEntryFlow {
                        wallet,
                        mode,
                        phase: WalletEntryPhase::Metadata { secret, xpub, descriptors },
                    },
                    Request::EncodeMetadata { wallet: encoded },
                )
            },
            (WalletEntryPhase::Descriptors { .. }, Reply::Descriptors(Err(error))) => fail(
                CloudBackupError::Internal(
                    concat4(
                        "failed to read descriptors for '",
                        wallet.name.as_str(),
                        "': ",
                        error.as_str(),
                    ),
                ),
            ),
            (
                WalletEntryPhase::Metadata { secret, xpub, descriptors },
                Reply::Json(Ok(metadata)),
            ) => Progress::end(
                Ok(
                    WalletEntry {
                        wallet_id,
                        secret,
                        metadata,
                        descriptors,
                        xpub,
                        wallet_mode: mode,
                    },
                ),
            ),
            (WalletEntryPhase::Metadata { .. }, Reply::Json(Err(error))) => fail(
                internal_error("serialize metadata", &error),
            ),
            (phase, _) => Progress::Refused { flow: WalletEntryFlow { wallet, mode, phase } },
        }
    }
}

impl WalletEntryFlow {
    /// Whether the secret found so far suits the type of the wallet.
    pub open spec fn suits(self) -> bool {
        match self.phase {
            WalletEntryPhase::Mnemonic => self.wallet.wallet_type is Hot,
            WalletEntryPhase::TapSigner => self.wallet.wallet_type is Cold
                && self.wallet.is_tap_signer,
            WalletEntryPhase::Xpub { secret } => Self::secret_suits(self.wallet, secret),
            WalletEntryPhase::Descriptors { secret, .. } => Self::secret_suits(
                self.wallet,
                secret,
            ),
            WalletEntryPhase::Metadata { secret, .. } => Self::secret_suits(self.wallet, secret),
        }
    }

    /// A hot wallet has a recovery phrase, a tap signer may have a backup, any other wallet is only
    /// watched.
    pub open spec fn secret_suits(wallet: WalletMetadata, secret: CloudWalletSecret) -> bool {
        match wallet.wallet_type {
            WalletType::Hot => secret is Mnemonic,
            WalletType::Cold => secret is WatchOnly || (wallet.is_tap_signer
                && secret is TapSignerBackup),
            _ => secret is WatchOnly,
        }
    }
}

/// The backup of a hot wallet always holds its recovery phrase, and no other backup holds one: if
/// there is no phrase to be had, there is no backup.
pub proof fn law_backup_holds_the_secret(
    flow: WalletEntryFlow,
    reply: Reply,
    progress: Attempt<WalletEntryFlow, WalletEntry>,
)
    requires
        WalletEntryFlow::began(flow.wallet, flow.mode, progress) || (flow.suits() && flow.next(
            reply,
            progress,
        )),
    ensures
        match progress {
            Progress::Ask { flow: later, .. } => later.wallet == flow.wallet && later.suits(),
            Progress::Done { value: Ok(entry), .. } => {
                &&& WalletEntryFlow::secret_suits(flow.wallet, entry.secret)
                &&& entry.wallet_id == flow.wallet.id
                &&& entry.wallet_mode == flow.mode
            },
            _ => true,
        },
{
}

/// One step after another: what follows a reply, or the end if it was reached before.
pub open spec fn then_reply(
    before: Attempt<WalletEntryFlow, WalletEntry>,
    reply: Reply,
    after: Attempt<WalletEntryFlow, WalletEntry>,
) -> bool {
    match before {
        Progress::Ask { flow, .. } => flow.next(reply, after),
        _ => after == before,
    }
}

/// The entry of a wallet holds what the keychain holds of it, whole: the secret that was read,
/// where its type has one, the extended public key, the descriptors and the metadata.
pub proof fn law_entry_holds_what_was_read(
    wallet: WalletMetadata,
    mode: WalletMode,
    secret: CloudWalletSecret,
    read: Reply,
    xpub: Option<String>,
    descriptors: Option<DescriptorPair>,
    metadata: String,
    steps: Seq<Attempt<WalletEntryFlow, WalletEntry>>,
)
    requires
        steps.len() == 5,
        WalletEntryFlow::began(wallet, mode, steps[0]),
        if wallet.wallet_type is Hot {
            &&& secret matches CloudWalletSecret::Mnemonic(words)
            &&& read == Reply::Text(Ok(Some(words)))
            &&& then_reply(steps[0], read, steps[1])
        } else if wallet.wallet_type is Cold && wallet.is_tap_signer {
            &&& match secret {
                CloudWalletSecret::TapSignerBackup(bytes) => read == Reply::Backup(Ok(Some(bytes))),
                CloudWalletSecret::WatchOnly => read == Reply::Backup(Ok(None)),
                _ => false,
            }
            &&& then_reply(steps[0], read, steps[1])
        } else {
            &&& secret is WatchOnly
            &&& steps[1] == steps[0]
        },
        then_reply(steps[1], Reply::Text(Ok(xpub)), steps[2]),
        then_reply(steps[2], Reply::Descriptors(Ok(descriptors)), steps[3]),
        then_reply(steps[3], Reply::Json(Ok(metadata)), steps[4]),
    ensures
        steps[4].ends(
            Ok(
                WalletEntry {
                    wallet_id: wallet.id,
                    secret,
                    metadata,
                    descriptors,
                    xpub,
                    wallet_mode: mode,
                },
            ),
        ),
{
}

} // verus!
