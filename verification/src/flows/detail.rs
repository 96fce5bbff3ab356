//! Comparing the cloud with the device.

pub mod laws;

use vstd::prelude::*;

use crate::error::CloudStorageError;
use crate::protocol::{
    current_namespace_id, namespace_missing, Effect, KeychainKey, Operation, Outcome, Progress,
    Reply, Request,
};
use crate::state::{CloudBackupDetailResult, CloudBackupStatus};
use crate::text::{copy_texts, prefixed, prefixed_text};

verus! {

/// Lists the backups of the current namespace, and compares them with the wallets on the device. A
/// namespace that is gone gets all wallets again first.
pub enum RefreshDetailFlow {
    Status,
    Namespace,
    Listing,
    Reupload,
    NamespaceAgain,
    ListingAgain,
    Cleanup { record_ids: Vec<String> },
    Detail,
}

impl RefreshDetailFlow {
    /// The end, with the text of what failed.
    pub open spec fn inaccessible(
        text: Seq<char>,
        progress: Progress<Self, Option<CloudBackupDetailResult>>,
    ) -> bool {
        &&& progress matches Progress::Done {
            effects,
            value: Some(CloudBackupDetailResult::AccessError(shown)),
        }
        &&& effects@ == Seq::<Effect>::empty()
        &&& shown@ == text
    }

    /// The confirmed uploads that the listing shows are no longer watched.
    pub open spec fn cleans_up(
        listed: Vec<String>,
        progress: Progress<Self, Option<CloudBackupDetailResult>>,
    ) -> bool {
        &&& progress matches Progress::Ask {
            flow,
            effects,
            request: Request::Call(Operation::CleanupListed { listed: shown }),
        }
        &&& flow == RefreshDetailFlow::Cleanup { record_ids: listed }
        &&& effects@ == Seq::<Effect>::empty()
        &&& shown@ == listed@
    }

    /// What follows a reply. Nothing happens unless the backup is enabled.
    pub open spec fn next(
        self,
        reply: Reply,
        progress: Progress<Self, Option<CloudBackupDetailResult>>,
    ) -> bool {
        match (self, reply) {
            (RefreshDetailFlow::Status, Reply::Status(status)) => if status is Enabled {
                progress.asks(
                    RefreshDetailFlow::Namespace,
                    Request::ReadKeychain(KeychainKey::NamespaceId),
                )
            } else {
                progress.ends(None)
            },
            (RefreshDetailFlow::Namespace, Reply::Keychain(Some(namespace))) => progress.asks(
                RefreshDetailFlow::Listing,
                Request::ListWalletBackups { namespace },
            ),
            (RefreshDetailFlow::Namespace, Reply::Keychain(None)) => Self::inaccessible(
                namespace_missing().message(),
                progress,
            ),
            (RefreshDetailFlow::Listing, Reply::Listed(Ok(listed))) => Self::cleans_up(
                listed,
                progress,
            ),
            (RefreshDetailFlow::Listing, Reply::Listed(Err(CloudStorageError::NotFound(_)))) =>
                progress.asks(
                RefreshDetailFlow::Reupload,
                Request::Call(Operation::ReuploadAllWallets),
            ),
            (RefreshDetailFlow::Listing, Reply::Listed(Err(CloudStorageError::Other(text)))) =>
                Self::inaccessible(text@, progress),
            (RefreshDetailFlow::Reupload, Reply::Returned(Outcome::Finished(Ok(_)))) =>
                progress.asks(
                RefreshDetailFlow::NamespaceAgain,
                Request::ReadKeychain(KeychainKey::NamespaceId),
            ),
            (RefreshDetailFlow::Reupload, Reply::Returned(Outcome::Finished(Err(error)))) =>
                Self::inaccessible(
                prefixed_text("Failed to re-upload wallets"@, error@.message()),
                progress,
            ),
            (RefreshDetailFlow::NamespaceAgain, Reply::Keychain(stored)) => {
                &&& progress matches Progress::Ask {
                    flow,
                    effects,
                    request: Request::ListWalletBackups { namespace },
                }
                &&& flow == RefreshDetailFlow::ListingAgain
                &&& effects@ == Seq::<Effect>::empty()
                &&& namespace@ == match stored {
                    Some(id) => id@,
                    None => Seq::empty(),
                }
            },
            (RefreshDetailFlow::ListingAgain, Reply::Listed(Ok(listed))) => Self::cleans_up(
                listed,
                progress,
            ),
            (RefreshDetailFlow::ListingAgain, Reply::Listed(Err(error))) => Self::inaccessible(
                error.text()@,
                progress,
            ),
            (RefreshDetailFlow::Cleanup { record_ids }, Reply::Returned(Outcome::Nothing)) =>
                progress.asks(RefreshDetailFlow::Detail, Request::BuildDetail { record_ids }),
            (RefreshDetailFlow::Detail, Reply::Detail(detail)) => progress.ends(
                Some(CloudBackupDetailResult::Success(detail)),
            ),
            _ => progress.refuses(self),
        }
    }

    fn deny(text: String) -> (progress: Progress<Self, Option<CloudBackupDetailResult>>)
        ensures
            Self::inaccessible(text@, progress),
    {
        Progress::end(Some(CloudBackupDetailResult::AccessError(text)))
    }

    fn clean_up(listed: Vec<String>) -> (progress: Progress<Self, Option<CloudBackupDetailResult>>)
        ensures
            Self::cleans_up(listed, progress),
    {
        let shown: Vec<String> = copy_texts(&listed);
        Progress::ask(
            RefreshDetailFlow::Cleanup { record_ids: listed },
            Request::Call(Operation::CleanupListed { listed: shown }),
        )
    }

    /// The first step.
    pub open spec fn began(progress: Progress<Self, Option<CloudBackupDetailResult>>) -> bool {
        progress.asks(RefreshDetailFlow::Status, Request::ReadStatus)
    }

    /// Starts with the status.
    pub fn start() -> (progress: Progress<Self, Option<CloudBackupDetailResult>>)
        ensures
            Self::began(progress),
    {
        Progress::ask(RefreshDetailFlow::Status, Request::ReadStatus)
    }

    /// Goes on with a reply.
    pub fn step(self, reply: Reply) -> (progress: Progress<Self, Option<CloudBackupDetailResult>>)
        ensures
            self.next(reply, progress),
    {
        match (self, reply) {
            (RefreshDetailFlow::Status, Reply::Status(status)) => {
                if matches!(status, CloudBackupStatus::Enabled) {
                    Progress::ask(
                        RefreshDetailFlow::Namespace,
                        Request::ReadKeychain(KeychainKey::NamespaceId),
                    )
                } else {
                    Progress::end(None)
                }
            },
            (RefreshDetailFlow::Namespace, Reply::Keychain(stored)) => match current_namespace_id(
                stored,
            ) {
                Ok(namespace) => Progress::ask(
                    RefreshDetailFlow::Listing,
                    Request::ListWalletBackups { namespace },
                ),
                Err(error) => Self::deny(error.message()),
            },
            (RefreshDetailFlow::Listing, Reply::Listed(Ok(listed))) => Self::clean_up(listed),
            (RefreshDetailFlow::Listing, Reply::Listed(Err(CloudStorageError::NotFound(_)))) =>
                Progress::ask(
                RefreshDetailFlow::Reupload,
                Request::Call(Operation::ReuploadAllWallets),
            ),
            (RefreshDetailFlow::Listing, Reply::Listed(Err(CloudStorageError::Other(text)))) =>
                Self::deny(text),
            (RefreshDetailFlow::Reupload, Reply::Returned(Outcome::Finished(Ok(_)))) =>
                Progress::ask(
                RefreshDetailFlow::NamespaceAgain,
                Request::ReadKeychain(KeychainKey::NamespaceId),
            ),
            (RefreshDetailFlow::Reupload, Reply::Returned(Outcome::Finished(Err(error)))) => {
                let message: String = error.message();
                Self::deny(prefixed("Failed to re-upload wallets", message.as_str()))
            },
            (RefreshDetailFlow::NamespaceAgain, Reply::Keychain(stored)) => {
                let namespace: String = match stored {
                    Some(id) => id,
                    None => String::new(),
                };
                Progress::ask(
                    RefreshDetailFlow::ListingAgain,
                    Request::ListWalletBackups { namespace },
                )
            },
            (RefreshDetailFlow::ListingAgain, Reply::Listed(Ok(listed))) => Self::clean_up(listed),
            (RefreshDetailFlow::ListingAgain, Reply::Listed(Err(error))) => Self::deny(
                error.into_text(),
            ),
            (RefreshDetailFlow::Cleanup { record_ids }, Reply::Returned(Outcome::Nothing)) =>
                Progress::ask(RefreshDetailFlow::Detail, Request::BuildDetail { record_ids }),
            (RefreshDetailFlow::Detail, Reply::Detail(detail)) => Progress::end(
                Some(CloudBackupDetailResult::Success(detail)),
            ),
            (flow, _) => Progress::Refused { flow },
        }
    }
}

} // verus!
