//! The errors of the backup operations and of the services they use.

use vstd::prelude::*;

use crate::text::{owned, prefixed, prefixed_text};

verus! {

/// Why a backup operation failed.
#[derive(Debug)]
pub enum CloudBackupError {
    NotSupported(String),
    Passkey(String),
    Crypto(String),
    Cloud(String),
    Internal(String),
    PasskeyMismatch,
    PasskeyDiscoveryCancelled,
}

/// [`CloudBackupError`] with its text taken as characters.
pub enum CloudBackupErrorView {
    NotSupported(Seq<char>),
    Passkey(Seq<char>),
    Crypto(Seq<char>),
    Cloud(Seq<char>),
    Internal(Seq<char>),
    PasskeyMismatch,
    PasskeyDiscoveryCancelled,
}

impl View for CloudBackupError {
    type V = CloudBackupErrorView;

    open spec fn view(&self) -> CloudBackupErrorView {
        match *self {
            CloudBackupError::NotSupported(text) => CloudBackupErrorView::NotSupported(text@),
            CloudBackupError::Passkey(text) => CloudBackupErrorView::Passkey(text@),
            CloudBackupError::Crypto(text) => CloudBackupErrorView::Crypto(text@),
            CloudBackupError::Cloud(text) => CloudBackupErrorView::Cloud(text@),
            CloudBackupError::Internal(text) => CloudBackupErrorView::Internal(text@),
            CloudBackupError::PasskeyMismatch => CloudBackupErrorView::PasskeyMismatch,
            CloudBackupError::PasskeyDiscoveryCancelled =>
                CloudBackupErrorView::PasskeyDiscoveryCancelled,
        }
    }
}

impl CloudBackupErrorView {
    /// The message shown for the error.
    pub open spec fn message(self) -> Seq<char> {
        match self {
            CloudBackupErrorView::NotSupported(text) => prefixed_text("not supported"@, text),
            CloudBackupErrorView::Passkey(text) => prefixed_text("passkey error"@, text),
            CloudBackupErrorView::Crypto(text) => prefixed_text("crypto error"@, text),
            CloudBackupErrorView::Cloud(text) => prefixed_text("cloud storage error"@, text),
            CloudBackupErrorView::Internal(text) => prefixed_text("internal error"@, text),
            CloudBackupErrorView::PasskeyMismatch =>
                "Passkey didn't match any backups, please try a new one"@,
            CloudBackupErrorView::PasskeyDiscoveryCancelled => "user cancelled passkey discovery"@,
        }
    }
}

impl CloudBackupError {
    /// The message shown for the error.
    pub fn message(&self) -> (text: String)
        ensures
            text@ == self@.message(),
    {
        match self {
            CloudBackupError::NotSupported(text) => prefixed("not supported", text.as_str()),
            CloudBackupError::Passkey(text) => prefixed("passkey error", text.as_str()),
            CloudBackupError::Crypto(text) => prefixed("crypto error", text.as_str()),
            CloudBackupError::Cloud(text) => prefixed("cloud storage error", text.as_str()),
            CloudBackupError::Internal(text) => prefixed("internal error", text.as_str()),
            CloudBackupError::PasskeyMismatch => owned(
                "Passkey didn't match any backups, please try a new one",
            ),
            CloudBackupError::PasskeyDiscoveryCancelled => owned(
                "user cancelled passkey discovery",
            ),
        }
    }
}

/// Why cloud storage failed; each text is the service's own description.
#[derive(Debug, PartialEq, Eq)]
pub enum CloudStorageError {
    NotFound(String),
    Other(String),
}

impl CloudStorageError {
    /// The service's description of the error.
    pub open spec fn text(self) -> String {
        match self {
            CloudStorageError::NotFound(text) => text,
            CloudStorageError::Other(text) => text,
        }
    }

    /// The service's description of the error.
    pub fn into_text(self) -> (text: String)
        ensures
            text == self.text(),
    {
        match self {
            CloudStorageError::NotFound(text) | CloudStorageError::Other(text) => text,
        }
    }
}

/// Why a passkey ceremony failed.
#[derive(Debug, PartialEq, Eq)]
pub enum PasskeyError {
    UserCancelled,
    NoCredentialFound,
    AuthenticationFailed(String),
    /// Any other failure, with the platform's own description.
    Other(String),
}

/// A failed passkey ceremony, with the platform's description of it.
#[derive(Debug, PartialEq, Eq)]
pub struct PasskeyFailure {
    pub error: PasskeyError,
    pub message: String,
}

/// Why a backup could not be sealed: while encrypting it, or while encoding what was encrypted.
#[derive(Debug, PartialEq, Eq)]
pub enum SealError {
    Crypto(String),
    Encode(String),
}

/// The error of an operation whose backup could not be sealed.
pub open spec fn seal_failure(error: SealError) -> CloudBackupErrorView {
    match error {
        SealError::Crypto(text) => CloudBackupErrorView::Crypto(text@),
        SealError::Encode(text) => CloudBackupErrorView::Internal(text@),
    }
}

/// The error of an operation whose backup could not be sealed.
pub fn from_seal_error(error: SealError) -> (failure: CloudBackupError)
    ensures
        failure@ == seal_failure(error),
{
    match error {
        SealError::Crypto(text) => CloudBackupError::Crypto(text),
        SealError::Encode(text) => CloudBackupError::Internal(text),
    }
}

/// The error of an operation that cloud storage failed.
pub fn from_storage_error(error: CloudStorageError) -> (failure: CloudBackupError)
    ensures
        failure@ == CloudBackupErrorView::Cloud(error.text()@),
{
    CloudBackupError::Cloud(error.into_text())
}

/// An internal error with what was being done.
pub fn internal_error(context: &str, error: &String) -> (failure: CloudBackupError)
    ensures
        failure@ == CloudBackupErrorView::Internal(prefixed_text(context@, error@)),
{
    CloudBackupError::Internal(prefixed(context, error.as_str()))
}

/// A message names the kind of the error and then gives the error's own text unchanged.
pub proof fn law_message_names_the_kind(text: Seq<char>)
    ensures
        CloudBackupErrorView::NotSupported(text).message() == "not supported"@ + ": "@ + text,
        CloudBackupErrorView::Passkey(text).message() == "passkey error"@ + ": "@ + text,
        CloudBackupErrorView::Crypto(text).message() == "crypto error"@ + ": "@ + text,
        CloudBackupErrorView::Cloud(text).message() == "cloud storage error"@ + ": "@ + text,
        CloudBackupErrorView::Internal(text).message() == "internal error"@ + ": "@ + text,
        CloudBackupErrorView::PasskeyMismatch.message()
            == "Passkey didn't match any backups, please try a new one"@,
        CloudBackupErrorView::PasskeyDiscoveryCancelled.message()
            == "user cancelled passkey discovery"@,
{
}

/// An error of a service keeps the service's own text, whichever error it was. A backup that could
/// not be encrypted is a crypto error, and one that could not be encoded an internal one.
pub proof fn law_service_errors_keep_their_text(text: String)
    ensures
        CloudStorageError::NotFound(text).text() == text,
        CloudStorageError::Other(text).text() == text,
        seal_failure(SealError::Crypto(text)) == CloudBackupErrorView::Crypto(text@),
        seal_failure(SealError::Encode(text)) == CloudBackupErrorView::Internal(text@),
{
}

/// An error shows its kind and its text and nothing else.
pub proof fn law_error_shows_kind_and_text(text: String)
    ensures
        CloudBackupError::NotSupported(text)@ == CloudBackupErrorView::NotSupported(text@),
        CloudBackupError::Passkey(text)@ == CloudBackupErrorView::Passkey(text@),
        CloudBackupError::Crypto(text)@ == CloudBackupErrorView::Crypto(text@),
        CloudBackupError::Cloud(text)@ == CloudBackupErrorView::Cloud(text@),
        CloudBackupError::Internal(text)@ == CloudBackupErrorView::Internal(text@),
        CloudBackupError::PasskeyMismatch@ is PasskeyMismatch,
        CloudBackupError::PasskeyDiscoveryCancelled@ is PasskeyDiscoveryCancelled,
{
}

} // verus!
