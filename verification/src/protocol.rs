//! How an operation talks to the world: it asks for one thing at a time, and goes on with the
//! reply.

use vstd::prelude::*;

use crate::entropy::PasskeySeed;
use crate::error::{
    CloudBackupError, CloudBackupErrorView, CloudStorageError, PasskeyFailure, SealError,
};
use crate::record::{CloudBackup, IntegrityDowngrade};
use crate::state::{
    CloudBackupDetail, CloudBackupDetailResult, CloudBackupReconcileMessage, CloudBackupStatus,
    CloudBackupWalletItem, DeepVerificationResult, RecoveryAction, StateChange,
};
use crate::upload_queue::PendingCloudUploadVerification;
use crate::wallet::{
    DescriptorPair, EncryptedMasterKey, EncryptedWallet, KnownWallet, MasterKey, WalletBackup,
    WalletEntry, WalletMetadata, WalletMode,
};

verus! {

/// The relying party of every passkey ceremony.
pub const RP_ID: &'static str = "covebitcoinwallet.com";

/// The keychain entries of the backup.
#[derive(Debug, Clone, Copy, PartialEq, Eq, Structural)]
pub enum KeychainKey {
    NamespaceId,
    CredentialId,
    PrfSalt,
}

/// How a passkey repair gets its passkey.
#[derive(Debug, Clone, Copy, PartialEq, Eq, Structural)]
pub enum WrapperRepairStrategy {
    DiscoverOrCreate,
    CreateNew,
}

/// A passkey key that is not stored in the keychain yet.
#[derive(PartialEq, Eq)]
pub struct UnpersistedPrfKey {
    pub prf_key: [u8; 32],
    pub prf_salt: [u8; 32],
    pub credential_id: Vec<u8>,
}

/// A passkey that the user picked, and its output.
#[derive(PartialEq, Eq)]
pub struct DiscoveredPasskey {
    pub prf_output: Vec<u8>,
    pub credential_id: Vec<u8>,
}

/// A passkey that authenticated the user.
#[derive(Debug, PartialEq, Eq)]
pub struct AuthenticatedPasskey {
    pub prf_key: [u8; 32],
    pub credential_id: Vec<u8>,
    /// Whether the credential came from discovery and not from the keychain.
    pub credential_recovered: bool,
}

/// How an authentication ended.
#[derive(Debug, PartialEq, Eq)]
pub enum PasskeyAuthOutcome {
    Authenticated(AuthenticatedPasskey),
    UserCancelled,
    NoCredentialFound,
}

/// One wallet restored or not, and the wallets that are on the device afterwards.
pub struct RestoredWallet {
    pub known: Vec<KnownWallet>,
    pub result: Result<(), CloudBackupError>,
}

/// An operation that can be run on its own or as part of another one.
pub enum Operation {
    BuildWalletEntry { wallet: WalletMetadata, mode: WalletMode },
    UploadWallets { namespace: String, key: MasterKey, wallets: Vec<WalletMetadata> },
    BackupWallets { wallets: Vec<WalletMetadata> },
    SyncUnsyncedWallets,
    ReuploadAllWallets,
    PersistEnabled { wallet_count: u32 },
    BackupNewWallet { wallet: WalletMetadata },
    EnqueueUploads { namespace: String, record_ids: Vec<String> },
    RemoveUploads { namespace: String, record_ids: Vec<String> },
    CleanupListed { listed: Vec<String> },
    VerifyPendingUploads,
    ObtainPrfKey,
    CreatePrfKey,
    Authenticate { prf_salt: [u8; 32] },
    Enable,
    RestoreWallet { namespace: String, record_id: String, key: MasterKey, known: Vec<KnownWallet> },
    RestoreCloudWallet { record_id: String },
    RestoreAll,
    FetchCloudOnly,
    DeleteCloudWallet { record_id: String },
    RefreshDetail,
    PromoteVerified,
    PersistDowngrade { downgrade: Option<IntegrityDowngrade> },
    VerifyIntegrity,
    DeepVerify { force_discoverable: bool },
    RepairPasskey { strategy: WrapperRepairStrategy },
    FinalizeRepair,
    HandleVerification { force_discoverable: bool },
    HandleRecovery { action: RecoveryAction },
    HandleRepair { no_discovery: bool },
    HandleSync,
    HandleFetchCloudOnly,
    HandleRestoreCloudWallet { record_id: String },
    HandleDeleteCloudWallet { record_id: String },
    HandleRefreshDetail,
}

/// What an operation gives back.
pub enum Outcome {
    Nothing,
    Finished(Result<(), CloudBackupError>),
    Entry(Result<WalletEntry, CloudBackupError>),
    Uploaded(Result<Vec<String>, CloudBackupError>),
    PrfKey(Result<UnpersistedPrfKey, CloudBackupError>),
    Authenticated(Result<PasskeyAuthOutcome, CloudBackupError>),
    WalletRestored(RestoredWallet),
    CloudOnly(Result<Vec<CloudBackupWalletItem>, CloudBackupError>),
    Detail(Option<CloudBackupDetailResult>),
    Integrity(Option<String>),
    Verification(DeepVerificationResult),
    StillPending(bool),
}

/// What an operation asks for.
pub enum Request {
    ReadKeychain(KeychainKey),
    SaveKeychain { key: KeychainKey, value: String },
    ReadMnemonic { wallet_id: String },
    ReadTapSignerBackup { wallet_id: String },
    ReadXpub { wallet_id: String },
    ReadDescriptors { wallet_id: String },
    HasMasterKey,
    GetOrCreateMasterKey,
    LoadMasterKey,
    SaveMasterKey(MasterKey),
    SealWallet { entry: WalletEntry, key: MasterKey },
    SealMasterKey { key: MasterKey, prf_key: [u8; 32], prf_salt: [u8; 32] },
    ParseMasterKeyBackup { bytes: Vec<u8> },
    OpenMasterKey { backup: EncryptedMasterKey, prf_key: [u8; 32] },
    ParseWalletBackup { bytes: Vec<u8> },
    OpenWallet { backup: EncryptedWallet, key: MasterKey },
    ParseMetadata { json: String },
    EncodeMetadata { wallet: WalletMetadata },
    ListNamespaces,
    ListWalletBackups { namespace: String },
    DownloadMasterKeyBackup { namespace: String },
    UploadMasterKeyBackup { namespace: String, bytes: Vec<u8> },
    DownloadWalletBackup { namespace: String, record_id: String },
    UploadWalletBackup { namespace: String, record_id: String, bytes: Vec<u8> },
    DeleteWalletBackup { namespace: String, record_id: String },
    IsBackupUploaded { namespace: String, record_id: String },
    IsPrfSupported,
    DrawPasskeySeed,
    DrawChallenge,
    CreatePasskey { rp_id: &'static str, user_id: [u8; 16], challenge: [u8; 32] },
    AuthenticateWithPrf {
        rp_id: &'static str,
        credential_id: Vec<u8>,
        prf_salt: [u8; 32],
        challenge: [u8; 32],
    },
    DiscoverAndAuthenticate { rp_id: &'static str, prf_salt: [u8; 32], challenge: [u8; 32] },
    ReadClock,
    ReadStatus,
    ReadCloudBackup,
    SaveCloudBackup(CloudBackup),
    ReadPendingUploads,
    SavePendingUploads(PendingCloudUploadVerification),
    DeletePendingUploads,
    ReadMasterKeyRecordId,
    ReadLocalWallets,
    ReadKnownWallets,
    IsDuplicateWallet { wallet: WalletMetadata, known: Vec<KnownWallet> },
    ImportMnemonicWallet { wallet: WalletMetadata, phrase: String },
    ImportDescriptorWallet { wallet: WalletMetadata, backup: WalletBackup },
    BuildDetail { record_ids: Vec<String> },
    RunVerificationSession { force_discoverable: bool },
    RunWrapperRepair {
        namespace: String,
        key: MasterKey,
        record_ids: Vec<String>,
        strategy: WrapperRepairStrategy,
    },
    /// Runs another operation.
    Call(Operation),
}

/// What comes back for a request.
pub enum Reply {
    Keychain(Option<String>),
    Written(Result<(), String>),
    Text(Result<Option<String>, String>),
    Backup(Result<Option<Vec<u8>>, String>),
    Descriptors(Result<Option<DescriptorPair>, String>),
    Flag(bool),
    MasterKey(Result<MasterKey, String>),
    StoredMasterKey(Result<Option<MasterKey>, String>),
    Sealed(Result<Vec<u8>, SealError>),
    MasterKeyBackup(Result<EncryptedMasterKey, String>),
    WalletBackup(Result<EncryptedWallet, String>),
    Wallet(Result<WalletEntry, String>),
    Metadata(Result<WalletMetadata, String>),
    Json(Result<String, String>),
    Listed(Result<Vec<String>, CloudStorageError>),
    Downloaded(Result<Vec<u8>, CloudStorageError>),
    Stored(Result<(), CloudStorageError>),
    Uploaded(Result<bool, CloudStorageError>),
    Seed(PasskeySeed),
    Challenge([u8; 32]),
    Passkey(Result<Vec<u8>, PasskeyFailure>),
    Discovered(Result<DiscoveredPasskey, PasskeyFailure>),
    Time(u64),
    Status(CloudBackupStatus),
    CloudBackup(CloudBackup),
    PendingUploads(Result<Option<PendingCloudUploadVerification>, String>),
    RecordId(String),
    LocalWallets(Vec<WalletMetadata>),
    KnownWallets(Result<Vec<KnownWallet>, String>),
    Duplicate(Result<bool, String>),
    Detail(CloudBackupDetail),
    Verification(Result<DeepVerificationResult, CloudBackupError>),
    Repaired(Result<(), CloudBackupError>),
    Returned(Outcome),
}

/// What an operation does on its way without waiting for a reply.
#[derive(Debug)]
pub enum Effect {
    Notify(CloudBackupReconcileMessage),
    Update(StateChange),
    ForgetKeychain(KeychainKey),
    ResetMasterKeyCache,
    StartUploadVerifier,
}

/// One step of an operation.
pub enum Progress<F, T> {
    /// The effects take place, then the request is made; its reply goes to `flow`.
    Ask { flow: F, effects: Vec<Effect>, request: Request },
    /// The effects take place, and the operation is over.
    Done { effects: Vec<Effect>, value: T },
    /// The reply is not one that `flow` can take: nothing happened.
    Refused { flow: F },
}

/// One step of an operation that can fail.
pub type Attempt<F, T> = Progress<F, Result<T, CloudBackupError>>;

/// The effect that announces a status.
pub open spec fn announces(status: CloudBackupStatus) -> Effect {
    Effect::Notify(CloudBackupReconcileMessage::StatusChanged(status))
}

/// The effect that announces whether uploads are still being watched.
pub open spec fn announces_pending(pending: bool) -> Effect {
    Effect::Notify(CloudBackupReconcileMessage::PendingUploadVerificationChanged { pending })
}

impl<F, T> Progress<F, T> {
    /// `flow` waits for the reply to `request`, after `effects`.
    pub open spec fn asks_after(self, effects: Seq<Effect>, flow: F, request: Request) -> bool {
        &&& self matches Progress::Ask { flow: f, effects: done, request: r }
        &&& f == flow
        &&& done@ == effects
        &&& r == request
    }

    /// `flow` waits for the reply to `request`.
    pub open spec fn asks(self, flow: F, request: Request) -> bool {
        self.asks_after(Seq::empty(), flow, request)
    }

    /// The operation is over with `value`, after `effects`.
    pub open spec fn ends_after(self, effects: Seq<Effect>, value: T) -> bool {
        &&& self matches Progress::Done { effects: done, value: v }
        &&& done@ == effects
        &&& v == value
    }

    /// The operation is over with `value`.
    pub open spec fn ends(self, value: T) -> bool {
        self.ends_after(Seq::empty(), value)
    }

    /// The reply is not one that `flow` can take.
    pub open spec fn refuses(self, flow: F) -> bool {
        self == Progress::<F, T>::Refused { flow }
    }

    /// Waits for the reply to `request`.
    pub fn ask(flow: F, request: Request) -> (progress: Self)
        ensures
            progress.asks(flow, request),
    {
        Progress::Ask { flow, effects: Vec::new(), request }
    }

    /// Ends with `value`.
    pub fn end(value: T) -> (progress: Self)
        ensures
            progress.ends(value),
    {
        Progress::Done { effects: Vec::new(), value }
    }
}

/// The operation is over with an error, without effects.
pub open spec fn fails<F, T>(progress: Attempt<F, T>, error: CloudBackupErrorView) -> bool {
    &&& progress matches Progress::Done { effects, value: Err(failure) }
    &&& effects@ == Seq::<Effect>::empty()
    &&& failure@ == error
}

/// The operation failed.
pub fn fail<F, T>(error: CloudBackupError) -> (progress: Attempt<F, T>)
    ensures
        fails(progress, error@),
{
    Progress::Done { effects: Vec::new(), value: Err(error) }
}

/// The error of a keychain that names no namespace.
pub open spec fn namespace_missing() -> CloudBackupErrorView {
    CloudBackupErrorView::Internal("namespace_id not found in keychain"@)
}

/// The namespace that the keychain names.
pub fn current_namespace_id(stored: Option<String>) -> (namespace: Result<String, CloudBackupError>)
    ensures
        match stored {
            Some(id) => namespace == Ok::<String, CloudBackupError>(id),
            None => namespace matches Err(error) && error@ == namespace_missing(),
        },
{
    match stored {
        Some(id) => Ok(id),
        None => Err(CloudBackupError::Internal("namespace_id not found in keychain".to_string())),
    }
}

/// A list of one effect.
pub fn one_effect(effect: Effect) -> (effects: Vec<Effect>)
    ensures
        effects@ == seq![effect],
{
    let mut effects: Vec<Effect> = Vec::new();
    effects.push(effect);
    effects
}

/// A list of two effects.
pub fn two_effects(first: Effect, second: Effect) -> (effects: Vec<Effect>)
    ensures
        effects@ == seq![first, second],
{
    let mut effects: Vec<Effect> = Vec::new();
    effects.push(first);
    effects.push(second);
    effects
}

/// The effect that announces a status.
pub fn announce(status: CloudBackupStatus) -> (effect: Effect)
    ensures
        effect == announces(status),
{
    Effect::Notify(CloudBackupReconcileMessage::StatusChanged(status))
}

/// The effect that announces whether uploads are still being watched.
pub fn announce_pending(pending: bool) -> (effect: Effect)
    ensures
        effect == announces_pending(pending),
{
    Effect::Notify(CloudBackupReconcileMessage::PendingUploadVerificationChanged { pending })
}

impl Request {
    /// Whether the request shows passkey dialogues to the user, or runs an operation that may.
    pub open spec fn is_interactive(self) -> bool {
        match self {
            Request::CreatePasskey { .. } => true,
            Request::AuthenticateWithPrf { .. } => true,
            Request::DiscoverAndAuthenticate { .. } => true,
            Request::RunVerificationSession { .. } => true,
            Request::RunWrapperRepair { .. } => true,
            Request::Call(operation) => operation.is_interactive(),
            _ => false,
        }
    }
}

impl Operation {
    /// Whether the operation may show passkey dialogues to the user.
    pub open spec fn is_interactive(self) -> bool {
        match self {
            Operation::ObtainPrfKey => true,
            Operation::CreatePrfKey => true,
            Operation::Authenticate { .. } => true,
            Operation::Enable => true,
            Operation::RestoreAll => true,
            Operation::DeepVerify { .. } => true,
            Operation::RepairPasskey { .. } => true,
            Operation::HandleVerification { .. } => true,
            Operation::HandleRecovery { .. } => true,
            Operation::HandleRepair { .. } => true,
            _ => false,
        }
    }
}

impl Operation {
    /// Whether the operation can give back `outcome`.
    pub open spec fn gives_back(self, outcome: Outcome) -> bool {
        match self {
            Operation::BuildWalletEntry { .. } => outcome is Entry,
            Operation::UploadWallets { .. } => outcome is Uploaded,
            Operation::BackupWallets { .. } => outcome is Finished,
            Operation::SyncUnsyncedWallets => outcome is Finished,
            Operation::ReuploadAllWallets => outcome is Finished,
            Operation::PersistEnabled { .. } => outcome is Finished,
            Operation::EnqueueUploads { .. } => outcome is Finished,
            Operation::RemoveUploads { .. } => outcome is Finished,
            Operation::VerifyPendingUploads => outcome is StillPending,
            Operation::ObtainPrfKey => outcome is PrfKey,
            Operation::CreatePrfKey => outcome is PrfKey,
            Operation::Authenticate { .. } => outcome is Authenticated,
            Operation::Enable => outcome is Finished,
            Operation::RestoreWallet { .. } => outcome is WalletRestored,
            Operation::RestoreCloudWallet { .. } => outcome is Finished,
            Operation::RestoreAll => outcome is Finished,
            Operation::FetchCloudOnly => outcome is CloudOnly,
            Operation::DeleteCloudWallet { .. } => outcome is Finished,
            Operation::RefreshDetail => outcome is Detail,
            Operation::VerifyIntegrity => outcome is Integrity,
            Operation::DeepVerify { .. } => outcome is Verification,
            Operation::RepairPasskey { .. } => outcome is Finished,
            Operation::FinalizeRepair => outcome is Finished,
            _ => outcome is Nothing,
        }
    }
}

impl Request {
    /// Whether `reply` is of the kind that the request asks for.
    pub open spec fn answered_by(self, reply: Reply) -> bool {
        match self {
            Request::ReadKeychain(_) => reply is Keychain,
            Request::SaveKeychain { .. } => reply is Written,
            Request::ReadMnemonic { .. } => reply is Text,
            Request::ReadTapSignerBackup { .. } => reply is Backup,
            Request::ReadXpub { .. } => reply is Text,
            Request::ReadDescriptors { .. } => reply is Descriptors,
            Request::HasMasterKey => reply is Flag,
            Request::GetOrCreateMasterKey => reply is MasterKey,
            Request::LoadMasterKey => reply is StoredMasterKey,
            Request::SaveMasterKey(_) => reply is Written,
            Request::SealWallet { .. } => reply is Sealed,
            Request::SealMasterKey { .. } => reply is Sealed,
            Request::ParseMasterKeyBackup { .. } => reply is MasterKeyBackup,
            Request::OpenMasterKey { .. } => reply is MasterKey,
            Request::ParseWalletBackup { .. } => reply is WalletBackup,
            Request::OpenWallet { .. } => reply is Wallet,
            Request::ParseMetadata { .. } => reply is Metadata,
            Request::EncodeMetadata { .. } => reply is Json,
            Request::ListNamespaces => reply is Listed,
            Request::ListWalletBackups { .. } => reply is Listed,
            Request::DownloadMasterKeyBackup { .. } => reply is Downloaded,
            Request::UploadMasterKeyBackup { .. } => reply is Stored,
            Request::DownloadWalletBackup { .. } => reply is Downloaded,
            Request::UploadWalletBackup { .. } => reply is Stored,
            Request::DeleteWalletBackup { .. } => reply is Stored,
            Request::IsBackupUploaded { .. } => reply is Uploaded,
            Request::IsPrfSupported => reply is Flag,
            Request::DrawPasskeySeed => reply is Seed,
            Request::DrawChallenge => reply is Challenge,
            Request::CreatePasskey { .. } => reply is Passkey,
            Request::AuthenticateWithPrf { .. } => reply is Passkey,
            Request::DiscoverAndAuthenticate { .. } => reply is Discovered,
            Request::ReadClock => reply is Time,
            Request::ReadStatus => reply is Status,
            Request::ReadCloudBackup => reply is CloudBackup,
            Request::SaveCloudBackup(_) => reply is Written,
            Request::ReadPendingUploads => reply is PendingUploads,
            Request::SavePendingUploads(_) => reply is Written,
            Request::DeletePendingUploads => reply is Written,
            Request::ReadMasterKeyRecordId => reply is RecordId,
            Request::ReadLocalWallets => reply is LocalWallets,
            Request::ReadKnownWallets => reply is KnownWallets,
            Request::IsDuplicateWallet { .. } => reply is Duplicate,
            Request::ImportMnemonicWallet { .. } => reply is Written,
            Request::ImportDescriptorWallet { .. } => reply is Written,
            Request::BuildDetail { .. } => reply is Detail,
            Request::RunVerificationSession { .. } => reply is Verification,
            Request::RunWrapperRepair { .. } => reply is Repaired,
            Request::Call(operation) => {
                &&& reply matches Reply::Returned(outcome)
                &&& operation.gives_back(outcome)
            },
        }
    }
}

} // verus!
