//! What the device remembers of its cloud backup between runs.

use vstd::prelude::*;

verus! {

/// The configuration's record of the cloud backup.
#[derive(Debug, Clone, Copy, PartialEq, Eq, Structural)]
pub enum CloudBackup {
    Disabled,
    Enabled { last_sync: Option<u64>, wallet_count: Option<u32> },
    Unverified { last_sync: Option<u64>, wallet_count: Option<u32> },
    PasskeyMissing { last_sync: Option<u64>, wallet_count: Option<u32> },
}

/// How a failed integrity check lowers the record.
#[derive(Debug, Clone, Copy, PartialEq, Eq, Structural)]
pub enum IntegrityDowngrade {
    Unverified,
}

impl CloudBackup {
    /// When the wallets were last synced.
    pub open spec fn last_sync(self) -> Option<u64> {
        match self {
            CloudBackup::Disabled => None,
            CloudBackup::Enabled { last_sync, .. } => last_sync,
            CloudBackup::Unverified { last_sync, .. } => last_sync,
            CloudBackup::PasskeyMissing { last_sync, .. } => last_sync,
        }
    }

    /// How many wallets the backup holds.
    pub open spec fn wallet_count(self) -> Option<u32> {
        match self {
            CloudBackup::Disabled => None,
            CloudBackup::Enabled { wallet_count, .. } => wallet_count,
            CloudBackup::Unverified { wallet_count, .. } => wallet_count,
            CloudBackup::PasskeyMissing { wallet_count, .. } => wallet_count,
        }
    }

    /// The number of wallets that a further upload adds to: an unknown number, and that of a
    /// backup whose passkey is missing, count as 0.
    pub open spec fn synced_count(self) -> u32 {
        match self {
            CloudBackup::Enabled { wallet_count: Some(count), .. } => count,
            CloudBackup::Unverified { wallet_count: Some(count), .. } => count,
            _ => 0,
        }
    }

    /// The record after an integrity check passed, if it changes.
    pub open spec fn promoted(self) -> Option<CloudBackup> {
        match self {
            CloudBackup::Unverified { last_sync, wallet_count } => Some(
                CloudBackup::Enabled { last_sync, wallet_count },
            ),
            _ => None,
        }
    }

    /// The record after an integrity check failed, if it changes.
    pub open spec fn downgraded(self, downgrade: IntegrityDowngrade) -> Option<CloudBackup> {
        match self {
            CloudBackup::Enabled { last_sync, wallet_count } => Some(
                CloudBackup::Unverified { last_sync, wallet_count },
            ),
            _ => None,
        }
    }

    /// When the wallets were last synced.
    pub fn get_last_sync(&self) -> (last_sync: Option<u64>)
        ensures
            last_sync == self.last_sync(),
    {
        match self {
            CloudBackup::Enabled { last_sync, .. }
            | CloudBackup::Unverified { last_sync, .. }
            | CloudBackup::PasskeyMissing { last_sync, .. } => *last_sync,
            CloudBackup::Disabled => None,
        }
    }

    /// The number of wallets that a further upload adds to.
    pub fn get_synced_count(&self) -> (count: u32)
        ensures
            count == self.synced_count(),
    {
        match self {
            CloudBackup::Enabled { wallet_count: Some(count), .. }
            | CloudBackup::Unverified { wallet_count: Some(count), .. } => *count,
            _ => 0,
        }
    }
}

/// The record after an integrity check passed, or `None` if it stays as it is.
pub fn promote_cloud_backup_state_after_integrity_pass(current: &CloudBackup) -> (updated: Option<
    CloudBackup,
>)
    ensures
        updated == current.promoted(),
{
    match current {
        CloudBackup::Unverified { last_sync, wallet_count } => Some(
            CloudBackup::Enabled { last_sync: *last_sync, wallet_count: *wallet_count },
        ),
        CloudBackup::Enabled { .. }
        | CloudBackup::PasskeyMissing { .. }
        | CloudBackup::Disabled => None,
    }
}

/// The record after an integrity check failed, or `None` if it stays as it is.
pub fn downgrade_cloud_backup_state(
    current: &CloudBackup,
    downgrade: IntegrityDowngrade,
) -> (updated: Option<CloudBackup>)
    ensures
        updated == current.downgraded(downgrade),
{
    match downgrade {
        IntegrityDowngrade::Unverified => match current {
            CloudBackup::Enabled { last_sync, wallet_count } => Some(
                CloudBackup::Unverified { last_sync: *last_sync, wallet_count: *wallet_count },
            ),
            CloudBackup::Unverified { .. }
            | CloudBackup::PasskeyMissing { .. }
            | CloudBackup::Disabled => None,
        },
    }
}

/// A check that passes undoes what a failed one did to the record, and the other way round.
pub proof fn law_promotion_undoes_downgrade(current: CloudBackup, downgrade: IntegrityDowngrade)
    ensures
        current.downgraded(downgrade) matches Some(lowered) ==> lowered.promoted() == Some(current),
        current.promoted() matches Some(raised) ==> raised.downgraded(downgrade) == Some(current),
{
}

/// Neither a passed nor a failed check touches the sync time and the wallet count, takes the record
/// out of `Disabled`, or hides that the passkey is missing.
pub proof fn law_integrity_keeps_counts(current: CloudBackup, downgrade: IntegrityDowngrade)
    ensures
        current.promoted() matches Some(raised) ==> {
            &&& raised.last_sync() == current.last_sync()
            &&& raised.wallet_count() == current.wallet_count()
        },
        current.downgraded(downgrade) matches Some(lowered) ==> {
            &&& lowered.last_sync() == current.last_sync()
            &&& lowered.wallet_count() == current.wallet_count()
        },
        current is Disabled || current is PasskeyMissing ==> current.promoted() is None
            && current.downgraded(downgrade) is None,
{
}

/// The stage that the database records for the cloud backup.
#[derive(Debug, Clone, Copy, PartialEq, Eq, Structural)]
pub enum PersistedCloudBackupStatus {
    Disabled,
    Enabled,
    Unverified,
    PasskeyMissing,
}

/// The database's record of the cloud backup.
#[derive(Debug, Clone, Copy, PartialEq, Eq, Structural)]
pub struct PersistedCloudBackupState {
    pub status: PersistedCloudBackupStatus,
    pub wallet_count: Option<u32>,
    pub last_verified_at: Option<u64>,
    pub last_verification_requested_at: Option<u64>,
    pub last_verification_dismissed_at: Option<u64>,
}

/// The database's record, and whether the database holds that the user is due a prompt to verify.
#[derive(Debug, Clone, Copy, PartialEq, Eq, Structural)]
pub struct PersistedSnapshot {
    pub record: PersistedCloudBackupState,
    pub should_prompt_verification: bool,
}

impl PersistedCloudBackupState {
    /// The record of a device that never had a backup.
    pub open spec fn unused() -> Self {
        PersistedCloudBackupState {
            status: PersistedCloudBackupStatus::Disabled,
            wallet_count: None,
            last_verified_at: None,
            last_verification_requested_at: None,
            last_verification_dismissed_at: None,
        }
    }

    /// Whether a backup is set up, verified or not.
    pub fn is_configured(&self) -> (configured: bool)
        ensures
            configured == !(self.status is Disabled),
    {
        match self.status {
            PersistedCloudBackupStatus::Disabled => false,
            PersistedCloudBackupStatus::Enabled
            | PersistedCloudBackupStatus::Unverified
            | PersistedCloudBackupStatus::PasskeyMissing => true,
        }
    }

    /// Whether the backup is set up but not verified.
    pub fn is_unverified(&self) -> (unverified: bool)
        ensures
            unverified == (self.status is Unverified),
    {
        matches!(self.status, PersistedCloudBackupStatus::Unverified)
    }

    /// Whether the backup's passkey is missing.
    pub fn is_passkey_missing(&self) -> (missing: bool)
        ensures
            missing == (self.status is PasskeyMissing),
    {
        matches!(self.status, PersistedCloudBackupStatus::PasskeyMissing)
    }

    /// The record with another wallet count.
    pub fn with_wallet_count(self, wallet_count: Option<u32>) -> (updated: Self)
        ensures
            updated == (PersistedCloudBackupState { wallet_count, ..self }),
    {
        PersistedCloudBackupState { wallet_count, ..self }
    }

    /// The record after the user dismissed the prompt to verify, if one was requested.
    pub fn with_prompt_dismissed(self, now: u64) -> (updated: Option<Self>)
        ensures
            updated == if self.last_verification_requested_at is None {
                None
            } else {
                Some(
                    PersistedCloudBackupState { last_verification_dismissed_at: Some(now), ..self },
                )
            },
    {
        if self.last_verification_requested_at.is_none() {
            return None;
        }
        Some(PersistedCloudBackupState { last_verification_dismissed_at: Some(now), ..self })
    }
}

impl Default for PersistedCloudBackupState {
    fn default() -> (state: Self)
        ensures
            state == PersistedCloudBackupState::unused(),
    {
        PersistedCloudBackupState {
            status: PersistedCloudBackupStatus::Disabled,
            wallet_count: None,
            last_verified_at: None,
            last_verification_requested_at: None,
            last_verification_dismissed_at: None,
        }
    }
}

/// What a read of the database gives; a read that failed counts as a device without a backup.
pub open spec fn loaded(read: Result<PersistedSnapshot, String>) -> PersistedSnapshot {
    match read {
        Ok(found) => found,
        Err(_) => PersistedSnapshot {
            record: PersistedCloudBackupState::unused(),
            should_prompt_verification: false,
        },
    }
}

/// What a read of the database gives.
pub fn load_persisted_state(
    read: Result<PersistedSnapshot, String>,
) -> (snapshot: PersistedSnapshot)
    ensures
        snapshot == loaded(read),
{
    match read {
        Ok(found) => found,
        Err(_) => PersistedSnapshot {
            record: PersistedCloudBackupState::default(),
            should_prompt_verification: false,
        },
    }
}

/// A record holds the sync time and the wallet count that it was written with, and a device without
/// a backup holds neither. The wallets of a backup whose passkey is missing are counted anew.
pub proof fn law_record_holds_time_and_count(last_sync: Option<u64>, wallet_count: Option<u32>)
    ensures
        (CloudBackup::Enabled { last_sync, wallet_count }).last_sync() == last_sync,
        (CloudBackup::Unverified { last_sync, wallet_count }).last_sync() == last_sync,
        (CloudBackup::PasskeyMissing { last_sync, wallet_count }).last_sync() == last_sync,
        CloudBackup::Disabled.last_sync() is None,
        (CloudBackup::Enabled { last_sync, wallet_count }).wallet_count() == wallet_count,
        (CloudBackup::Unverified { last_sync, wallet_count }).wallet_count() == wallet_count,
        (CloudBackup::PasskeyMissing { last_sync, wallet_count }).wallet_count() == wallet_count,
        CloudBackup::Disabled.wallet_count() is None,
        wallet_count matches Some(count) ==> {
            &&& (CloudBackup::Enabled { last_sync, wallet_count }).synced_count() == count
            &&& (CloudBackup::Unverified { last_sync, wallet_count }).synced_count() == count
        },
        wallet_count is None ==> {
            &&& (CloudBackup::Enabled { last_sync, wallet_count }).synced_count() == 0
            &&& (CloudBackup::Unverified { last_sync, wallet_count }).synced_count() == 0
        },
        (CloudBackup::PasskeyMissing { last_sync, wallet_count }).synced_count() == 0,
        CloudBackup::Disabled.synced_count() == 0,
{
}

/// A passed check raises exactly the unverified record, to an enabled one; a failed check lowers
/// exactly the enabled record, to an unverified one. Time and count stay.
pub proof fn law_checks_move_between_enabled_and_unverified(
    current: CloudBackup,
    downgrade: IntegrityDowngrade,
)
    ensures
        match current {
            CloudBackup::Unverified { last_sync, wallet_count } => {
                &&& current.promoted() == Some(CloudBackup::Enabled { last_sync, wallet_count })
                &&& current.downgraded(downgrade) is None
            },
            CloudBackup::Enabled { last_sync, wallet_count } => {
                &&& current.promoted() is None
                &&& current.downgraded(downgrade) == Some(
                    CloudBackup::Unverified { last_sync, wallet_count },
                )
            },
            _ => current.promoted() is None && current.downgraded(downgrade) is None,
        },
{
}

/// A database that can be read is believed, and one that cannot be read shows no backup, no count,
/// no time and no prompt.
pub proof fn law_unreadable_database_shows_no_backup(read: Result<PersistedSnapshot, String>)
    ensures
        match read {
            Ok(found) => loaded(read) == found,
            Err(_) => {
                &&& loaded(read).record.status is Disabled
                &&& loaded(read).record.wallet_count is None
                &&& loaded(read).record.last_verified_at is None
                &&& loaded(read).record.last_verification_requested_at is None
                &&& loaded(read).record.last_verification_dismissed_at is None
                &&& !loaded(read).should_prompt_verification
            },
        },
{
}

/// A dismissed prompt leaves the time of the dismissal in the record, if a prompt was requested,
/// and touches nothing else.
pub proof fn law_dismissal_is_dated(
    record: PersistedCloudBackupState,
    now: u64,
    updated: Option<PersistedCloudBackupState>,
)
    requires
        call_ensures(PersistedCloudBackupState::with_prompt_dismissed, (record, now), updated),
    ensures
        match record.last_verification_requested_at {
            None => updated is None,
            Some(requested_at) => {
                &&& updated matches Some(written)
                &&& written.last_verification_dismissed_at == Some(now)
                &&& written.last_verification_requested_at == Some(requested_at)
                &&& written.status == record.status
                &&& written.wallet_count == record.wallet_count
                &&& written.last_verified_at == record.last_verified_at
            },
        },
{
}

} // verus!
