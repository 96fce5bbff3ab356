//! What the backup screens start, with the state they show on the way.

pub mod laws;

use vstd::prelude::*;

use crate::error::{CloudBackupError, CloudBackupErrorView};
use crate::protocol::{
    one_effect, two_effects, Effect, Operation, Outcome, Progress, Reply, Request,
    WrapperRepairStrategy,
};
use crate::state::{
    CloudBackupDetailResult, CloudBackupReconcileMessage, DeepVerificationResult, RecoveryAction,
    StateChange,
};

verus! {

/// The effects of one change of the state.
pub open spec fn changes(change: StateChange) -> Seq<Effect> {
    seq![Effect::Update(change)]
}

/// The effects of one change of the state.
fn updating(change: StateChange) -> (effects: Vec<Effect>)
    ensures
        effects@ == changes(change),
{
    one_effect(Effect::Update(change))
}

/// The end of a recovery that failed.
pub open spec fn recovery_failed<F>(
    action: RecoveryAction,
    error: CloudBackupErrorView,
    progress: Progress<F, ()>,
) -> bool {
    &&& progress matches Progress::Done { effects, value: () }
    &&& effects@.len() == 1
    &&& effects@[0] matches Effect::Update(
        StateChange::RecoveryFailed { action: failed, error: text },
    )
    &&& failed == action
    &&& text@ == error.message()
}

/// The end of a recovery that failed.
fn fail_recovery<F>(action: RecoveryAction, error: CloudBackupError) -> (progress: Progress<F, ()>)
    ensures
        recovery_failed(action, error@, progress),
{
    let text: String = error.message();
    Progress::Done {
        effects: updating(StateChange::RecoveryFailed { action, error: text }),
        value: (),
    }
}

/// Shows a verification and its result.
pub enum HandleVerificationFlow {
    Verify,
}

impl HandleVerificationFlow {
    /// What follows a reply. A backup that is not enabled has no result to show.
    pub open spec fn next(self, reply: Reply, progress: Progress<Self, ()>) -> bool {
        match reply {
            Reply::Returned(Outcome::Verification(DeepVerificationResult::NotEnabled)) =>
                progress.ends(()),
            Reply::Returned(Outcome::Verification(result)) => progress.ends_after(
                changes(StateChange::VerificationFinished(result)),
                (),
            ),
            _ => progress.refuses(self),
        }
    }

    /// The first step.
    pub open spec fn began(force_discoverable: bool, progress: Progress<Self, ()>) -> bool {
        progress.asks_after(
            changes(StateChange::VerificationStarted),
            HandleVerificationFlow::Verify,
            Request::Call(Operation::DeepVerify { force_discoverable }),
        )
    }

    /// Shows that a verification runs, and runs it.
    pub fn start(force_discoverable: bool) -> (progress: Progress<Self, ()>)
        ensures
            Self::began(force_discoverable, progress),
    {
        Progress::Ask {
            flow: HandleVerificationFlow::Verify,
            effects: updating(StateChange::VerificationStarted),
            request: Request::Call(Operation::DeepVerify { force_discoverable }),
        }
    }

    /// Goes on with a reply.
    pub fn step(self, reply: Reply) -> (progress: Progress<Self, ()>)
        ensures
            self.next(reply, progress),
    {
        match reply {
            Reply::Returned(Outcome::Verification(DeepVerificationResult::NotEnabled)) =>
                Progress::end(()),
            Reply::Returned(Outcome::Verification(result)) => Progress::Done {
                effects: updating(StateChange::VerificationFinished(result)),
                value: (),
            },
            _ => Progress::Refused { flow: self },
        }
    }
}

/// Shows a recovery, and verifies the backup once it is recovered.
pub enum HandleRecoveryFlow {
    Recover { action: RecoveryAction },
    Verify,
}

impl HandleRecoveryFlow {
    /// The operation that a recovery runs.
    pub open spec fn operation(action: RecoveryAction) -> Operation {
        match action {
            RecoveryAction::RecreateManifest => Operation::ReuploadAllWallets,
            RecoveryAction::ReinitializeBackup => Operation::Enable,
            RecoveryAction::RepairPasskey => Operation::RepairPasskey {
                strategy: WrapperRepairStrategy::DiscoverOrCreate,
            },
        }
    }

    /// What follows a reply.
    pub open spec fn next(self, reply: Reply, progress: Progress<Self, ()>) -> bool {
        match (self, reply) {
            (
                HandleRecoveryFlow::Recover { action },
                Reply::Returned(Outcome::Finished(Ok(_))),
            ) => progress.asks_after(
                changes(StateChange::RecoveryFinished),
                HandleRecoveryFlow::Verify,
                Request::Call(Operation::HandleVerification { force_discoverable: false }),
            ),
            (
                HandleRecoveryFlow::Recover { action },
                Reply::Returned(Outcome::Finished(Err(error))),
            ) => recovery_failed(action, error@, progress),
            (HandleRecoveryFlow::Verify, Reply::Returned(Outcome::Nothing)) => progress.ends(()),
            _ => progress.refuses(self),
        }
    }

    /// The first step.
    pub open spec fn began(action: RecoveryAction, progress: Progress<Self, ()>) -> bool {
        progress.asks_after(
            changes(StateChange::RecoveryStarted(action)),
            HandleRecoveryFlow::Recover { action },
            Request::Call(Self::operation(action)),
        )
    }

    /// Shows that a recovery runs, and runs it.
    pub fn start(action: RecoveryAction) -> (progress: Progress<Self, ()>)
        ensures
            Self::began(action, progress),
    {
        let operation: Operation = match action {
            RecoveryAction::RecreateManifest => Operation::ReuploadAllWallets,
            RecoveryAction::ReinitializeBackup => Operation::Enable,
            RecoveryAction::RepairPasskey => Operation::RepairPasskey {
                strategy: WrapperRepairStrategy::DiscoverOrCreate,
            },
        };
        Progress::Ask {
            flow: HandleRecoveryFlow::Recover { action },
            effects: updating(StateChange::RecoveryStarted(action)),
            request: Request::Call(operation),
        }
    }

    /// Goes on with a reply.
    pub fn step(self, reply: Reply) -> (progress: Progress<Self, ()>)
        ensures
            self.next(reply, progress),
    {
        match (self, reply) {
            (HandleRecoveryFlow::Recover { .. }, Reply::Returned(Outcome::Finished(Ok(_)))) =>
                Progress::Ask {
                flow: HandleRecoveryFlow::Verify,
                effects: updating(StateChange::RecoveryFinished),
                request: Request::Call(
                    Operation::HandleVerification { force_discoverable: false },
                ),
            },
            (
                HandleRecoveryFlow::Recover { action },
                Reply::Returned(Outcome::Finished(Err(error))),
            ) => fail_recovery(action, error),
            (HandleRecoveryFlow::Verify, Reply::Returned(Outcome::Nothing)) => Progress::end(()),
            (flow, _) => Progress::Refused { flow },
        }
    }
}

/// Shows the repair of the passkey.
#[derive(Debug, Clone, Copy, PartialEq, Eq, Structural)]
pub enum HandleRepairFlow {
    Repair,
    Finish,
}

impl HandleRepairFlow {
    /// How the repair gets its passkey.
    pub open spec fn strategy(no_discovery: bool) -> WrapperRepairStrategy {
        if no_discovery {
            WrapperRepairStrategy::CreateNew
        } else {
            WrapperRepairStrategy::DiscoverOrCreate
        }
    }

    /// What follows a reply. A user who cancels the discovery of a passkey is not shown a failure.
    pub open spec fn next(self, reply: Reply, progress: Progress<Self, ()>) -> bool {
        match (self, reply) {
            (HandleRepairFlow::Repair, Reply::Returned(Outcome::Finished(Ok(_)))) => progress.asks(
                HandleRepairFlow::Finish,
                Request::Call(Operation::FinalizeRepair),
            ),
            (HandleRepairFlow::Repair, Reply::Returned(Outcome::Finished(Err(error)))) =>
                if error is PasskeyDiscoveryCancelled {
                progress.ends_after(
                    seq![
                        Effect::Update(StateChange::RecoveryFinished),
                        Effect::Notify(CloudBackupReconcileMessage::PasskeyDiscoveryCancelled),
                    ],
                    (),
                )
            } else {
                recovery_failed(RecoveryAction::RepairPasskey, error@, progress)
            },
            (HandleRepairFlow::Finish, Reply::Returned(Outcome::Finished(Ok(_)))) =>
                progress.ends_after(changes(StateChange::PasskeyRepaired), ()),
            (HandleRepairFlow::Finish, Reply::Returned(Outcome::Finished(Err(error)))) =>
                recovery_failed(RecoveryAction::RepairPasskey, error@, progress),
            _ => progress.refuses(self),
        }
    }

    /// The first step.
    pub open spec fn began(no_discovery: bool, progress: Progress<Self, ()>) -> bool {
        progress.asks_after(
            changes(StateChange::RecoveryStarted(RecoveryAction::RepairPasskey)),
            HandleRepairFlow::Repair,
            Request::Call(
                Operation::RepairPasskey { strategy: Self::strategy(no_discovery) },
            ),
        )
    }

    /// Shows that a repair runs, and runs it.
    pub fn start(no_discovery: bool) -> (progress: Progress<Self, ()>)
        ensures
            Self::began(no_discovery, progress),
    {
        let strategy: WrapperRepairStrategy = if no_discovery {
            WrapperRepairStrategy::CreateNew
        } else {
            WrapperRepairStrategy::DiscoverOrCreate
        };
        Progress::Ask {
            flow: HandleRepairFlow::Repair,
            effects: updating(StateChange::RecoveryStarted(RecoveryAction::RepairPasskey)),
            request: Request::Call(Operation::RepairPasskey { strategy }),
        }
    }

    /// Goes on with a reply.
    pub fn step(self, reply: Reply) -> (progress: Progress<Self, ()>)
        ensures
            self.next(reply, progress),
    {
        match (self, reply) {
            (HandleRepairFlow::Repair, Reply::Returned(Outcome::Finished(Ok(_)))) => Progress::ask(
                HandleRepairFlow::Finish,
                Request::Call(Operation::FinalizeRepair),
            ),
            (
                HandleRepairFlow::Repair,
                Reply::Returned(
                    Outcome::Finished(Err(CloudBackupError::PasskeyDiscoveryCancelled)),
                ),
            ) => Progress::Done {
                effects: two_effects(
                    Effect::Update(StateChange::RecoveryFinished),
                    Effect::Notify(CloudBackupReconcileMessage::PasskeyDiscoveryCancelled),
                ),
                value: (),
            },
            (HandleRepairFlow::Repair, Reply::Returned(Outcome::Finished(Err(error)))) =>
                fail_recovery(RecoveryAction::RepairPasskey, error),
            (HandleRepairFlow::Finish, Reply::Returned(Outcome::Finished(Ok(_)))) =>
                Progress::Done { effects: updating(StateChange::PasskeyRepaired), value: () },
            (HandleRepairFlow::Finish, Reply::Returned(Outcome::Finished(Err(error)))) =>
                fail_recovery(RecoveryAction::RepairPasskey, error),
            (flow, _) => Progress::Refused { flow },
        }
    }
}

/// Shows a sync, and refreshes the detail after it.
#[derive(Debug, Clone, Copy, PartialEq, Eq, Structural)]
pub enum HandleSyncFlow {
    Sync,
    Refresh,
}

impl HandleSyncFlow {
    /// What follows a reply.
    pub open spec fn next(self, reply: Reply, progress: Progress<Self, ()>) -> bool {
        match (self, reply) {
            (HandleSyncFlow::Sync, Reply::Returned(Outcome::Finished(Ok(_)))) => progress.asks(
                HandleSyncFlow::Refresh,
                Request::Call(Operation::HandleRefreshDetail),
            ),
            (HandleSyncFlow::Sync, Reply::Returned(Outcome::Finished(Err(error)))) => {
                &&& progress matches Progress::Done { effects, value: () }
                &&& effects@.len() == 1
                &&& effects@[0] matches Effect::Update(StateChange::SyncFailed(text))
                &&& text@ == error@.message()
            },
            (HandleSyncFlow::Refresh, Reply::Returned(Outcome::Nothing)) => progress.ends_after(
                changes(StateChange::SyncFinished),
                (),
            ),
            _ => progress.refuses(self),
        }
    }

    /// The first step.
    pub open spec fn began(progress: Progress<Self, ()>) -> bool {
        progress.asks_after(
            changes(StateChange::SyncStarted),
            HandleSyncFlow::Sync,
            Request::Call(Operation::SyncUnsyncedWallets),
        )
    }

    /// Shows that a sync runs, and runs it.
    pub fn start() -> (progress: Progress<Self, ()>)
        ensures
            Self::began(progress),
    {
        Progress::Ask {
            flow: HandleSyncFlow::Sync,
            effects: updating(StateChange::SyncStarted),
            request: Request::Call(Operation::SyncUnsyncedWallets),
        }
    }

    /// Goes on with a reply.
    pub fn step(self, reply: Reply) -> (progress: Progress<Self, ()>)
        ensures
            self.next(reply, progress),
    {
        match (self, reply) {
            (HandleSyncFlow::Sync, Reply::Returned(Outcome::Finished(Ok(_)))) => Progress::ask(
                HandleSyncFlow::Refresh,
                Request::Call(Operation::HandleRefreshDetail),
            ),
            (HandleSyncFlow::Sync, Reply::Returned(Outcome::Finished(Err(error)))) =>
                Progress::Done {
                effects: updating(StateChange::SyncFailed(error.message())),
                value: (),
            },
            (HandleSyncFlow::Refresh, Reply::Returned(Outcome::Nothing)) => Progress::Done {
                effects: updating(StateChange::SyncFinished),
                value: (),
            },
            (flow, _) => Progress::Refused { flow },
        }
    }
}

/// Shows the wallets that only the cloud has.
pub enum HandleFetchCloudOnlyFlow {
    Fetch,
}

impl HandleFetchCloudOnlyFlow {
    /// What follows a reply. A list that could not be fetched shows as empty.
    pub open spec fn next(self, reply: Reply, progress: Progress<Self, ()>) -> bool {
        match reply {
            Reply::Returned(Outcome::CloudOnly(Ok(items))) => progress.ends_after(
                changes(StateChange::CloudOnlyLoaded(items)),
                (),
            ),
            Reply::Returned(Outcome::CloudOnly(Err(_))) => {
                &&& progress matches Progress::Done { effects, value: () }
                &&& effects@.len() == 1
                &&& effects@[0] matches Effect::Update(StateChange::CloudOnlyLoaded(items))
                &&& items@.len() == 0
            },
            _ => progress.refuses(self),
        }
    }

    /// The first step.
    pub open spec fn began(progress: Progress<Self, ()>) -> bool {
        progress.asks_after(
            changes(StateChange::CloudOnlyLoading),
            HandleFetchCloudOnlyFlow::Fetch,
            Request::Call(Operation::FetchCloudOnly),
        )
    }

    /// Shows that the list is being fetched, and fetches it.
    pub fn start() -> (progress: Progress<Self, ()>)
        ensures
            Self::began(progress),
    {
        Progress::Ask {
            flow: HandleFetchCloudOnlyFlow::Fetch,
            effects: updating(StateChange::CloudOnlyLoading),
            request: Request::Call(Operation::FetchCloudOnly),
        }
    }

    /// Goes on with a reply.
    pub fn step(self, reply: Reply) -> (progress: Progress<Self, ()>)
        ensures
            self.next(reply, progress),
    {
        match reply {
            Reply::Returned(Outcome::CloudOnly(Ok(items))) => Progress::Done {
                effects: updating(StateChange::CloudOnlyLoaded(items)),
                value: (),
            },
            Reply::Returned(Outcome::CloudOnly(Err(_))) => Progress::Done {
                effects: updating(StateChange::CloudOnlyLoaded(Vec::new())),
                value: (),
            },
            _ => Progress::Refused { flow: self },
        }
    }
}

/// Shows the restore or the deletion of one wallet that only the cloud has.
pub enum HandleCloudWalletFlow {
    Operate { record_id: String },
    Refresh,
}

impl HandleCloudWalletFlow {
    /// What follows a reply.
    pub open spec fn next(self, reply: Reply, progress: Progress<Self, ()>) -> bool {
        match (self, reply) {
            (
                HandleCloudWalletFlow::Operate { record_id },
                Reply::Returned(Outcome::Finished(Ok(_))),
            ) => progress.asks_after(
                changes(StateChange::CloudOnlyDone { record_id }),
                HandleCloudWalletFlow::Refresh,
                Request::Call(Operation::HandleRefreshDetail),
            ),
            (
                HandleCloudWalletFlow::Operate { record_id },
                Reply::Returned(Outcome::Finished(Err(error))),
            ) => {
                &&& progress matches Progress::Done { effects, value: () }
                &&& effects@.len() == 1
                &&& effects@[0] matches Effect::Update(StateChange::CloudOnlyFailed(text))
                &&& text@ == error@.message()
            },
            (HandleCloudWalletFlow::Refresh, Reply::Returned(Outcome::Nothing)) => progress.ends(
                (),
            ),
            _ => progress.refuses(self),
        }
    }

    /// The first step.
    pub open spec fn began_restore(record_id: String, progress: Progress<Self, ()>) -> bool {
        progress.asks_after(
            changes(StateChange::CloudOnlyOperating { record_id }),
            HandleCloudWalletFlow::Operate { record_id },
            Request::Call(Operation::RestoreCloudWallet { record_id }),
        )
    }

    /// Shows that a wallet is being restored, and restores it.
    pub fn start_restore(record_id: String) -> (progress: Progress<Self, ()>)
        ensures
            Self::began_restore(record_id, progress),
    {
        let shown: String = record_id.clone();
        let restored: String = record_id.clone();
        Progress::Ask {
            flow: HandleCloudWalletFlow::Operate { record_id },
            effects: updating(StateChange::CloudOnlyOperating { record_id: shown }),
            request: Request::Call(Operation::RestoreCloudWallet { record_id: restored }),
        }
    }

    /// The first step.
    pub open spec fn began_delete(record_id: String, progress: Progress<Self, ()>) -> bool {
        progress.asks_after(
            changes(StateChange::CloudOnlyOperating { record_id }),
            HandleCloudWalletFlow::Operate { record_id },
            Request::Call(Operation::DeleteCloudWallet { record_id }),
        )
    }

    /// Shows that a wallet is being deleted, and deletes it.
    pub fn start_delete(record_id: String) -> (progress: Progress<Self, ()>)
        ensures
            Self::began_delete(record_id, progress),
    {
        let shown: String = record_id.clone();
        let deleted: String = record_id.clone();
        Progress::Ask {
            flow: HandleCloudWalletFlow::Operate { record_id },
            effects: updating(StateChange::CloudOnlyOperating { record_id: shown }),
            request: Request::Call(Operation::DeleteCloudWallet { record_id: deleted }),
        }
    }

    /// Goes on with a reply.
    pub fn step(self, reply: Reply) -> (progress: Progress<Self, ()>)
        ensures
            self.next(reply, progress),
    {
        match (self, reply) {
            (
                HandleCloudWalletFlow::Operate { record_id },
                Reply::Returned(Outcome::Finished(Ok(_))),
            ) => Progress::Ask {
                flow: HandleCloudWalletFlow::Refresh,
                effects: updating(StateChange::CloudOnlyDone { record_id }),
                request: Request::Call(Operation::HandleRefreshDetail),
            },
            (
                HandleCloudWalletFlow::Operate { .. },
                Reply::Returned(Outcome::Finished(Err(error))),
            ) => Progress::Done {
                effects: updating(StateChange::CloudOnlyFailed(error.message())),
                value: (),
            },
            (HandleCloudWalletFlow::Refresh, Reply::Returned(Outcome::Nothing)) => Progress::end(
                (),
            ),
            (flow, _) => Progress::Refused { flow },
        }
    }
}

/// Shows a refreshed detail.
pub enum HandleRefreshDetailFlow {
    Refresh,
}

impl HandleRefreshDetailFlow {
    /// What follows a reply. A detail that could not be refreshed stays as it is shown.
    pub open spec fn next(self, reply: Reply, progress: Progress<Self, ()>) -> bool {
        match reply {
            Reply::Returned(Outcome::Detail(Some(CloudBackupDetailResult::Success(detail)))) =>
                progress.ends_after(changes(StateChange::DetailRefreshed(detail)), ()),
            Reply::Returned(Outcome::Detail(_)) => progress.ends(()),
            _ => progress.refuses(self),
        }
    }

    /// The first step.
    pub open spec fn began(progress: Progress<Self, ()>) -> bool {
        progress.asks(
            HandleRefreshDetailFlow::Refresh,
            Request::Call(Operation::RefreshDetail),
        )
    }

    /// Refreshes the detail.
    pub fn start() -> (progress: Progress<Self, ()>)
        ensures
            Self::began(progress),
    {
        Progress::ask(HandleRefreshDetailFlow::Refresh, Request::Call(Operation::RefreshDetail))
    }

    /// Goes on with a reply.
    pub fn step(self, reply: Reply) -> (progress: Progress<Self, ()>)
        ensures
            self.next(reply, progress),
    {
        match reply {
            Reply::Returned(Outcome::Detail(Some(CloudBackupDetailResult::Success(detail)))) =>
                Progress::Done {
                effects: updating(StateChange::DetailRefreshed(detail)),
                value: (),
            },
            Reply::Returned(Outcome::Detail(_)) => Progress::end(()),
            _ => Progress::Refused { flow: self },
        }
    }
}

} // verus!
