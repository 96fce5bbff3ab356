//! What the backup screens show, from the first step of what they start to the last.

use vstd::prelude::*;

use crate::conversation::{continues, is_conversation, lemma_stop_is_last, Stepwise};
use crate::flows::handlers::{
    HandleCloudWalletFlow, HandleFetchCloudOnlyFlow, HandleRecoveryFlow, HandleRefreshDetailFlow,
    HandleRepairFlow, HandleSyncFlow, HandleVerificationFlow,
};
use crate::protocol::{
    Effect, Operation, Outcome, Progress, Reply, Request, WrapperRepairStrategy,
};
use crate::state::{
    CloudBackupDetailResult, CloudBackupReconcileMessage, RecoveryAction, StateChange,
};

verus! {

impl Stepwise for HandleVerificationFlow {
    type Value = ();

    open spec fn follows(self, reply: Reply, progress: Progress<Self, ()>) -> bool {
        self.next(reply, progress)
    }
}

impl Stepwise for HandleRecoveryFlow {
    type Value = ();

    open spec fn follows(self, reply: Reply, progress: Progress<Self, ()>) -> bool {
        self.next(reply, progress)
    }
}

impl Stepwise for HandleRepairFlow {
    type Value = ();

    open spec fn follows(self, reply: Reply, progress: Progress<Self, ()>) -> bool {
        self.next(reply, progress)
    }
}

impl Stepwise for HandleSyncFlow {
    type Value = ();

    open spec fn follows(self, reply: Reply, progress: Progress<Self, ()>) -> bool {
        self.next(reply, progress)
    }
}

impl Stepwise for HandleFetchCloudOnlyFlow {
    type Value = ();

    open spec fn follows(self, reply: Reply, progress: Progress<Self, ()>) -> bool {
        self.next(reply, progress)
    }
}

impl Stepwise for HandleCloudWalletFlow {
    type Value = ();

    open spec fn follows(self, reply: Reply, progress: Progress<Self, ()>) -> bool {
        self.next(reply, progress)
    }
}

impl Stepwise for HandleRefreshDetailFlow {
    type Value = ();

    open spec fn follows(self, reply: Reply, progress: Progress<Self, ()>) -> bool {
        self.next(reply, progress)
    }
}

/// Whether a step, before it waits or ends, makes the one change `change` of what is shown.
pub open spec fn shows<F>(step: Progress<F, ()>, change: StateChange) -> bool {
    match step {
        Progress::Ask { effects, .. } => effects@ == seq![Effect::Update(change)],
        Progress::Done { effects, .. } => effects@ == seq![Effect::Update(change)],
        Progress::Refused { .. } => false,
    }
}

/// Whether a step changes nothing of what is shown.
pub open spec fn shows_nothing<F>(step: Progress<F, ()>) -> bool {
    match step {
        Progress::Ask { effects, .. } => effects@.len() == 0,
        Progress::Done { effects, .. } => effects@.len() == 0,
        Progress::Refused { .. } => true,
    }
}

/// Whether a step shows that `action` failed, with the message `why`.
pub open spec fn shows_failed_recovery<F>(
    step: Progress<F, ()>,
    action: RecoveryAction,
    why: Seq<char>,
) -> bool {
    &&& step matches Progress::Done { effects, .. }
    &&& effects@.len() == 1
    &&& effects@[0] matches Effect::Update(StateChange::RecoveryFailed { action: failed, error })
    &&& failed == action
    &&& error@ == why
}

/// A verification that the user starts is shown as running, is run as the user asked, and its
/// result is shown as it is; that the backup is not on has nothing to show.
pub proof fn law_verification_screen_shows_the_result(
    force_discoverable: bool,
    steps: Seq<Progress<HandleVerificationFlow, ()>>,
    replies: Seq<Reply>,
)
    requires
        HandleVerificationFlow::began(force_discoverable, steps[0]),
        is_conversation(steps, replies),
        steps.last() is Done,
    ensures
        replies.len() == 1,
        shows(steps[0], StateChange::VerificationStarted),
        steps[0].requests(Request::Call(Operation::DeepVerify { force_discoverable })),
        replies[0] matches Reply::Returned(Outcome::Verification(result))
            && if result is NotEnabled {
            shows_nothing(steps[1])
        } else {
            shows(steps[1], StateChange::VerificationFinished(result))
        },
{
    assert(continues(steps[0], replies[0], steps[1]));
    lemma_stop_is_last(steps, replies, 1);
}

/// A recovery is shown as running under its own name and runs what it is for: a new list of the
/// wallets, a backup from the start, or a passkey that is found or made anew. Once it succeeded, it
/// is shown as over and the backup is verified; if it fails, that recovery is shown as failed, and
/// why.
pub proof fn law_recovery_screen_runs_what_it_is_for(
    action: RecoveryAction,
    steps: Seq<Progress<HandleRecoveryFlow, ()>>,
    replies: Seq<Reply>,
)
    requires
        HandleRecoveryFlow::began(action, steps[0]),
        is_conversation(steps, replies),
        steps.last() is Done,
    ensures
        shows(steps[0], StateChange::RecoveryStarted(action)),
        action is RecreateManifest ==> steps[0].requests(
            Request::Call(Operation::ReuploadAllWallets),
        ),
        action is ReinitializeBackup ==> steps[0].requests(Request::Call(Operation::Enable)),
        action is RepairPasskey ==> steps[0].requests(
            Request::Call(
                Operation::RepairPasskey { strategy: WrapperRepairStrategy::DiscoverOrCreate },
            ),
        ),
        replies[0] matches Reply::Returned(Outcome::Finished(result)) && match result {
            Ok(_) => {
                &&& replies.len() == 2
                &&& shows(steps[1], StateChange::RecoveryFinished)
                &&& steps[1].requests(
                    Request::Call(Operation::HandleVerification { force_discoverable: false }),
                )
                &&& shows_nothing(steps[2])
            },
            Err(error) => replies.len() == 1 && shows_failed_recovery(
                steps[1],
                action,
                error@.message(),
            ),
        },
{
    assert(continues(steps[0], replies[0], steps[1]));
    if steps[1] is Ask {
        assert(continues(steps[1], replies[1], steps[2]));
        lemma_stop_is_last(steps, replies, 2);
    } else {
        lemma_stop_is_last(steps, replies, 1);
    }
}

/// A repair is shown as running and gets its passkey as the user asked; once it is made and
/// recorded, the passkey is shown as repaired. A user who cancels is told so, and is shown no
/// failure; any other failure of either part is shown.
pub proof fn law_repair_screen_shows_how_it_went(
    no_discovery: bool,
    steps: Seq<Progress<HandleRepairFlow, ()>>,
    replies: Seq<Reply>,
)
    requires
        HandleRepairFlow::began(no_discovery, steps[0]),
        is_conversation(steps, replies),
        steps.last() is Done,
    ensures
        shows(steps[0], StateChange::RecoveryStarted(RecoveryAction::RepairPasskey)),
        steps[0] matches Progress::Ask {
            request: Request::Call(Operation::RepairPasskey { strategy }),
            ..
        } && (strategy is CreateNew <==> no_discovery),
        replies[0] matches Reply::Returned(Outcome::Finished(repaired)) && match repaired {
            Ok(_) => {
                &&& replies.len() == 2
                &&& steps[1].requests(Request::Call(Operation::FinalizeRepair))
                &&& shows_nothing(steps[1])
                &&& replies[1] matches Reply::Returned(Outcome::Finished(finished))
                &&& match finished {
                    Ok(_) => shows(steps[2], StateChange::PasskeyRepaired),
                    Err(error) => shows_failed_recovery(
                        steps[2],
                        RecoveryAction::RepairPasskey,
                        error@.message(),
                    ),
                }
            },
            Err(error) => {
                &&& replies.len() == 1
                &&& if error is PasskeyDiscoveryCancelled {
                    steps[1] matches Progress::Done { effects, .. } && effects@ == seq![
                        Effect::Update(StateChange::RecoveryFinished),
                        Effect::Notify(CloudBackupReconcileMessage::PasskeyDiscoveryCancelled),
                    ]
                } else {
                    shows_failed_recovery(
                        steps[1],
                        RecoveryAction::RepairPasskey,
                        error@.message(),
                    )
                }
            },
        },
{
    assert(continues(steps[0], replies[0], steps[1]));
    if steps[1] is Ask {
        assert(continues(steps[1], replies[1], steps[2]));
        lemma_stop_is_last(steps, replies, 2);
    } else {
        lemma_stop_is_last(steps, replies, 1);
    }
}

/// A sync is shown as running until what is shown of the backup was refreshed after it, or as
/// failed, and why.
pub proof fn law_sync_screen_shows_how_it_went(
    steps: Seq<Progress<HandleSyncFlow, ()>>,
    replies: Seq<Reply>,
)
    requires
        HandleSyncFlow::began(steps[0]),
        is_conversation(steps, replies),
        steps.last() is Done,
    ensures
        shows(steps[0], StateChange::SyncStarted),
        steps[0].requests(Request::Call(Operation::SyncUnsyncedWallets)),
        replies[0] matches Reply::Returned(Outcome::Finished(synced)) && match synced {
            Ok(_) => {
                &&& replies.len() == 2
                &&& shows_nothing(steps[1])
                &&& steps[1].requests(Request::Call(Operation::HandleRefreshDetail))
                &&& shows(steps[2], StateChange::SyncFinished)
            },
            Err(error) => {
                &&& replies.len() == 1
                &&& steps[1] matches Progress::Done { effects, .. }
                &&& effects@.len() == 1
                &&& effects@[0] matches Effect::Update(StateChange::SyncFailed(text))
                &&& text@ == error@.message()
            },
        },
{
    assert(continues(steps[0], replies[0], steps[1]));
    if steps[1] is Ask {
        assert(continues(steps[1], replies[1], steps[2]));
        lemma_stop_is_last(steps, replies, 2);
    } else {
        lemma_stop_is_last(steps, replies, 1);
    }
}

/// The list of wallets that only the cloud has is shown as loading, and then as it was fetched, or
/// as empty if it could not be.
pub proof fn law_cloud_only_screen_shows_the_list(
    steps: Seq<Progress<HandleFetchCloudOnlyFlow, ()>>,
    replies: Seq<Reply>,
)
    requires
        HandleFetchCloudOnlyFlow::began(steps[0]),
        is_conversation(steps, replies),
        steps.last() is Done,
    ensures
        replies.len() == 1,
        shows(steps[0], StateChange::CloudOnlyLoading),
        steps[0].requests(Request::Call(Operation::FetchCloudOnly)),
        replies[0] matches Reply::Returned(Outcome::CloudOnly(fetched)) && (
        steps[1] matches Progress::Done { effects, .. } && {
            &&& effects@.len() == 1
            &&& effects@[0] matches Effect::Update(StateChange::CloudOnlyLoaded(shown))
            &&& match fetched {
                Ok(items) => shown@ == items@,
                Err(_) => shown@.len() == 0,
            }
        }),
{
    assert(continues(steps[0], replies[0], steps[1]));
    lemma_stop_is_last(steps, replies, 1);
}

/// Restoring or deleting a wallet of the cloud is shown for the record that was given and done to
/// it; once it succeeded, that record is shown as dealt with and the detail is refreshed; if it
/// fails, the failure is shown.
pub proof fn law_cloud_wallet_screen_acts_on_the_given_record(
    record_id: String,
    restore: bool,
    steps: Seq<Progress<HandleCloudWalletFlow, ()>>,
    replies: Seq<Reply>,
)
    requires
        if restore {
            HandleCloudWalletFlow::began_restore(record_id, steps[0])
        } else {
            HandleCloudWalletFlow::began_delete(record_id, steps[0])
        },
        is_conversation(steps, replies),
        steps.last() is Done,
    ensures
        shows(steps[0], StateChange::CloudOnlyOperating { record_id }),
        restore ==> steps[0].requests(Request::Call(Operation::RestoreCloudWallet { record_id })),
        !restore ==> steps[0].requests(Request::Call(Operation::DeleteCloudWallet { record_id })),
        replies[0] matches Reply::Returned(Outcome::Finished(result)) && match result {
            Ok(_) => {
                &&& replies.len() == 2
                &&& shows(steps[1], StateChange::CloudOnlyDone { record_id })
                &&& steps[1].requests(Request::Call(Operation::HandleRefreshDetail))
                &&& shows_nothing(steps[2])
            },
            Err(error) => {
                &&& replies.len() == 1
                &&& steps[1] matches Progress::Done { effects, .. }
                &&& effects@.len() == 1
                &&& effects@[0] matches Effect::Update(StateChange::CloudOnlyFailed(text))
                &&& text@ == error@.message()
            },
        },
{
    assert(continues(steps[0], replies[0], steps[1]));
    if steps[1] is Ask {
        assert(continues(steps[1], replies[1], steps[2]));
        lemma_stop_is_last(steps, replies, 2);
    } else {
        lemma_stop_is_last(steps, replies, 1);
    }
}

/// A detail that could be refreshed is shown, and else what is shown stays.
pub proof fn law_refresh_screen_shows_the_detail(
    steps: Seq<Progress<HandleRefreshDetailFlow, ()>>,
    replies: Seq<Reply>,
)
    requires
        HandleRefreshDetailFlow::began(steps[0]),
        is_conversation(steps, replies),
        steps.last() is Done,
    ensures
        replies.len() == 1,
        shows_nothing(steps[0]),
        steps[0].requests(Request::Call(Operation::RefreshDetail)),
        replies[0] matches Reply::Returned(Outcome::Detail(refreshed)) && match refreshed {
            Some(CloudBackupDetailResult::Success(detail)) => shows(
                steps[1],
                StateChange::DetailRefreshed(detail),
            ),
            _ => shows_nothing(steps[1]),
        },
{
    assert(continues(steps[0], replies[0], steps[1]));
    lemma_stop_is_last(steps, replies, 1);
}

} // verus!
