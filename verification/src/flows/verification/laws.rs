//! What verifying and repairing the backup do, from their first step to their last.

use vstd::prelude::*;

use crate::conversation::{continues, is_conversation, lemma_stop_is_last, Stepwise};
use crate::error::{CloudBackupError, CloudStorageError};
use crate::flows::verification::{
    record_after, DeepVerifyFlow, FinalizeRepairFlow, RepairPasskeyFlow,
};
use crate::protocol::{
    Attempt, Effect, KeychainKey, Operation, Outcome, Progress, Reply, Request,
    WrapperRepairStrategy,
};
use crate::record::CloudBackup;
use crate::state::{
    CloudBackupDetailResult, CloudBackupReconcileMessage, CloudBackupStatus,
    DeepVerificationResult, StateChange,
};

verus! {

impl Stepwise for DeepVerifyFlow {
    type Value = DeepVerificationResult;

    open spec fn follows(
        self,
        reply: Reply,
        progress: Progress<Self, DeepVerificationResult>,
    ) -> bool {
        self.next(reply, progress)
    }
}

impl Stepwise for RepairPasskeyFlow {
    type Value = Result<(), CloudBackupError>;

    open spec fn follows(self, reply: Reply, progress: Attempt<Self, ()>) -> bool {
        self.next(reply, progress)
    }
}

impl Stepwise for FinalizeRepairFlow {
    type Value = Result<(), CloudBackupError>;

    open spec fn follows(self, reply: Reply, progress: Attempt<Self, ()>) -> bool {
        self.next(reply, progress)
    }
}

/// The record that stands after a verification: the one that the result asks for, or else the one
/// that stood before.
pub open spec fn record_left(current: CloudBackup, result: DeepVerificationResult) -> CloudBackup {
    match record_after(current, result) {
        Some(updated) => updated,
        None => current,
    }
}

/// Only a verification that found the whole backup in order makes a record count as verified. One
/// that the user broke off or that failed leaves the backup unverified, one that found no passkey
/// says so, and one that only confirmed the passkey has no say; a backup that is off stays off.
pub proof fn law_only_a_verified_backup_counts_as_verified(
    current: CloudBackup,
    result: DeepVerificationResult,
)
    ensures
        record_left(current, result) is Enabled <==> (result is Verified && !(current is Disabled))
            || (current is Enabled && (result is PasskeyConfirmed || result is NotEnabled)),
        record_left(current, result) is Unverified <==> ((result is UserCancelled
            || result is Failed) && !(current is Disabled)) || (current is Unverified && (
        result is PasskeyConfirmed || result is NotEnabled)),
        record_left(current, result) is PasskeyMissing <==> (result is PasskeyMissing && !(
        current is Disabled)) || (current is PasskeyMissing && (result is PasskeyConfirmed
            || result is NotEnabled)),
        record_left(current, result) is Disabled <==> current is Disabled,
        match (current, record_left(current, result)) {
            (CloudBackup::Disabled, left) => left is Disabled,
            (CloudBackup::Enabled { last_sync, wallet_count }, left) => left.last_sync()
                == last_sync && left.wallet_count() == wallet_count,
            (CloudBackup::Unverified { last_sync, wallet_count }, left) => left.last_sync()
                == last_sync && left.wallet_count() == wallet_count,
            (CloudBackup::PasskeyMissing { last_sync, wallet_count }, left) => left.last_sync()
                == last_sync && left.wallet_count() == wallet_count,
        },
{
}

/// A verification of a backup that is on gives back what the session found, or, if the session
/// could not be run, a failure with that error's message that is safe to retry. A backup that is
/// neither on nor missing its passkey is not verified at all.
pub proof fn law_verification_gives_what_the_session_found(
    force_discoverable: bool,
    steps: Seq<Progress<DeepVerifyFlow, DeepVerificationResult>>,
    replies: Seq<Reply>,
    result: DeepVerificationResult,
)
    requires
        DeepVerifyFlow::began(force_discoverable, steps[0]),
        is_conversation(steps, replies),
        steps.last() matches Progress::Done { value, .. } && value == result,
    ensures
        steps[0].requests(Request::ReadStatus),
        replies[0] matches Reply::Status(status) && if status is Enabled
            || status is PasskeyMissing {
            &&& replies.len() >= 3
            &&& steps[1].requests(Request::RunVerificationSession { force_discoverable })
            &&& replies[1] matches Reply::Verification(found)
            &&& match found {
                Ok(what) => result == what,
                Err(error) => {
                    &&& result matches DeepVerificationResult::Failed(failure)
                    &&& failure.kind is Retry
                    &&& failure.message@ == error@.message()
                    &&& failure.detail is None
                },
            }
        } else {
            replies.len() == 1 && result is NotEnabled
        },
{
    assert(continues(steps[0], replies[0], steps[1]));
    if steps[1] is Ask {
        assert(continues(steps[1], replies[1], steps[2]));
        assert(continues(steps[2], replies[2], steps[3]));
        if steps[3] is Ask {
            assert(continues(steps[3], replies[3], steps[4]));
            lemma_stop_is_last(steps, replies, 4);
        } else {
            lemma_stop_is_last(steps, replies, 3);
        }
    } else {
        lemma_stop_is_last(steps, replies, 1);
    }
}

/// What a verification writes is the record that it read with the verdict of its result: verified,
/// unverified or without passkey, and the same sync time and wallet count. A record that says so
/// already is not written, and a change is announced once it was written, and only then.
pub proof fn law_verification_records_its_verdict(
    force_discoverable: bool,
    steps: Seq<Progress<DeepVerifyFlow, DeepVerificationResult>>,
    replies: Seq<Reply>,
    effects: Vec<Effect>,
    result: DeepVerificationResult,
)
    requires
        DeepVerifyFlow::began(force_discoverable, steps[0]),
        is_conversation(steps, replies),
        steps.last() matches Progress::Done { effects: told, value } && told == effects && value
            == result,
        replies.len() > 1,
    ensures
        steps[2].requests(Request::ReadCloudBackup),
        replies[2] matches Reply::CloudBackup(current) && {
            let verdict = match (current, result) {
                (CloudBackup::Disabled, _) => None,
                (_, DeepVerificationResult::Verified(_)) => Some(
                    CloudBackup::Enabled {
                        last_sync: current.last_sync(),
                        wallet_count: current.wallet_count(),
                    },
                ),
                (_, DeepVerificationResult::PasskeyMissing(_)) => Some(
                    CloudBackup::PasskeyMissing {
                        last_sync: current.last_sync(),
                        wallet_count: current.wallet_count(),
                    },
                ),
                (_, DeepVerificationResult::UserCancelled(_)) => Some(
                    CloudBackup::Unverified {
                        last_sync: current.last_sync(),
                        wallet_count: current.wallet_count(),
                    },
                ),
                (_, DeepVerificationResult::Failed(_)) => Some(
                    CloudBackup::Unverified {
                        last_sync: current.last_sync(),
                        wallet_count: current.wallet_count(),
                    },
                ),
                _ => None,
            };
            match verdict {
                Some(updated) => if updated == current {
                    replies.len() == 3 && effects@.len() == 0
                } else {
                    &&& replies.len() == 4
                    &&& steps[3].requests(Request::SaveCloudBackup(updated))
                    &&& replies[3] matches Reply::Written(written)
                    &&& effects@ == if written is Err {
                        Seq::empty()
                    } else if updated is PasskeyMissing {
                        seq![
                            Effect::Notify(
                                CloudBackupReconcileMessage::StatusChanged(
                                    CloudBackupStatus::PasskeyMissing,
                                ),
                            ),
                        ]
                    } else {
                        seq![
                            Effect::Notify(
                                CloudBackupReconcileMessage::StatusChanged(
                                    CloudBackupStatus::Enabled,
                                ),
                            ),
                        ]
                    }
                },
                None => replies.len() == 3 && effects@.len() == 0,
            }
        },
{
    assert(continues(steps[0], replies[0], steps[1]));
    assert(continues(steps[1], replies[1], steps[2]));
    assert(continues(steps[2], replies[2], steps[3]));
    if steps[3] is Ask {
        assert(continues(steps[3], replies[3], steps[4]));
        lemma_stop_is_last(steps, replies, 4);
    } else {
        lemma_stop_is_last(steps, replies, 3);
    }
}

/// A repair wraps the master key of this device, for the namespace that the keychain names and the
/// wallets that the cloud lists under it, in the way that was asked for; its result is that of the
/// wrapping. A namespace that is gone has no wallets.
pub proof fn law_repair_wraps_the_local_key(
    strategy: WrapperRepairStrategy,
    steps: Seq<Attempt<RepairPasskeyFlow, ()>>,
    replies: Seq<Reply>,
)
    requires
        RepairPasskeyFlow::began(strategy, steps[0]),
        is_conversation(steps, replies),
        steps.last() matches Progress::Done { value: Ok(_), .. },
    ensures
        replies.len() == 4,
        steps[0].requests(Request::ReadKeychain(KeychainKey::NamespaceId)),
        steps[1].requests(Request::LoadMasterKey),
        replies[0] matches Reply::Keychain(Some(named)) && (
        replies[1] matches Reply::StoredMasterKey(Ok(Some(local))) && {
            &&& steps[2].requests(Request::ListWalletBackups { namespace: named })
            &&& steps[3] matches Progress::Ask {
                request: Request::RunWrapperRepair { namespace, key, record_ids, strategy: way },
                ..
            }
            &&& namespace == named
            &&& key == local
            &&& way == strategy
            &&& match replies[2] {
                Reply::Listed(Ok(listed)) => record_ids@ == listed@,
                Reply::Listed(Err(error)) => error is NotFound && record_ids@.len() == 0,
                _ => false,
            }
        }),
        replies[3] matches Reply::Repaired(Ok(_)),
{
    assert(continues(steps[0], replies[0], steps[1]));
    assert(continues(steps[1], replies[1], steps[2]));
    assert(continues(steps[2], replies[2], steps[3]));
    assert(continues(steps[3], replies[3], steps[4]));
    lemma_stop_is_last(steps, replies, 4);
}

/// A repair that cannot be made says why: no namespace, no master key on this device, a cloud that
/// cannot be asked, or what went wrong with the wrapping.
pub proof fn law_failed_repair_says_why(
    strategy: WrapperRepairStrategy,
    steps: Seq<Attempt<RepairPasskeyFlow, ()>>,
    replies: Seq<Reply>,
    error: CloudBackupError,
)
    requires
        RepairPasskeyFlow::began(strategy, steps[0]),
        is_conversation(steps, replies),
        steps.last() matches Progress::Done { value: Err(given), .. } && given == error,
    ensures
        match replies.last() {
            Reply::Keychain(None) => error matches CloudBackupError::Internal(text) && text@
                == "namespace_id not found in keychain"@,
            Reply::StoredMasterKey(Ok(None)) => error matches CloudBackupError::Internal(text)
                && text@ == "no local master key"@,
            Reply::StoredMasterKey(Err(why)) => error matches CloudBackupError::Internal(text)
                && text@ == "load local master key"@ + ": "@ + why@,
            Reply::Listed(Err(CloudStorageError::Other(why))) =>
                error matches CloudBackupError::Cloud(text) && text@ == "list wallet backups"@
                + ": "@ + why@,
            Reply::Repaired(Err(failure)) => error == failure,
            _ => false,
        },
{
    let end = replies.len() - 1;
    assert(continues(steps[end], replies[end], steps[end + 1]));
}

/// A repaired backup is recorded as enabled, with as many wallets as the cloud lists under the
/// keychain's namespace; that is announced, and a detail that could be refreshed is shown.
pub proof fn law_repaired_backup_is_recorded_as_enabled(
    steps: Seq<Attempt<FinalizeRepairFlow, ()>>,
    replies: Seq<Reply>,
)
    requires
        FinalizeRepairFlow::began(steps[0]),
        is_conversation(steps, replies),
        steps.last() matches Progress::Done { value: Ok(_), .. },
    ensures
        replies.len() == 4,
        steps[0].requests(Request::ReadKeychain(KeychainKey::NamespaceId)),
        replies[0] matches Reply::Keychain(Some(namespace)) && steps[1].requests(
            Request::ListWalletBackups { namespace },
        ),
        replies[1] matches Reply::Listed(Ok(listed)) && steps[2].requests(
            Request::Call(Operation::PersistEnabled { wallet_count: listed@.len() as u32 }),
        ),
        replies[2] matches Reply::Returned(Outcome::Finished(Ok(_))),
        steps[3].requests(Request::Call(Operation::RefreshDetail)),
        steps[3] matches Progress::Ask { effects, .. } && effects@ == seq![
            Effect::Notify(
                CloudBackupReconcileMessage::StatusChanged(CloudBackupStatus::Enabled),
            ),
        ],
        steps[4] matches Progress::Done { effects, .. } && (replies[3] matches Reply::Returned(
            Outcome::Detail(refreshed),
        ) && effects@ == match refreshed {
            Some(CloudBackupDetailResult::Success(detail)) => seq![
                Effect::Update(StateChange::DetailRefreshed(detail)),
            ],
            _ => Seq::empty(),
        }),
{
    assert(continues(steps[0], replies[0], steps[1]));
    assert(continues(steps[1], replies[1], steps[2]));
    assert(continues(steps[2], replies[2], steps[3]));
    assert(continues(steps[3], replies[3], steps[4]));
    lemma_stop_is_last(steps, replies, 4);
}

/// A repair that could not be recorded is a failure, in the words of what failed.
pub proof fn law_unrecorded_repair_says_why(
    steps: Seq<Attempt<FinalizeRepairFlow, ()>>,
    replies: Seq<Reply>,
    error: CloudBackupError,
)
    requires
        FinalizeRepairFlow::began(steps[0]),
        is_conversation(steps, replies),
        steps.last() matches Progress::Done { value: Err(given), .. } && given == error,
    ensures
        match replies.last() {
            Reply::Keychain(None) => error is Internal,
            Reply::Listed(Err(why)) => error matches CloudBackupError::Cloud(text) && text@
                == why.text()@,
            Reply::Returned(Outcome::Finished(Err(failure))) => error == failure,
            _ => false,
        },
{
    let end = replies.len() - 1;
    assert(continues(steps[end], replies[end], steps[end + 1]));
}

} // verus!
