//! What holds of every operation, however its requests are answered.

use vstd::prelude::*;

use crate::flows::entry::{WalletEntryFlow, WalletEntryPhase};
use crate::flows::queue::PendingUploadVerifier;
use crate::flows::restore::{RestoreAllFlow, RestoreWalletFlow, RestoreWalletPhase};
use crate::flows::uploads::BackupWalletsFlow;
use crate::frame::Frame;
use crate::machine::{absorbed, Action, MachineView, Pending, Turn};
use crate::mnemonic::parsed_mnemonic;
use crate::protocol::{
    Attempt, Effect, Operation, Outcome, Progress, Reply, Request, RestoredWallet,
};
use crate::wallet::{CloudWalletSecret, KnownWallet, WalletEntry, WalletMetadata};

verus! {

impl Frame {
    /// Whether the operation may show passkey dialogues to the user.
    pub open spec fn is_interactive(self) -> bool {
        match self {
            Frame::PrfKey(_) => true,
            Frame::Authenticate(_) => true,
            Frame::Enable(_) => true,
            Frame::RestoreAll(_) => true,
            Frame::DeepVerify(_) => true,
            Frame::RepairPasskey(_) => true,
            Frame::HandleVerification(_) => true,
            Frame::HandleRecovery(_) => true,
            Frame::HandleRepair(_) => true,
            _ => false,
        }
    }
}

/// Whether a step shows no passkey dialogue and leads to none.
pub open spec fn is_quiet(progress: Progress<Frame, Outcome>) -> bool {
    progress matches Progress::Ask { flow, request, .. } ==> !flow.is_interactive()
        && !request.is_interactive()
}

proof fn lemma_quiet_begin(operation: Operation, progress: Progress<Frame, Outcome>)
    requires
        !operation.is_interactive(),
        Frame::began(operation, progress),
    ensures
        is_quiet(progress),
{
}

proof fn lemma_quiet_step(frame: Frame, reply: Reply, progress: Progress<Frame, Outcome>)
    requires
        !frame.is_interactive(),
        frame.next(reply, progress),
    ensures
        is_quiet(progress),
{
}

/// Whether no operation that a machine runs may show passkey dialogues.
pub open spec fn runs_quietly(machine: MachineView) -> bool {
    &&& forall|i: int|
        0 <= i < machine.stack.len() ==> !(#[trigger] machine.stack[i]).is_interactive()
    &&& machine.pending matches Pending::Begin(operation) ==> !operation.is_interactive()
}

/// An operation that may not show passkey dialogues, such as the check of the backup when the app
/// starts, shows none at any step, nor does any operation that it runs on its behalf.
pub proof fn law_quiet_operations_stay_quiet(
    before: MachineView,
    after: MachineView,
    turn: Turn,
)
    requires
        runs_quietly(before),
        before.steps_to(after, turn),
        before.pending is Deliver ==> before.stack.len() > 0,
    ensures
        runs_quietly(after),
        turn.action matches Action::Perform(request) ==> !request.is_interactive(),
{
    match before.pending {
        Pending::Begin(operation) => {
            let progress = choose|progress| #[trigger]
                Frame::began(operation, progress) && absorbed(before.stack, progress, after, turn);
            lemma_quiet_begin(operation, progress);
        },
        Pending::Deliver(reply) => {
            let progress = choose|progress| #[trigger]
                before.stack.last().next(reply, progress) && absorbed(
                    before.stack.drop_last(),
                    progress,
                    after,
                    turn,
                );
            lemma_quiet_step(before.stack.last(), reply, progress);
        },
        _ => {},
    }
}

/// What runs without the user asking for it may not show passkey dialogues: the check of the backup
/// when the app starts, the backup of a new wallet, and the watch over uploads. Nor may uploading
/// the wallets again, which uses the master key of the keychain.
pub proof fn law_background_operations_are_quiet(operation: Operation)
    requires
        operation is VerifyIntegrity || operation is BackupNewWallet
            || operation is VerifyPendingUploads || operation is ReuploadAllWallets
            || operation is SyncUnsyncedWallets || operation is HandleRefreshDetail,
    ensures
        runs_quietly(MachineView { stack: Seq::empty(), pending: Pending::Begin(operation) }),
{
}

impl Frame {
    /// Whether a reply holds a number that the operation cannot count: more wallets than the record
    /// has room for, or one attempt more than a queued upload has.
    pub open spec fn overflows(self, reply: Reply) -> bool {
        match (self, reply) {
            (
                Frame::BackupWallets(BackupWalletsFlow::Count { count }),
                Reply::CloudBackup(current),
            ) => current.synced_count() + (count as u32) > u32::MAX,
            (
                Frame::VerifyPendingUploads(
                    PendingUploadVerifier::Check { queue, checked_at, index },
                ),
                Reply::Uploaded(_),
            ) => queue.blobs@[index as int].attempt_count == u32::MAX,
            (Frame::RestoreAll(RestoreAllFlow::List { found }), Reply::Listed(Ok(listed))) =>
                listed@.len() > u32::MAX,
            _ => false,
        }
    }

    /// Whether the operation takes a reply: not one of another kind than it asked for, nor one that
    /// it cannot count.
    pub open spec fn takes(self, reply: Reply) -> bool {
        forall|after: Progress<Frame, Outcome>| #[trigger]
            self.next(reply, after) ==> !(after is Refused)
    }
}

proof fn lemma_begin_fits(operation: Operation, progress: Progress<Frame, Outcome>, reply: Reply)
    requires
        Frame::began(operation, progress),
        progress matches Progress::Ask { request, .. } && request.answered_by(reply),
    ensures
        progress matches Progress::Ask { flow, .. } && (flow.overflows(reply) || flow.takes(reply)),
{
}

proof fn lemma_wallet_fits(
    frame: Frame,
    before: Reply,
    progress: Progress<Frame, Outcome>,
    reply: Reply,
)
    requires
        frame is BuildWalletEntry
            || frame is UploadWallets
            || frame is BackupWallets
            || frame is SyncUnsyncedWallets
            || frame is ReuploadAllWallets
            || frame is PersistEnabled
            || frame is BackupNewWallet,
        frame.next(before, progress),
        progress matches Progress::Ask { request, .. } && request.answered_by(reply),
    ensures
        progress matches Progress::Ask { flow, .. } && (flow.overflows(reply) || flow.takes(reply)),
{
}

proof fn lemma_queue_fits(
    frame: Frame,
    before: Reply,
    progress: Progress<Frame, Outcome>,
    reply: Reply,
)
    requires
        frame is EnqueueUploads
            || frame is RemoveUploads
            || frame is CleanupListed
            || frame is VerifyPendingUploads,
        frame.next(before, progress),
        progress matches Progress::Ask { request, .. } && request.answered_by(reply),
    ensures
        progress matches Progress::Ask { flow, .. } && (flow.overflows(reply) || flow.takes(reply)),
{
}

proof fn lemma_passkey_fits(
    frame: Frame,
    before: Reply,
    progress: Progress<Frame, Outcome>,
    reply: Reply,
)
    requires
        frame is PrfKey
            || frame is Authenticate,
        frame.next(before, progress),
        progress matches Progress::Ask { request, .. } && request.answered_by(reply),
    ensures
        progress matches Progress::Ask { flow, .. } && (flow.overflows(reply) || flow.takes(reply)),
{
}

proof fn lemma_enable_fits(
    frame: Frame,
    before: Reply,
    progress: Progress<Frame, Outcome>,
    reply: Reply,
)
    requires
        frame is Enable,
        frame.next(before, progress),
        progress matches Progress::Ask { request, .. } && request.answered_by(reply),
    ensures
        progress matches Progress::Ask { flow, .. } && (flow.overflows(reply) || flow.takes(reply)),
{
}

proof fn lemma_restore_fits(
    frame: Frame,
    before: Reply,
    progress: Progress<Frame, Outcome>,
    reply: Reply,
)
    requires
        frame is RestoreWallet
            || frame is RestoreCloudWallet,
        frame.next(before, progress),
        progress matches Progress::Ask { request, .. } && request.answered_by(reply),
    ensures
        progress matches Progress::Ask { flow, .. } && (flow.overflows(reply) || flow.takes(reply)),
{
}

proof fn lemma_restore_all_fits(
    frame: Frame,
    before: Reply,
    progress: Progress<Frame, Outcome>,
    reply: Reply,
)
    requires
        frame is RestoreAll,
        frame.next(before, progress),
        progress matches Progress::Ask { request, .. } && request.answered_by(reply),
    ensures
        progress matches Progress::Ask { flow, .. } && (flow.overflows(reply) || flow.takes(reply)),
{
}

proof fn lemma_cloud_fits(
    frame: Frame,
    before: Reply,
    progress: Progress<Frame, Outcome>,
    reply: Reply,
)
    requires
        frame is FetchCloudOnly
            || frame is DeleteCloudWallet
            || frame is RefreshDetail,
        frame.next(before, progress),
        progress matches Progress::Ask { request, .. } && request.answered_by(reply),
    ensures
        progress matches Progress::Ask { flow, .. } && (flow.overflows(reply) || flow.takes(reply)),
{
}

proof fn lemma_check_fits(
    frame: Frame,
    before: Reply,
    progress: Progress<Frame, Outcome>,
    reply: Reply,
)
    requires
        frame is PromoteVerified
            || frame is PersistDowngrade
            || frame is VerifyIntegrity
            || frame is DeepVerify
            || frame is RepairPasskey
            || frame is FinalizeRepair,
        frame.next(before, progress),
        progress matches Progress::Ask { request, .. } && request.answered_by(reply),
    ensures
        progress matches Progress::Ask { flow, .. } && (flow.overflows(reply) || flow.takes(reply)),
{
}

proof fn lemma_step_fits(
    frame: Frame,
    before: Reply,
    progress: Progress<Frame, Outcome>,
    reply: Reply,
)
    requires
        frame.next(before, progress),
        progress matches Progress::Ask { request, .. } && request.answered_by(reply),
    ensures
        progress matches Progress::Ask { flow, .. } && (flow.overflows(reply) || flow.takes(reply)),
{
    match frame {
        Frame::BuildWalletEntry(_) => lemma_wallet_fits(frame, before, progress, reply),
        Frame::UploadWallets(_) => lemma_wallet_fits(frame, before, progress, reply),
        Frame::BackupWallets(_) => lemma_wallet_fits(frame, before, progress, reply),
        Frame::SyncUnsyncedWallets(_) => lemma_wallet_fits(frame, before, progress, reply),
        Frame::ReuploadAllWallets(_) => lemma_wallet_fits(frame, before, progress, reply),
        Frame::PersistEnabled(_) => lemma_wallet_fits(frame, before, progress, reply),
        Frame::BackupNewWallet(_) => lemma_wallet_fits(frame, before, progress, reply),
        Frame::EnqueueUploads(_) => lemma_queue_fits(frame, before, progress, reply),
        Frame::RemoveUploads(_) => lemma_queue_fits(frame, before, progress, reply),
        Frame::CleanupListed(_) => lemma_queue_fits(frame, before, progress, reply),
        Frame::VerifyPendingUploads(_) => lemma_queue_fits(frame, before, progress, reply),
        Frame::PrfKey(_) => lemma_passkey_fits(frame, before, progress, reply),
        Frame::Authenticate(_) => lemma_passkey_fits(frame, before, progress, reply),
        Frame::Enable(_) => lemma_enable_fits(frame, before, progress, reply),
        Frame::RestoreWallet(_) => lemma_restore_fits(frame, before, progress, reply),
        Frame::RestoreCloudWallet(_) => lemma_restore_fits(frame, before, progress, reply),
        Frame::RestoreAll(_) => lemma_restore_all_fits(frame, before, progress, reply),
        Frame::FetchCloudOnly(_) => lemma_cloud_fits(frame, before, progress, reply),
        Frame::DeleteCloudWallet(_) => lemma_cloud_fits(frame, before, progress, reply),
        Frame::RefreshDetail(_) => lemma_cloud_fits(frame, before, progress, reply),
        Frame::PromoteVerified(_) => lemma_check_fits(frame, before, progress, reply),
        Frame::PersistDowngrade(_) => lemma_check_fits(frame, before, progress, reply),
        Frame::VerifyIntegrity(_) => lemma_check_fits(frame, before, progress, reply),
        Frame::DeepVerify(_) => lemma_check_fits(frame, before, progress, reply),
        Frame::RepairPasskey(_) => lemma_check_fits(frame, before, progress, reply),
        Frame::FinalizeRepair(_) => lemma_check_fits(frame, before, progress, reply),
        _ => {},
    }
}

impl Frame {
    /// Whether the operation can give back `outcome`.
    pub open spec fn gives_back(self, outcome: Outcome) -> bool {
        match self {
            Frame::BuildWalletEntry(_) => outcome is Entry,
            Frame::UploadWallets(_) => outcome is Uploaded,
            Frame::BackupWallets(_) => outcome is Finished,
            Frame::SyncUnsyncedWallets(_) => outcome is Finished,
            Frame::ReuploadAllWallets(_) => outcome is Finished,
            Frame::PersistEnabled(_) => outcome is Finished,
            Frame::EnqueueUploads(_) => outcome is Finished,
            Frame::RemoveUploads(_) => outcome is Finished,
            Frame::VerifyPendingUploads(_) => outcome is StillPending,
            Frame::PrfKey(_) => outcome is PrfKey,
            Frame::Authenticate(_) => outcome is Authenticated,
            Frame::Enable(_) => outcome is Finished,
            Frame::RestoreWallet(_) => outcome is WalletRestored,
            Frame::RestoreCloudWallet(_) => outcome is Finished,
            Frame::RestoreAll(_) => outcome is Finished,
            Frame::FetchCloudOnly(_) => outcome is CloudOnly,
            Frame::DeleteCloudWallet(_) => outcome is Finished,
            Frame::RefreshDetail(_) => outcome is Detail,
            Frame::VerifyIntegrity(_) => outcome is Integrity,
            Frame::DeepVerify(_) => outcome is Verification,
            Frame::RepairPasskey(_) => outcome is Finished,
            Frame::FinalizeRepair(_) => outcome is Finished,
            _ => outcome is Nothing,
        }
    }

    /// Whether the operation is one that waits for the reply to `request`.
    pub open spec fn awaits(self, request: Request) -> bool {
        ||| exists|operation: Operation, effects: Vec<Effect>| #[trigger]
            Frame::began(operation, Progress::Ask { flow: self, effects, request })
        ||| exists|before: Frame, reply: Reply, effects: Vec<Effect>| #[trigger]
            before.next(reply, Progress::Ask { flow: self, effects, request })
    }

    /// Whether the operation waits for `other`, which it runs on its behalf.
    pub open spec fn awaits_frame(self, other: Frame) -> bool {
        exists|operation: Operation|
            {
                &&& #[trigger] self.awaits(Request::Call(operation))
                &&& other.serves(operation)
            }
    }

    /// Whether what the operation gives back is what a call of `operation` gives back.
    pub open spec fn serves(self, operation: Operation) -> bool {
        forall|outcome: Outcome| #[trigger]
            self.gives_back(outcome) ==> operation.gives_back(outcome)
    }
}

proof fn lemma_begin_gives_back(operation: Operation, progress: Progress<Frame, Outcome>)
    requires
        Frame::began(operation, progress),
    ensures
        progress matches Progress::Ask { flow, .. } ==> flow.serves(operation),
        progress matches Progress::Done { value, .. } ==> operation.gives_back(value),
        !(progress is Refused),
{
}

proof fn lemma_step_gives_back(frame: Frame, reply: Reply, progress: Progress<Frame, Outcome>)
    requires
        frame.next(reply, progress),
    ensures
        progress matches Progress::Ask { flow, .. } ==> forall|outcome: Outcome| #[trigger]
            flow.gives_back(outcome) ==> frame.gives_back(outcome),
        progress matches Progress::Done { value, .. } ==> frame.gives_back(value),
{
}

proof fn lemma_awaited_reply_is_taken(frame: Frame, request: Request, reply: Reply)
    requires
        frame.awaits(request),
        request.answered_by(reply),
    ensures
        frame.overflows(reply) || frame.takes(reply),
{
    if exists|operation: Operation, effects: Vec<Effect>| #[trigger]
        Frame::began(operation, Progress::Ask { flow: frame, effects, request }) {
        let (operation, effects) = choose|operation: Operation, effects: Vec<Effect>| #[trigger]
            Frame::began(operation, Progress::Ask { flow: frame, effects, request });
        lemma_begin_fits(operation, Progress::Ask { flow: frame, effects, request }, reply);
    } else {
        let (before, earlier, effects) = choose|
            before: Frame,
            earlier: Reply,
            effects: Vec<Effect>,
        | #[trigger]
            before.next(earlier, Progress::Ask { flow: frame, effects, request });
        lemma_step_fits(before, earlier, Progress::Ask { flow: frame, effects, request }, reply);
    }
}

/// Whether every operation of a machine waits for the one above it, and the one on top for what the
/// machine is about to do or to hand to it.
pub open spec fn in_order(machine: MachineView) -> bool {
    let stack = machine.stack;
    &&& forall|i: int|
        0 <= i < stack.len() - 1 ==> (#[trigger] stack[i]).awaits_frame(stack[i + 1])
    &&& match machine.pending {
        Pending::Begin(operation) => stack.len() > 0 ==> stack.last().awaits(
            Request::Call(operation),
        ),
        Pending::Deliver(reply) => {
            &&& stack.len() > 0
            &&& exists|request: Request| #[trigger]
                stack.last().awaits(request) && request.answered_by(reply)
        },
        Pending::Await => stack.len() > 0,
        Pending::Over => true,
    }
}

/// A machine that has just been made is in order.
pub proof fn law_machine_starts_in_order(operation: Operation)
    ensures
        in_order(MachineView { stack: Seq::empty(), pending: Pending::Begin(operation) }),
{
}

proof fn lemma_ask_keeps_order(
    below: Seq<Frame>,
    frame: Frame,
    effects: Vec<Effect>,
    request: Request,
    after: MachineView,
    turn: Turn,
)
    requires
        frame.awaits(request),
        forall|i: int|
            0 <= i < below.len() - 1 ==> (#[trigger] below[i]).awaits_frame(below[i + 1]),
        below.len() > 0 ==> below.last().awaits_frame(frame),
        absorbed(below, Progress::Ask { flow: frame, effects, request }, after, turn),
    ensures
        in_order(after),
        !(turn.action is Refuse),
        turn.action matches Action::Perform(made) ==> made == request,
        forall|reply: Reply|
            #![trigger request.answered_by(reply)]
            request.answered_by(reply) ==> in_order(
                MachineView { stack: after.stack, pending: Pending::Deliver(reply) },
            ),
{
    assert forall|i: int| 0 <= i < after.stack.len() - 1 implies (
    #[trigger] after.stack[i]).awaits_frame(after.stack[i + 1]) by {
        if i < below.len() - 1 {
            assert(after.stack[i] == below[i]);
            assert(after.stack[i + 1] == below[i + 1]);
        }
    }
    assert(after.stack.last() == frame);
    assert forall|reply: Reply|
        #![trigger request.answered_by(reply)]
        request.answered_by(reply) implies in_order(
        MachineView { stack: after.stack, pending: Pending::Deliver(reply) },
    ) by {
        assert(after.stack.last().awaits(request));
    }
    match after.pending {
        Pending::Deliver(reply) => {
            assert(request.answered_by(reply));
        },
        _ => {},
    }
}

proof fn lemma_done_keeps_order(
    below: Seq<Frame>,
    effects: Vec<Effect>,
    value: Outcome,
    after: MachineView,
    turn: Turn,
)
    requires
        forall|i: int|
            0 <= i < below.len() - 1 ==> (#[trigger] below[i]).awaits_frame(below[i + 1]),
        below.len() > 0 ==> exists|operation: Operation|
            {
                &&& #[trigger] below.last().awaits(Request::Call(operation))
                &&& operation.gives_back(value)
            },
        absorbed(below, Progress::Done { effects, value }, after, turn),
    ensures
        in_order(after),
        !(turn.action is Refuse),
        !(turn.action is Perform),
{
    if below.len() > 0 {
        let operation = choose|operation: Operation|
            {
                &&& #[trigger] below.last().awaits(Request::Call(operation))
                &&& operation.gives_back(value)
            };
        assert(Request::Call(operation).answered_by(Reply::Returned(value)));
    }
}

/// No operation stalls: as long as every request gets a reply of its kind, and no number outgrows
/// what is counted, each step leads on to the next request, call or outcome. What an operation
/// gives back is always of the kind that the operation below it waits for.
pub proof fn law_operations_never_stall(before: MachineView, after: MachineView, turn: Turn)
    requires
        in_order(before),
        before.steps_to(after, turn),
        before.pending matches Pending::Deliver(reply) ==> !before.stack.last().overflows(reply),
    ensures
        in_order(after),
        !(turn.action is Refuse),
        turn.action matches Action::Perform(request) ==> forall|reply: Reply|
            #![trigger request.answered_by(reply)]
            request.answered_by(reply) ==> in_order(
                MachineView { stack: after.stack, pending: Pending::Deliver(reply) },
            ),
{
    let stack = before.stack;
    match before.pending {
        Pending::Begin(operation) => {
            let progress = choose|progress| #[trigger]
                Frame::began(operation, progress) && absorbed(stack, progress, after, turn);
            lemma_begin_gives_back(operation, progress);
            match progress {
                Progress::Ask { flow, effects, request } => {
                    assert(flow.awaits(request));
                    lemma_ask_keeps_order(stack, flow, effects, request, after, turn);
                },
                Progress::Done { effects, value } => {
                    lemma_done_keeps_order(stack, effects, value, after, turn);
                },
                Progress::Refused { .. } => {},
            }
        },
        Pending::Deliver(reply) => {
            let top = stack.last();
            let below = stack.drop_last();
            let progress = choose|progress| #[trigger]
                top.next(reply, progress) && absorbed(below, progress, after, turn);
            let request = choose|request: Request| #[trigger]
                top.awaits(request) && request.answered_by(reply);
            lemma_awaited_reply_is_taken(top, request, reply);
            lemma_step_gives_back(top, reply, progress);
            assert forall|i: int| 0 <= i < below.len() - 1 implies (
            #[trigger] below[i]).awaits_frame(below[i + 1]) by {
                assert(stack[i] == below[i]);
                assert(stack[i + 1] == below[i + 1]);
            }
            if below.len() > 0 {
                let i = below.len() - 1;
                assert(stack[i] == below.last());
                assert(stack[i + 1] == top);
                assert(stack[i].awaits_frame(stack[i + 1]));
            }
            match progress {
                Progress::Ask { flow, effects, request } => {
                    assert(flow.awaits(request));
                    if below.len() > 0 {
                        let operation = choose|operation: Operation|
                            {
                                &&& #[trigger] below.last().awaits(Request::Call(operation))
                                &&& top.serves(operation)
                            };
                        assert(flow.serves(operation)) by {
                            assert forall|outcome: Outcome| #[trigger]
                                flow.gives_back(outcome) implies operation.gives_back(
                                outcome,
                            ) by {
                                assert(top.gives_back(outcome));
                            }
                        }
                        assert(below.last().awaits_frame(flow));
                    }
                    lemma_ask_keeps_order(below, flow, effects, request, after, turn);
                },
                Progress::Done { effects, value } => {
                    if below.len() > 0 {
                        let operation = choose|operation: Operation|
                            {
                                &&& #[trigger] below.last().awaits(Request::Call(operation))
                                &&& top.serves(operation)
                            };
                        assert(top.gives_back(value));
                        assert(operation.gives_back(value));
                    }
                    lemma_done_keeps_order(below, effects, value, after, turn);
                },
                Progress::Refused { .. } => {},
            }
        },
        _ => {},
    }
}

/// A wallet that was backed up comes back with what was backed up: a recovery phrase is imported as
/// it parses, and any other wallet with its metadata, descriptors and extended public key, and the
/// tap signer's backup if there is one. Only a wallet that was found to be on the device already is
/// left out; a search that failed found nothing.
pub proof fn law_restore_imports_what_was_backed_up(
    builder: WalletEntryFlow,
    metadata: String,
    built: Attempt<WalletEntryFlow, WalletEntry>,
    known: Vec<KnownWallet>,
    wallet: WalletMetadata,
    duplicate: Result<bool, String>,
    progress: Progress<RestoreWalletFlow, RestoredWallet>,
)
    requires
        duplicate != Ok::<bool, String>(true),
        builder.phase is Metadata,
        builder.next(Reply::Json(Ok(metadata)), built),
        built matches Progress::Done { value: Ok(entry), .. } && (RestoreWalletFlow {
            known,
            phase: RestoreWalletPhase::Duplicate { entry, wallet },
        }).next(Reply::Duplicate(duplicate), progress),
    ensures
        builder.phase matches WalletEntryPhase::Metadata { secret, xpub, descriptors }
            && match secret {
            CloudWalletSecret::Mnemonic(words) => RestoreWalletFlow::imports_mnemonic(
                known,
                wallet,
                parsed_mnemonic(words@),
                progress,
            ),
            _ => {
                &&& progress matches Progress::Ask {
                    request: Request::ImportDescriptorWallet { wallet: imported, backup },
                    ..
                }
                &&& imported == wallet
                &&& backup.metadata == metadata
                &&& backup.descriptors == descriptors
                &&& backup.xpub == xpub
                &&& secret.converts_to(backup.secret)
            },
        },
{
}

} // verus!
