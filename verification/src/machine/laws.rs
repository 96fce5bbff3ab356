//! What a machine does with the steps of the operations that it runs.

use vstd::prelude::*;

use crate::frame::Frame;
use crate::machine::{absorbed, Action, Machine, MachineView, Pending, Turn};
use crate::protocol::{Operation, Outcome, Progress, Reply, Request};

verus! {

/// Whether a machine carries out what the operation on top of `below` asked for: its effects in
/// their order, then the request or the call that it makes, or the end that it comes to.
pub open spec fn carries_out(
    below: Seq<Frame>,
    progress: Progress<Frame, Outcome>,
    after: MachineView,
    turn: Turn,
) -> bool {
    match progress {
        Progress::Ask { flow, effects, request } => {
            &&& turn.effects@ == effects@
            &&& after.stack.len() == below.len() + 1
            &&& after.stack.last() == flow
            &&& after.stack.drop_last() == below
            &&& match request {
                Request::Call(operation) => after.pending == Pending::Begin(operation)
                    && turn.action is Proceed,
                Request::ReadClock => (after.pending matches Pending::Deliver(Reply::Time(now))
                    && now <= 253_402_207_200) && turn.action is Proceed,
                Request::DrawChallenge => (after.pending matches Pending::Deliver(
                    Reply::Challenge(_),
                )) && turn.action is Proceed,
                Request::DrawPasskeySeed => (after.pending matches Pending::Deliver(Reply::Seed(_)))
                    && turn.action is Proceed,
                other => after.pending is Await && turn.action == Action::Perform(other),
            }
        },
        Progress::Done { effects, value } => {
            &&& turn.effects@ == effects@
            &&& after.stack == below
            &&& below.len() == 0 ==> after.pending is Over && turn.action == Action::Finish(value)
            &&& below.len() > 0 ==> after.pending == Pending::Deliver(Reply::Returned(value))
                && turn.action is Proceed
        },
        Progress::Refused { flow } => {
            &&& turn.effects@.len() == 0
            &&& after.stack.len() == below.len() + 1
            &&& after.stack.last() == flow
            &&& after.stack.drop_last() == below
            &&& after.pending is Await
            &&& turn.action is Refuse
        },
    }
}

/// A machine does what its operations ask for and nothing else. An operation that is called begins
/// on top of its caller, and what it gives back goes to that caller. A reply goes to the operation
/// on top; the operations below stay as they are. The outcome of the first operation is the outcome
/// of all. While a reply is awaited, and after the end, nothing happens.
pub proof fn law_machine_carries_out_what_is_asked(
    before: MachineView,
    after: MachineView,
    turn: Turn,
)
    requires
        before.steps_to(after, turn),
        before.pending is Deliver ==> before.stack.len() > 0,
    ensures
        match before.pending {
            Pending::Begin(operation) => exists|progress| #[trigger]
                Frame::began(operation, progress) && carries_out(
                    before.stack,
                    progress,
                    after,
                    turn,
                ),
            Pending::Deliver(reply) => exists|progress| #[trigger]
                before.stack[before.stack.len() - 1].next(reply, progress) && carries_out(
                    before.stack.take(before.stack.len() - 1),
                    progress,
                    after,
                    turn,
                ),
            _ => {
                &&& after == before
                &&& turn.effects@.len() == 0
                &&& turn.action is Idle
            },
        },
{
    match before.pending {
        Pending::Begin(operation) => {
            let progress = choose|progress| #[trigger]
                Frame::began(operation, progress) && absorbed(
                    before.stack,
                    progress,
                    after,
                    turn,
                );
            lemma_pushed_on_top(before.stack, progress);
            assert(Frame::began(operation, progress) && carries_out(
                before.stack,
                progress,
                after,
                turn,
            ));
        },
        Pending::Deliver(reply) => {
            let top = before.stack.last();
            let below = before.stack.drop_last();
            let progress = choose|progress| #[trigger]
                top.next(reply, progress) && absorbed(below, progress, after, turn);
            lemma_pushed_on_top(below, progress);
            assert(below =~= before.stack.take(before.stack.len() - 1));
            assert(before.stack[before.stack.len() - 1].next(reply, progress) && carries_out(
                below,
                progress,
                after,
                turn,
            ));
        },
        _ => {},
    }
}

proof fn lemma_pushed_on_top(below: Seq<Frame>, progress: Progress<Frame, Outcome>)
    ensures
        progress matches Progress::Ask { flow, .. } ==> below.push(flow).drop_last() == below,
        progress matches Progress::Refused { flow } ==> below.push(flow).drop_last() == below,
{
    match progress {
        Progress::Ask { flow, .. } => {
            assert(below.push(flow).drop_last() =~= below);
        },
        Progress::Refused { flow } => {
            assert(below.push(flow).drop_last() =~= below);
        },
        _ => {},
    }
}

/// A machine begins with its operation alone. It takes a reply only while it waits for one, and the
/// reply then goes to the operation on top; else it stays as it is.
pub proof fn law_machine_takes_a_reply_only_when_it_waits(
    operation: Operation,
    begun: Machine,
    machine: Machine,
    reply: Reply,
    delivered: (Machine, bool),
)
    requires
        call_ensures(Machine::start, (operation,), begun),
        call_ensures(Machine::deliver, (machine, reply), delivered),
    ensures
        begun@.stack.len() == 0,
        begun@.pending == Pending::Begin(operation),
        delivered.1 <==> machine@.pending is Await,
        delivered.0@.stack == machine@.stack,
        delivered.0@.pending == if machine@.pending is Await {
            Pending::Deliver(reply)
        } else {
            machine@.pending
        },
{
}

} // verus!
