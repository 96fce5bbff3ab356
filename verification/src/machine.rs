//! Runs operations that call one another.

pub mod laws;

use vstd::prelude::*;

use crate::clock::{current_timestamp, LAST_TIMESTAMP};
use crate::entropy::{fresh_challenge, fresh_passkey_seed, PasskeySeed};
use crate::frame::Frame;
use crate::protocol::{Effect, Operation, Outcome, Progress, Reply, Request};

verus! {

/// What a machine does next.
pub enum Pending {
    /// It starts an operation on behalf of the one on top, or the first one.
    Begin(Operation),
    /// It hands a reply to the operation on top.
    Deliver(Reply),
    /// It waits for the reply to the request that it made last.
    Await,
    /// Nothing: the first operation is over.
    Over,
}

/// An operation, those that it runs on its behalf, and what is to be done next.
pub struct Machine {
    stack: Vec<Frame>,
    pending: Pending,
}

/// [`Machine`] with its operations taken as a sequence, the first one at the bottom.
pub struct MachineView {
    pub stack: Seq<Frame>,
    pub pending: Pending,
}

/// What a step of a machine asks of its caller.
pub enum Action {
    /// Take another step.
    Proceed,
    /// Make the request, and deliver the reply.
    Perform(Request),
    /// Nothing: the operation is over with this outcome.
    Finish(Outcome),
    /// Nothing: the reply delivered does not fit the request, and another one can be delivered.
    Refuse,
    /// Nothing: there is no step to take.
    Idle,
}

/// One step of a machine: its effects, in order, and then what it asks of its caller.
pub struct Turn {
    pub effects: Vec<Effect>,
    pub action: Action,
}

impl View for Machine {
    type V = MachineView;

    closed spec fn view(&self) -> MachineView {
        MachineView { stack: self.stack@, pending: self.pending }
    }
}

/// Whether every operation of a stack is one that can be got to.
pub open spec fn all_wf(stack: Seq<Frame>) -> bool {
    forall|i: int| 0 <= i < stack.len() ==> (#[trigger] stack[i]).wf()
}

/// What a machine makes of a request of the operation on top: it runs other operations itself,
/// reads the clock and draws random values, and leaves the rest to its caller.
pub open spec fn dispatched(request: Request, pending: Pending, action: Action) -> bool {
    match request {
        Request::Call(operation) => {
            &&& pending == Pending::Begin(operation)
            &&& action == Action::Proceed
        },
        Request::ReadClock => {
            &&& pending matches Pending::Deliver(Reply::Time(now))
            &&& now <= LAST_TIMESTAMP
            &&& action == Action::Proceed
        },
        Request::DrawChallenge => {
            &&& pending matches Pending::Deliver(Reply::Challenge(_))
            &&& action == Action::Proceed
        },
        Request::DrawPasskeySeed => {
            &&& pending matches Pending::Deliver(Reply::Seed(_))
            &&& action == Action::Proceed
        },
        _ => {
            &&& pending == Pending::Await
            &&& action == Action::Perform(request)
        },
    }
}

/// What a machine makes of a step of an operation on top of `below`.
pub open spec fn absorbed(
    below: Seq<Frame>,
    progress: Progress<Frame, Outcome>,
    next: MachineView,
    turn: Turn,
) -> bool {
    match progress {
        Progress::Ask { flow, effects, request } => {
            &&& next.stack == below.push(flow)
            &&& turn.effects == effects
            &&& dispatched(request, next.pending, turn.action)
        },
        Progress::Done { effects, value } => {
            &&& next.stack == below
            &&& turn.effects == effects
            &&& if below.len() == 0 {
                &&& next.pending == Pending::Over
                &&& turn.action == Action::Finish(value)
            } else {
                &&& next.pending == Pending::Deliver(Reply::Returned(value))
                &&& turn.action == Action::Proceed
            }
        },
        Progress::Refused { flow } => {
            &&& next == (MachineView { stack: below.push(flow), pending: Pending::Await })
            &&& turn.effects@.len() == 0
            &&& turn.action == Action::Refuse
        },
    }
}

impl MachineView {
    /// Whether one step leads to `next`.
    pub open spec fn steps_to(self, next: MachineView, turn: Turn) -> bool {
        match self.pending {
            Pending::Begin(operation) => exists|progress| #[trigger]
                Frame::began(operation, progress) && absorbed(self.stack, progress, next, turn),
            Pending::Deliver(reply) => exists|progress| #[trigger]
                self.stack.last().next(reply, progress) && absorbed(
                    self.stack.drop_last(),
                    progress,
                    next,
                    turn,
                ),
            _ => {
                &&& next == self
                &&& turn.effects@.len() == 0
                &&& turn.action == Action::Idle
            },
        }
    }
}

impl Machine {
    /// A reply has an operation to go to, and every operation is one that can be got to.
    #[verifier::type_invariant]
    spec fn wf(self) -> bool {
        &&& all_wf(self.stack@)
        &&& self.pending is Deliver || self.pending is Await ==> self.stack@.len() > 0
    }

    /// A machine that is to run an operation.
    pub fn start(operation: Operation) -> (machine: Machine)
        ensures
            machine@ == (MachineView {
                stack: Seq::empty(),
                pending: Pending::Begin(operation),
            }),
    {
        let machine = Machine { stack: Vec::new(), pending: Pending::Begin(operation) };
        assert(machine.stack@ =~= Seq::empty());
        machine
    }

    /// Hands over the reply to the request that the machine made last. A machine that waits for
    /// none stays as it is, and does not take it.
    pub fn deliver(self, reply: Reply) -> (delivered: (Machine, bool))
        ensures
            delivered.1 == (self@.pending is Await),
            delivered.0@ == if self@.pending is Await {
                MachineView { stack: self@.stack, pending: Pending::Deliver(reply) }
            } else {
                self@
            },
    {
        proof {
            use_type_invariant(&self);
        }
        let Machine { stack, pending } = self;
        match pending {
            Pending::Await => (Machine { stack, pending: Pending::Deliver(reply) }, true),
            other => (Machine { stack, pending: other }, false),
        }
    }

    /// Takes one step.
    pub fn proceed(self) -> (step: (Machine, Turn))
        ensures
            self@.steps_to(step.0@, step.1),
    {
        proof {
            use_type_invariant(&self);
        }
        let ghost before = self@;
        let Machine { stack, pending } = self;
        match pending {
            Pending::Begin(operation) => {
                let progress: Progress<Frame, Outcome> = Frame::begin(operation);
                Self::absorb(stack, progress)
            },
            Pending::Deliver(reply) => {
                let mut below: Vec<Frame> = stack;
                match below.pop() {
                    Some(top) => {
                        assert(below@ =~= before.stack.drop_last());
                        let progress: Progress<Frame, Outcome> = top.resume(reply);
                        assert(before.stack.last().next(reply, progress));
                        Self::absorb(below, progress)
                    },
                    None => (
                        Machine { stack: below, pending: Pending::Over },
                        Turn { effects: Vec::new(), action: Action::Idle },
                    ),
                }
            },
            Pending::Await => (
                Machine { stack, pending: Pending::Await },
                Turn { effects: Vec::new(), action: Action::Idle },
            ),
            Pending::Over => (
                Machine { stack, pending: Pending::Over },
                Turn { effects: Vec::new(), action: Action::Idle },
            ),
        }
    }

    fn absorb(below: Vec<Frame>, progress: Progress<Frame, Outcome>) -> (step: (Machine, Turn))
        requires
            all_wf(below@),
            progress matches Progress::Ask { flow, .. } ==> flow.wf(),
            progress matches Progress::Refused { flow } ==> flow.wf(),
        ensures
            absorbed(below@, progress, step.0@, step.1),
    {
        let mut stack: Vec<Frame> = below;
        match progress {
            Progress::Ask { flow, effects, request } => {
                stack.push(flow);
                let (pending, action): (Pending, Action) = Self::dispatch(request);
                (Machine { stack, pending }, Turn { effects, action })
            },
            Progress::Done { effects, value } => {
                if stack.is_empty() {
                    (
                        Machine { stack, pending: Pending::Over },
                        Turn { effects, action: Action::Finish(value) },
                    )
                } else {
                    (
                        Machine { stack, pending: Pending::Deliver(Reply::Returned(value)) },
                        Turn { effects, action: Action::Proceed },
                    )
                }
            },
            Progress::Refused { flow } => {
                stack.push(flow);
                (
                    Machine { stack, pending: Pending::Await },
                    Turn { effects: Vec::new(), action: Action::Refuse },
                )
            },
        }
    }

    fn dispatch(request: Request) -> (next: (Pending, Action))
        ensures
            dispatched(request, next.0, next.1),
            !(next.0 is Over),
    {
        match request {
            Request::Call(operation) => (Pending::Begin(operation), Action::Proceed),
            Request::ReadClock => {
                let now: u64 = current_timestamp();
                (Pending::Deliver(Reply::Time(now)), Action::Proceed)
            },
            Request::DrawChallenge => {
                let challenge: [u8; 32] = fresh_challenge();
                (Pending::Deliver(Reply::Challenge(challenge)), Action::Proceed)
            },
            Request::DrawPasskeySeed => {
                let seed: PasskeySeed = fresh_passkey_seed();
                (Pending::Deliver(Reply::Seed(seed)), Action::Proceed)
            },
            other => (Pending::Await, Action::Perform(other)),
        }
    }
}

} // verus!
