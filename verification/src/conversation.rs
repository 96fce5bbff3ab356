//! Whole runs of an operation: the steps that it takes, and the replies between them.

use vstd::prelude::*;

use crate::protocol::{Progress, Reply, Request};

verus! {

/// An operation that goes on with one reply at a time.
pub trait Stepwise: Sized {
    type Value;

    /// Whether `progress` may follow `reply`.
    spec fn follows(self, reply: Reply, progress: Progress<Self, Self::Value>) -> bool;
}

impl<F, T> Progress<F, T> {
    /// Whether the step makes `request`.
    pub open spec fn requests(self, request: Request) -> bool {
        self matches Progress::Ask { request: made, .. } && made == request
    }
}

/// What follows a reply to a step that is waiting for one.
pub open spec fn continues<F: Stepwise>(
    before: Progress<F, F::Value>,
    reply: Reply,
    after: Progress<F, F::Value>,
) -> bool {
    before matches Progress::Ask { flow, .. } && flow.follows(reply, after)
}

/// Whether `steps` follow one another, with `replies` between them.
pub open spec fn is_conversation<F: Stepwise>(
    steps: Seq<Progress<F, F::Value>>,
    replies: Seq<Reply>,
) -> bool {
    &&& steps.len() == replies.len() + 1
    &&& forall|i: int|
        0 <= i < replies.len() ==> continues(steps[i], #[trigger] replies[i], steps[i + 1])
}

/// A step that waits for no reply is the last one.
pub proof fn lemma_stop_is_last<F: Stepwise>(
    steps: Seq<Progress<F, F::Value>>,
    replies: Seq<Reply>,
    at: int,
)
    requires
        is_conversation(steps, replies),
        0 <= at < steps.len(),
        !(steps[at] is Ask),
    ensures
        steps.len() == at + 1,
{
    if at < replies.len() {
        assert(continues(steps[at], replies[at], steps[at + 1]));
    }
}

} // verus!
