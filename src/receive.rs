//! The consumer side of a queue as a steppable computation: each step tries
//! to take a message, finishing with it when one is there and suspending
//! when the queue is empty.

use vstd::prelude::*;
use crate::queue::{SpscQueue, dequeued, front};
use crate::task::Steppable;

verus! {

/// One pending receive: it finishes with the first message that it finds.
pub struct AsyncReceive {
    pub received: Option<u32>,
}

impl AsyncReceive {
    /// A receive that has found nothing yet.
    pub fn new() -> (r: AsyncReceive)
        ensures
            r.received is None,
    {
        AsyncReceive { received: None }
    }
}

impl Steppable for AsyncReceive {
    type Context = SpscQueue;
    type Output = u32;

    open spec fn is_ready(&self) -> bool {
        self.received is Some
    }

    open spec fn may_step(&self, cx: SpscQueue) -> bool {
        true
    }

    open spec fn steps_to(
        &self,
        cx: SpscQueue,
        next: AsyncReceive,
        next_cx: SpscQueue,
        out: Option<u32>,
    ) -> bool {
        &&& out == front(cx@)
        &&& next.received == out
        &&& next_cx@ == dequeued(cx@)
    }

    fn step(&mut self, cx: &mut SpscQueue) -> (out: Option<u32>) {
        let got = cx.dequeue();
        self.received = got;
        got
    }
}

} // verus!
