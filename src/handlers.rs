//! The two sample tasks that share a queue: a producer that blinks its LED
//! and sends a running count once per blink, and a consumer that takes the
//! counts in pairs and sets its LED by the half of the pair it is in.
//!
//! Each is a state machine whose `step` runs to the task's next suspension
//! point. The LED level that a task last chose is part of its state; the
//! driver applies it to the pin after each step.

use vstd::prelude::*;
use crate::queue::{SpscQueue, accepts};
use crate::receive::AsyncReceive;
use crate::task::Steppable;

verus! {

/// Where the producer is suspended.
#[derive(Debug, Clone, Copy, PartialEq, Eq, Structural)]
pub enum BlinkPhase {
    /// Not started yet.
    Start,
    /// Suspended with its LED driven low.
    Low,
    /// Suspended with its LED driven high; the next step sends a count.
    High,
}

/// The producer: forever drives its LED low, yields, drives it high, yields,
/// then counts one more blink and sends the count. The blinks are grouped
/// into passes of `(count + 1) / 2`, which must be at least one.
pub struct StepdownButton {
    pub count: usize,
    pub round: usize,
    pub phase: BlinkPhase,
    pub led_low: bool,
    pub ttl_ct: u32,
}

impl StepdownButton {
    /// Blinks in one pass.
    pub open spec fn rounds(self) -> nat {
        ((self.count + 1) / 2) as nat
    }

    /// Whether the state is one that the task can reach.
    pub open spec fn wf(self) -> bool {
        &&& self.rounds() >= 1
        &&& self.round < self.rounds()
    }

    /// The count that the next step sends, if it sends one.
    pub open spec fn sends(self) -> Option<u32> {
        if self.phase == BlinkPhase::High {
            Some(self.ttl_ct.wrapping_add(1))
        } else {
            None
        }
    }

    /// The state after one step.
    pub open spec fn stepped(self) -> StepdownButton {
        match self.phase {
            BlinkPhase::Start => StepdownButton { phase: BlinkPhase::Low, led_low: true, ..self },
            BlinkPhase::Low => StepdownButton { phase: BlinkPhase::High, led_low: false, ..self },
            BlinkPhase::High => StepdownButton {
                phase: BlinkPhase::Low,
                led_low: true,
                ttl_ct: self.ttl_ct.wrapping_add(1),
                round: if self.round + 1 == self.rounds() {
                    0
                } else {
                    (self.round + 1) as usize
                },
                ..self
            },
        }
    }

    /// A producer that has not started, with passes of `(count + 1) / 2`
    /// blinks and its count at `ttl_ct`.
    pub fn new(count: usize, ttl_ct: u32) -> (r: StepdownButton)
        requires
            count >= 1,
        ensures
            r.wf(),
            r.count == count,
            r.round == 0,
            r.phase == BlinkPhase::Start,
            !r.led_low,
            r.ttl_ct == ttl_ct,
    {
        StepdownButton { count, round: 0, phase: BlinkPhase::Start, led_low: false, ttl_ct }
    }

    /// Blinks in one pass, without overflow for any `count`.
    fn pass_length(&self) -> (r: usize)
        ensures
            r == self.rounds(),
    {
        self.count / 2 + self.count % 2
    }
}

impl Steppable for StepdownButton {
    type Context = SpscQueue;
    type Output = ();

    open spec fn is_ready(&self) -> bool {
        false
    }

    /// A step that sends needs room in the queue, and the state must be
    /// reachable.
    open spec fn may_step(&self, cx: SpscQueue) -> bool {
        &&& self.wf()
        &&& self.phase == BlinkPhase::High ==> accepts(cx@)
    }

    open spec fn steps_to(
        &self,
        cx: SpscQueue,
        next: StepdownButton,
        next_cx: SpscQueue,
        out: Option<()>,
    ) -> bool {
        &&& out is None
        &&& next == self.stepped()
        &&& next.wf()
        &&& next_cx@ == match self.sends() {
            Some(v) => cx@.push(v),
            None => cx@,
        }
    }

    fn step(&mut self, cx: &mut SpscQueue) -> (out: Option<()>) {
        match self.phase {
            BlinkPhase::Start => {
                self.led_low = true;
                self.phase = BlinkPhase::Low;
            },
            BlinkPhase::Low => {
                self.led_low = false;
                self.phase = BlinkPhase::High;
            },
            BlinkPhase::High => {
                self.ttl_ct = self.ttl_ct.wrapping_add(1);
                let sent = cx.enqueue(self.ttl_ct);
                proof {
                    assert(sent is Ok);
                }
                let rounds = self.pass_length();
                if self.round + 1 == rounds {
                    self.round = 0;
                } else {
                    self.round = self.round + 1;
                }
                self.led_low = true;
                self.phase = BlinkPhase::Low;
            },
        }
        None
    }
}

/// The consumer: takes counts from the queue in pairs. The first of a pair
/// drives its LED low, the second drives it high. A step takes every count
/// that is there and suspends when the queue is empty.
pub struct MainHandler {
    pub awaiting_second: bool,
    pub led_low: bool,
    pub last: Option<u32>,
}

impl MainHandler {
    /// The state after handling the count `msg`.
    pub open spec fn handled(self, msg: u32) -> MainHandler {
        MainHandler {
            awaiting_second: !self.awaiting_second,
            led_low: !self.awaiting_second,
            last: Some(msg),
        }
    }

    /// The state after handling `msgs`, in order.
    pub open spec fn handled_all(self, msgs: Seq<u32>) -> MainHandler
        decreases msgs.len(),
    {
        if msgs.len() == 0 {
            self
        } else {
            self.handled_all(msgs.drop_last()).handled(msgs.last())
        }
    }

    /// A consumer waiting for the first count of a pair, its LED high.
    pub fn new() -> (r: MainHandler)
        ensures
            !r.awaiting_second,
            !r.led_low,
            r.last is None,
    {
        MainHandler { awaiting_second: false, led_low: false, last: None }
    }
}

impl Steppable for MainHandler {
    type Context = SpscQueue;
    type Output = ();

    open spec fn is_ready(&self) -> bool {
        false
    }

    open spec fn may_step(&self, cx: SpscQueue) -> bool {
        true
    }

    open spec fn steps_to(
        &self,
        cx: SpscQueue,
        next: MainHandler,
        next_cx: SpscQueue,
        out: Option<()>,
    ) -> bool {
        &&& out is None
        &&& next == self.handled_all(cx@)
        &&& next_cx@ == Seq::<u32>::empty()
    }

    fn step(&mut self, cx: &mut SpscQueue) -> (out: Option<()>) {
        let ghost start = *self;
        let ghost msgs = cx@;
        let ghost mut taken: int = 0;
        loop
            invariant
                start == *old(self),
                msgs == old(cx)@,
                0 <= taken <= msgs.len(),
                cx@ == msgs.skip(taken),
                *self == start.handled_all(msgs.take(taken)),
            decreases cx@.len(),
        {
            let mut rx = AsyncReceive::new();
            let ghost before = cx@;
            let got = rx.step(cx);
            proof {
                assert(before.len() == msgs.len() - taken);
            }
            match got {
                Some(msg) => {
                    proof {
                        assert(msgs.take(taken + 1).drop_last() =~= msgs.take(taken));
                        assert(msgs.skip(taken + 1) =~= msgs.skip(taken).drop_first());
                    }
                    self.led_low = !self.awaiting_second;
                    self.awaiting_second = !self.awaiting_second;
                    self.last = Some(msg);
                    proof {
                        taken = taken + 1;
                    }
                },
                None => {
                    proof {
                        assert(msgs.take(taken) =~= msgs);
                        assert(cx@ =~= Seq::<u32>::empty());
                    }
                    return None;
                },
            }
        }
    }
}

} // verus!
