//! Steppable computations, the task handles that hold them in an arena, and
//! the executor's single operation: advance a task by one step.
//!
//! A step runs a computation up to its next suspension point. It returns
//! `None` when the computation suspended (it is still pending) and
//! `Some(result)` when it finished. A finished computation is never stepped
//! again: `step` requires that it has not finished.

use vstd::prelude::*;
use crate::arena::{AllocError, Arena, Span, StaticRef};

verus! {

/// A computation that is advanced one step at a time by its driver.
///
/// Each step borrows a `Context` from the driver: the capabilities that the
/// computation uses while it runs (a queue end, or nothing at all).
pub trait Steppable: Sized {
    type Context;
    type Output;

    /// Whether the computation has finished.
    spec fn is_ready(&self) -> bool;

    /// Whether a step taken now with `cx` keeps to the computation's own
    /// conditions (for example, room in a queue that it will fill).
    spec fn may_step(&self, cx: Self::Context) -> bool;

    /// One step from `self` with `cx` may end in `next` with `next_cx`,
    /// returning `out`.
    spec fn steps_to(
        &self,
        cx: Self::Context,
        next: Self,
        next_cx: Self::Context,
        out: Option<Self::Output>,
    ) -> bool;

    /// Runs to the next suspension point.
    fn step(&mut self, cx: &mut Self::Context) -> (out: Option<Self::Output>)
        requires
            !old(self).is_ready(),
            old(self).may_step(*old(cx)),
        ensures
            old(self).steps_to(*old(cx), *final(self), *final(cx), out),
            out is Some == final(self).is_ready(),
    ;
}

/// A computation placed in an arena, where it stays while the handle that
/// owns it is moved around.
pub struct TaskHandle<C> {
    slot: StaticRef<C>,
}

impl<C> TaskHandle<C> {
    /// The computation's current state.
    pub closed spec fn computation(&self) -> C {
        self.slot.value()
    }

    /// The arena bytes that hold the computation.
    pub closed spec fn span(&self) -> Span {
        self.slot.span()
    }

    /// The arena bytes that hold the computation.
    pub fn location(&self) -> (r: Span)
        ensures
            r == self.span(),
    {
        self.slot.location()
    }

    /// Shared access to the computation.
    pub fn computation_ref(&self) -> (r: &C)
        ensures
            *r == self.computation(),
    {
        self.slot.get()
    }

    /// Builds a task in two phases: `data` is placed in the arena first, then
    /// `entry` builds the computation from the placed data, and the
    /// computation is placed right after it. Fails when either does not fit;
    /// bytes taken by the data stay taken.
    pub fn spawn<D, F: FnOnce(StaticRef<D>) -> C>(arena: &mut Arena, data: D, entry: F) -> (r:
        Result<TaskHandle<C>, AllocError>)
        requires
            forall|d: StaticRef<D>| entry.requires((d,)),
        ensures
            final(arena).size() == old(arena).size(),
            final(arena).level() <= final(arena).size(),
            ({
                let cap = old(arena).size();
                let l0 = old(arena).level();
                let l1 = l0 + vstd::layout::size_of::<D>();
                let l2 = l1 + vstd::layout::size_of::<C>();
                if l1 > cap {
                    r is Err && final(arena).level() == l0
                } else if l2 > cap {
                    r is Err && final(arena).level() == l1
                } else {
                    r is Ok && final(arena).level() == l2 && r->Ok_0.span().start == l1
                        && r->Ok_0.span().len == vstd::layout::size_of::<C>() && exists|
                        d: StaticRef<D>,
                    |
                        d.value() == data && d.span().start == l0 && d.span().len
                            == vstd::layout::size_of::<D>() && entry.ensures(
                            (d,),
                            r->Ok_0.computation(),
                        )
                }
            }),
    {
        let placed = match arena.allocate_value(data) {
            Ok(placed) => placed,
            Err(e) => {
                return Err(e);
            },
        };
        let computation = entry(placed);
        match arena.allocate_value(computation) {
            Ok(slot) => Ok(TaskHandle { slot }),
            Err(e) => Err(e),
        }
    }
}

/// Advances `task` by one step. The caller is its one driver, and must not
/// call this again once the task has finished.
pub fn step<C: Steppable>(task: &mut TaskHandle<C>, cx: &mut C::Context) -> (out: Option<
    C::Output,
>)
    requires
        !old(task).computation().is_ready(),
        old(task).computation().may_step(*old(cx)),
    ensures
        old(task).computation().steps_to(*old(cx), final(task).computation(), *final(cx), out),
        out is Some == final(task).computation().is_ready(),
        final(task).span() == old(task).span(),
{
    let computation = task.slot.get_mut();
    computation.step(cx)
}

/// A computation that passes `left` more yield points and then finishes.
pub struct YieldPoints {
    pub left: u64,
    pub finished: bool,
}

impl YieldPoints {
    /// A computation with `k` yield points.
    pub open spec fn start(k: u64) -> YieldPoints {
        YieldPoints { left: k, finished: false }
    }

    /// The state after one step.
    pub open spec fn stepped(self) -> YieldPoints {
        if self.left > 0 {
            YieldPoints { left: (self.left - 1) as u64, finished: self.finished }
        } else {
            YieldPoints { left: 0, finished: true }
        }
    }

    /// What one step returns.
    pub open spec fn step_result(self) -> Option<()> {
        if self.left > 0 {
            None
        } else {
            Some(())
        }
    }

    /// The state after `n` steps.
    pub open spec fn after(self, n: nat) -> YieldPoints
        decreases n,
    {
        if n == 0 {
            self
        } else {
            self.stepped().after((n - 1) as nat)
        }
    }

    /// A computation with `k` yield points.
    pub fn new(k: u64) -> (r: YieldPoints)
        ensures
            r == YieldPoints::start(k),
    {
        YieldPoints { left: k, finished: false }
    }
}

impl Steppable for YieldPoints {
    type Context = ();
    type Output = ();

    open spec fn is_ready(&self) -> bool {
        self.finished
    }

    open spec fn may_step(&self, cx: ()) -> bool {
        true
    }

    open spec fn steps_to(&self, cx: (), next: YieldPoints, next_cx: (), out: Option<()>) -> bool {
        next == self.stepped() && out == self.step_result()
    }

    fn step(&mut self, cx: &mut ()) -> (out: Option<()>) {
        if self.left > 0 {
            self.left = self.left - 1;
            None
        } else {
            self.finished = true;
            Some(())
        }
    }
}

proof fn lemma_pending_until_last(k: u64, n: nat)
    requires
        n <= k,
    ensures
        YieldPoints::start(k).after(n) == YieldPoints::start((k - n) as u64),
    decreases n,
{
    if n > 0 {
        lemma_pending_until_last(k, (n - 1) as nat);
        lemma_after_split(YieldPoints::start(k), (n - 1) as nat);
    }
}

proof fn lemma_after_split(c: YieldPoints, n: nat)
    ensures
        c.after(n + 1) == c.after(n).stepped(),
    decreases n,
{
    if n > 0 {
        lemma_after_split(c.stepped(), (n - 1) as nat);
    } else {
        assert(c.stepped().after(0) == c.stepped());
    }
}

/// A computation with `k` yield points is pending after each of its first
/// `k` steps, each of which returns no result, and step `k + 1` finishes it.
pub proof fn law_yield_points_take_k_plus_one_steps(k: u64)
    ensures
        forall|n: nat|
            #![trigger YieldPoints::start(k).after(n)]
            n < k ==> !YieldPoints::start(k).after(n).is_ready() && YieldPoints::start(k).after(
                n,
            ).step_result() is None,
        !YieldPoints::start(k).after(k as nat).is_ready(),
        YieldPoints::start(k).after(k as nat).step_result() == Some(()),
        YieldPoints::start(k).after((k + 1) as nat).is_ready(),
{
    assert forall|n: nat|
        #![trigger YieldPoints::start(k).after(n)]
        n <= k implies YieldPoints::start(k).after(n) == YieldPoints::start((k - n) as u64) by {
        lemma_pending_until_last(k, n);
    }
    lemma_after_split(YieldPoints::start(k), k as nat);
}

} // verus!
