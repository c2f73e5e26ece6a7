//! A fixed-size byte arena with a monotonic cursor.
//!
//! Allocations are carved one after the other from the front of the region
//! and never freed: the cursor only advances, so every allocation keeps its
//! bytes for the rest of the program. A request that does not fit in what is
//! left fails, and then the cursor stays where it was.

use vstd::prelude::*;

verus! {

/// Where an allocation of `size` bytes lands, as a half-open byte range
/// `(start, end)`, when `level` of the `capacity` bytes are taken; `None`
/// when it does not fit.
pub open spec fn placement(capacity: nat, level: nat, size: nat) -> Option<(nat, nat)> {
    if level + size <= capacity {
        Some((level, level + size))
    } else {
        None
    }
}

/// The cursor after a request of `size` bytes at `level`.
pub open spec fn level_after(capacity: nat, level: nat, size: nat) -> nat {
    if level + size <= capacity {
        level + size
    } else {
        level
    }
}

/// The cursor of a fresh arena after the first `i` requests of `sizes`.
pub open spec fn level_of(capacity: nat, sizes: Seq<nat>, i: nat) -> nat
    decreases i,
{
    if i == 0 {
        0
    } else {
        level_after(capacity, level_of(capacity, sizes, (i - 1) as nat), sizes[i - 1])
    }
}

/// What the `i`-th request of `sizes` gets from a fresh arena.
pub open spec fn outcome(capacity: nat, sizes: Seq<nat>, i: nat) -> Option<(nat, nat)> {
    placement(capacity, level_of(capacity, sizes, i), sizes[i as int])
}

/// The sum of the first `i` sizes.
pub open spec fn prefix_total(sizes: Seq<nat>, i: nat) -> nat
    decreases i,
{
    if i == 0 {
        0
    } else {
        prefix_total(sizes, (i - 1) as nat) + sizes[i - 1]
    }
}

/// A range of bytes handed out by an arena: `len` bytes from `start`.
#[derive(Debug, Clone, Copy, PartialEq, Eq, Structural)]
pub struct Span {
    pub start: usize,
    pub len: usize,
}

/// The arena had fewer bytes left than a request asked for.
#[derive(Debug, Clone, Copy, PartialEq, Eq, Structural)]
pub struct AllocError {
    pub requested: usize,
    pub available: usize,
}

/// A fixed-size region of `capacity` bytes whose first `used` are taken.
pub struct Arena {
    capacity: usize,
    used: usize,
}

impl Arena {
    #[verifier::type_invariant]
    spec fn inv(&self) -> bool {
        self.used <= self.capacity
    }

    /// The size of the region in bytes.
    pub closed spec fn size(&self) -> nat {
        self.capacity as nat
    }

    /// The cursor: the number of bytes taken so far.
    pub closed spec fn level(&self) -> nat {
        self.used as nat
    }

    /// An arena of `capacity` bytes with nothing taken.
    pub fn new(capacity: usize) -> (r: Arena)
        ensures
            r.size() == capacity,
            r.level() == 0,
    {
        Arena { capacity, used: 0 }
    }

    /// The size of the region in bytes.
    pub fn capacity(&self) -> (r: usize)
        ensures
            r == self.size(),
    {
        self.capacity
    }

    /// The number of bytes taken so far.
    pub fn used(&self) -> (r: usize)
        ensures
            r == self.level(),
            self.level() <= self.size(),
    {
        proof {
            use_type_invariant(self);
        }
        self.used
    }

    /// The number of bytes still free.
    pub fn remaining(&self) -> (r: usize)
        ensures
            r == self.size() - self.level(),
    {
        proof {
            use_type_invariant(self);
        }
        self.capacity - self.used
    }

    /// Takes the next `size` bytes. Fails, taking nothing, when fewer than
    /// `size` bytes are left.
    pub fn allocate(&mut self, size: usize) -> (r: Result<Span, AllocError>)
        ensures
            final(self).size() == old(self).size(),
            final(self).level() == level_after(old(self).size(), old(self).level(), size as nat),
            final(self).level() <= final(self).size(),
            match r {
                Ok(span) => span.len == size && placement(
                    old(self).size(),
                    old(self).level(),
                    size as nat,
                ) == Some((span.start as nat, (span.start + span.len) as nat)),
                Err(e) => placement(old(self).size(), old(self).level(), size as nat) is None
                    && e == (AllocError {
                    requested: size,
                    available: (old(self).size() - old(self).level()) as usize,
                }),
            },
    {
        proof {
            use_type_invariant(&*self);
        }
        let available = self.capacity - self.used;
        if size <= available {
            let span = Span { start: self.used, len: size };
            self.used = self.used + size;
            Ok(span)
        } else {
            Err(AllocError { requested: size, available })
        }
    }

    /// Moves `value` into the next `size_of::<T>()` bytes, where it stays for
    /// the rest of the program. Fails, taking nothing, when it does not fit.
    pub fn allocate_value<T>(&mut self, value: T) -> (r: Result<StaticRef<T>, AllocError>)
        ensures
            final(self).size() == old(self).size(),
            final(self).level() == level_after(
                old(self).size(),
                old(self).level(),
                vstd::layout::size_of::<T>(),
            ),
            final(self).level() <= final(self).size(),
            match r {
                Ok(slot) => slot.value() == value && placement(
                    old(self).size(),
                    old(self).level(),
                    vstd::layout::size_of::<T>(),
                ) == Some((slot.span().start as nat, (slot.span().start + slot.span().len) as nat)),
                Err(_) => placement(
                    old(self).size(),
                    old(self).level(),
                    vstd::layout::size_of::<T>(),
                ) is None,
            },
    {
        let size = core::mem::size_of::<T>();
        match self.allocate(size) {
            Ok(span) => Ok(StaticRef { span, value }),
            Err(e) => Err(e),
        }
    }
}

/// A value placed in an arena, owned by whoever holds this handle. Nothing
/// else refers to the same bytes.
pub struct StaticRef<T> {
    span: Span,
    value: T,
}

impl<T> StaticRef<T> {
    /// The bytes that the value occupies.
    pub closed spec fn span(&self) -> Span {
        self.span
    }

    /// The value held.
    pub closed spec fn value(&self) -> T {
        self.value
    }

    /// The bytes that the value occupies.
    pub fn location(&self) -> (r: Span)
        ensures
            r == self.span(),
    {
        self.span
    }

    /// Shared access to the value.
    pub fn get(&self) -> (r: &T)
        ensures
            *r == self.value(),
    {
        &self.value
    }

    /// Exclusive access to the value, which stays in place.
    pub fn get_mut(&mut self) -> (r: &mut T)
        ensures
            *r == old(self).value(),
            final(self).span() == old(self).span(),
            final(self).value() == *final(r),
    {
        &mut self.value
    }
}

proof fn lemma_levels_follow_totals(capacity: nat, sizes: Seq<nat>, i: nat)
    requires
        i <= sizes.len(),
        prefix_total(sizes, i) <= capacity,
    ensures
        level_of(capacity, sizes, i) == prefix_total(sizes, i),
    decreases i,
{
    if i > 0 {
        lemma_levels_follow_totals(capacity, sizes, (i - 1) as nat);
    }
}

proof fn lemma_levels_grow(capacity: nat, sizes: Seq<nat>, i: nat, j: nat)
    requires
        i <= j,
    ensures
        level_of(capacity, sizes, i) <= level_of(capacity, sizes, j),
    decreases j,
{
    if i < j {
        lemma_levels_grow(capacity, sizes, i, (j - 1) as nat);
    }
}

proof fn lemma_totals_grow(sizes: Seq<nat>, i: nat, j: nat)
    requires
        i <= j,
    ensures
        prefix_total(sizes, i) <= prefix_total(sizes, j),
    decreases j,
{
    if i < j {
        lemma_totals_grow(sizes, i, (j - 1) as nat);
    }
}

/// Requests made in turn on a fresh arena of `capacity` bytes: while the
/// running total of the sizes stays within the capacity each request
/// succeeds, right after the previous one; the first request that takes the
/// running total past the capacity fails; and any two requests that succeed
/// occupy disjoint byte ranges.
pub proof fn law_allocation_sequence(capacity: nat, sizes: Seq<nat>)
    ensures
        forall|i: nat|
            #![trigger outcome(capacity, sizes, i)]
            i < sizes.len() && prefix_total(sizes, i + 1) <= capacity ==> outcome(
                capacity,
                sizes,
                i,
            ) == Some((prefix_total(sizes, i), prefix_total(sizes, i + 1))),
        prefix_total(sizes, sizes.len()) <= capacity ==> forall|i: nat|
            #![trigger outcome(capacity, sizes, i)]
            i < sizes.len() ==> outcome(capacity, sizes, i) is Some,
        forall|i: nat|
            #![trigger outcome(capacity, sizes, i)]
            i < sizes.len() && prefix_total(sizes, i) <= capacity && capacity < prefix_total(
                sizes,
                i + 1,
            ) ==> outcome(capacity, sizes, i) is None,
        forall|i: nat, j: nat|
            #![trigger outcome(capacity, sizes, i), outcome(capacity, sizes, j)]
            i < j < sizes.len() && outcome(capacity, sizes, i) is Some && outcome(
                capacity,
                sizes,
                j,
            ) is Some ==> (outcome(capacity, sizes, i)->0).1 <= (outcome(capacity, sizes, j)->0).0,
{
    assert forall|i: nat|
        #![trigger outcome(capacity, sizes, i)]
        i < sizes.len() && prefix_total(sizes, i) <= capacity implies level_of(capacity, sizes, i)
        == prefix_total(sizes, i) by {
        lemma_levels_follow_totals(capacity, sizes, i);
    }
    assert forall|i: nat|
        #![trigger outcome(capacity, sizes, i)]
        i < sizes.len() && prefix_total(sizes, i + 1) <= capacity implies prefix_total(sizes, i)
        <= capacity by {
        lemma_totals_grow(sizes, i, i + 1);
    }
    if prefix_total(sizes, sizes.len()) <= capacity {
        assert forall|i: nat|
            #![trigger outcome(capacity, sizes, i)]
            i < sizes.len() implies prefix_total(sizes, i + 1) <= capacity by {
            lemma_totals_grow(sizes, i + 1, sizes.len());
        }
    }
    assert forall|i: nat, j: nat|
        #![trigger outcome(capacity, sizes, i), outcome(capacity, sizes, j)]
        i < j < sizes.len() && outcome(capacity, sizes, i) is Some && outcome(
            capacity,
            sizes,
            j,
        ) is Some implies (outcome(capacity, sizes, i)->0).1 <= (outcome(capacity, sizes, j)->0).0 by {
        lemma_levels_grow(capacity, sizes, i + 1, j);
    }
}

} // verus!
