use vstd::prelude::*;

verus! {

/// Hook applied to every value on its way into a channel.
pub fn sender_hooks<T>(value: T) -> (r: T)
    ensures
        r == value,
{
    value
}

/// Hook applied to every value on its way out of a channel.
pub fn receiver_hooks<T>(value: T) -> (r: T)
    ensures
        r == value,
{
    value
}

/// The contents of a drop-oldest queue of capacity `cap` after pushing `x`.
pub open spec fn lossy_push<T>(s: Seq<T>, cap: nat, x: T) -> Seq<T> {
    if s.len() < cap {
        s.push(x)
    } else {
        s.drop_first().push(x)
    }
}

/// The contents after pushing every item of `xs`, in order.
pub open spec fn lossy_push_all<T>(s: Seq<T>, cap: nat, xs: Seq<T>) -> Seq<T>
    decreases xs.len(),
{
    if xs.len() == 0 {
        s
    } else {
        lossy_push(lossy_push_all(s, cap, xs.drop_last()), cap, xs.last())
    }
}

/// The `n` most recent items of `s` (all of them when there are fewer).
pub open spec fn latest<T>(s: Seq<T>, n: nat) -> Seq<T> {
    if s.len() <= n {
        s
    } else {
        s.subrange(s.len() - n, s.len() as int)
    }
}

/// A bounded FIFO that, when full, discards its oldest item to make room:
/// a slow reader sees the freshest lines instead of stalling the writer.
pub struct LossyQueue<T> {
    items: Vec<T>,
    capacity: usize,
}

impl<T> View for LossyQueue<T> {
    type V = Seq<T>;

    closed spec fn view(&self) -> Seq<T> {
        self.items@
    }
}

impl<T> LossyQueue<T> {
    pub closed spec fn spec_capacity(&self) -> nat {
        self.capacity as nat
    }

    pub closed spec fn wf(&self) -> bool {
        &&& self.capacity > 0
        &&& self.items@.len() <= self.capacity
    }

    /// A well-formed queue holds at most its capacity, which is positive.
    pub proof fn lemma_bounds(&self)
        requires
            self.wf(),
        ensures
            self@.len() <= self.spec_capacity(),
            self.spec_capacity() > 0,
    {
    }

    pub fn new(capacity: usize) -> (r: Self)
        requires
            capacity > 0,
        ensures
            r.wf(),
            r@ == Seq::<T>::empty(),
            r.spec_capacity() == capacity,
    {
        LossyQueue { items: Vec::new(), capacity }
    }

    pub fn capacity(&self) -> (r: usize)
        ensures
            r == self.spec_capacity(),
    {
        self.capacity
    }

    pub fn len(&self) -> (r: usize)
        ensures
            r == self@.len(),
    {
        self.items.len()
    }

    pub fn is_full(&self) -> (r: bool)
        ensures
            r == (self@.len() >= self.spec_capacity()),
    {
        self.items.len() >= self.capacity
    }

    /// Appends `value`; when the queue is full the oldest item is discarded
    /// first and handed back.
    pub fn push(&mut self, value: T) -> (dropped: Option<T>)
        requires
            old(self).wf(),
        ensures
            final(self).wf(),
            final(self).spec_capacity() == old(self).spec_capacity(),
            final(self)@ == lossy_push(old(self)@, old(self).spec_capacity(), value),
            old(self)@.len() < old(self).spec_capacity() ==> dropped.is_none(),
            old(self)@.len() >= old(self).spec_capacity() ==> dropped == Some(old(self)@[0]),
    {
        let ghost before = self.items@;
        let dropped = if self.items.len() >= self.capacity {
            let first = self.items.remove(0);
            assert(self.items@ =~= before.drop_first());
            Some(first)
        } else {
            None
        };
        self.items.push(value);
        dropped
    }

    /// Takes the oldest item, if any.
    pub fn pop(&mut self) -> (r: Option<T>)
        requires
            old(self).wf(),
        ensures
            final(self).wf(),
            final(self).spec_capacity() == old(self).spec_capacity(),
            old(self)@.len() == 0 ==> r.is_none() && final(self)@ == old(self)@,
            old(self)@.len() > 0 ==> r == Some(old(self)@[0]) && final(self)@ == old(self)@.drop_first(),
    {
        if self.items.len() == 0 {
            None
        } else {
            let ghost before = self.items@;
            let first = self.items.remove(0);
            assert(self.items@ =~= before.drop_first());
            Some(first)
        }
    }
}

/// Pushing a run of items into a drop-oldest queue leaves exactly the most
/// recent `capacity` items of everything that went in, in order.
pub proof fn lemma_lossy_keeps_latest<T>(s: Seq<T>, cap: nat, xs: Seq<T>)
    requires
        cap > 0,
        s.len() <= cap,
    ensures
        lossy_push_all(s, cap, xs) == latest(s + xs, cap),
    decreases xs.len(),
{
    if xs.len() == 0 {
        assert(s + xs =~= s);
    } else {
        let prefix = xs.drop_last();
        lemma_lossy_keeps_latest(s, cap, prefix);
        let before = latest(s + prefix, cap);
        let all = s + xs;
        assert(all =~= (s + prefix).push(xs.last()));
        if (s + prefix).len() < cap {
            assert(lossy_push(before, cap, xs.last()) =~= latest(all, cap));
        } else {
            assert(lossy_push(before, cap, xs.last()) =~= latest(all, cap));
        }
    }
}

/// With a stalled reader, after `capacity + k` pushes into an empty queue the
/// next read yields the item pushed at position `k`: one of the `capacity`
/// most recent, never one of the `k` that were discarded.
pub proof fn lemma_overflow_reads_recent<T>(cap: nat, xs: Seq<T>, k: nat)
    requires
        cap > 0,
        k > 0,
        xs.len() == cap + k,
    ensures
        lossy_push_all(Seq::<T>::empty(), cap, xs).len() == cap,
        lossy_push_all(Seq::<T>::empty(), cap, xs)[0] == xs[k as int],
        forall|i: int|
            0 <= i < cap ==> lossy_push_all(Seq::<T>::empty(), cap, xs)[i] == xs[k + i],
{
    lemma_lossy_keeps_latest(Seq::<T>::empty(), cap, xs);
    assert(Seq::<T>::empty() + xs =~= xs);
}

} // verus!
