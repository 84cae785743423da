//! The ordered buffer behind a blocking queue: items leave in the order they came.

use std::collections::VecDeque;
use vstd::prelude::*;

verus! {

/// The contents after appending `items`, one by one, to `q`.
pub open spec fn put_all<T>(q: Seq<T>, items: Seq<T>) -> Seq<T>
    decreases items.len(),
{
    if items.len() == 0 {
        q
    } else {
        put_all(q.push(items[0]), items.drop_first())
    }
}

/// What `n` successive takes from a queue holding `q` hand out, in order
/// (a take on an empty buffer hands out nothing).
pub open spec fn take_all<T>(q: Seq<T>, n: nat) -> Seq<T>
    decreases n,
{
    if n == 0 || q.len() == 0 {
        Seq::empty()
    } else {
        seq![q[0]] + take_all(q.drop_first(), (n - 1) as nat)
    }
}

/// An unbounded first-in first-out buffer.
pub struct Fifo<T> {
    items: VecDeque<T>,
}

impl<T> View for Fifo<T> {
    type V = Seq<T>;

    closed spec fn view(&self) -> Seq<T> {
        self.items@
    }
}

impl<T> Fifo<T> {
    pub fn new() -> (q: Fifo<T>)
        ensures
            q@ == Seq::<T>::empty(),
    {
        Fifo { items: VecDeque::new() }
    }

    /// Appends `item` at the tail.
    pub fn put(&mut self, item: T)
        ensures
            final(self)@ == old(self)@.push(item),
    {
        self.items.push_back(item);
    }

    /// Removes and returns the head; `None` where the buffer is empty.
    pub fn take(&mut self) -> (res: Option<T>)
        ensures
            old(self)@.len() == 0 ==> res.is_none() && final(self)@ == old(self)@,
            old(self)@.len() > 0 ==> res == Some(old(self)@[0]) && final(self)@
                == old(self)@.drop_first(),
    {
        self.items.pop_front()
    }

    pub fn len(&self) -> (n: usize)
        ensures
            n == self@.len(),
    {
        self.items.len()
    }

    pub fn is_empty(&self) -> (res: bool)
        ensures
            res == (self@.len() == 0),
    {
        self.items.len() == 0
    }
}

pub proof fn lemma_put_all_appends<T>(q: Seq<T>, items: Seq<T>)
    ensures
        put_all(q, items) == q + items,
    decreases items.len(),
{
    if items.len() == 0 {
        assert(q + items =~= q);
    } else {
        lemma_put_all_appends(q.push(items[0]), items.drop_first());
        assert(q.push(items[0]) + items.drop_first() =~= q + items);
    }
}

pub proof fn lemma_take_all_prefix<T>(q: Seq<T>, n: nat)
    requires
        n <= q.len(),
    ensures
        take_all(q, n) == q.take(n as int),
    decreases n,
{
    if n == 0 {
        assert(q.take(0) =~= Seq::<T>::empty());
    } else {
        lemma_take_all_prefix(q.drop_first(), (n - 1) as nat);
        assert(seq![q[0]] + q.drop_first().take(n - 1) =~= q.take(n as int));
    }
}

/// Items put one after another into a buffer are taken back in that same
/// order, after whatever it already held: none is lost, none is repeated.
pub proof fn lemma_fifo_order<T>(held: Seq<T>, items: Seq<T>)
    ensures
        take_all(put_all(held, items), held.len() + items.len()) == held + items,
        take_all(put_all(Seq::empty(), items), items.len()) == items,
{
    lemma_put_all_appends(held, items);
    lemma_take_all_prefix(held + items, held.len() + items.len());
    assert((held + items).take((held.len() + items.len()) as int) =~= held + items);
    lemma_put_all_appends(Seq::empty(), items);
    lemma_take_all_prefix(Seq::<T>::empty() + items, items.len());
    assert((Seq::<T>::empty() + items).take(items.len() as int) =~= items);
}

} // verus!
