//! A bounded first-in, first-out buffer: once it is full, each new item
//! evicts the oldest one.

use std::collections::VecDeque;
use vstd::prelude::*;

verus! {

/// What a buffer of capacity `capacity` holds after `item` is pushed onto `items`.
pub open spec fn pushed<T>(items: Seq<T>, capacity: nat, item: T) -> Seq<T> {
    if items.len() == capacity && items.len() > 0 {
        items.drop_first().push(item)
    } else {
        items.push(item)
    }
}

/// What a buffer of capacity `capacity` holds after each of `more` is pushed onto
/// `items`, in order.
pub open spec fn pushed_all<T>(items: Seq<T>, capacity: nat, more: Seq<T>) -> Seq<T>
    decreases more.len(),
{
    if more.len() == 0 {
        items
    } else {
        pushed(pushed_all(items, capacity, more.drop_last()), capacity, more.last())
    }
}

/// The last `count` items of `items`, or all of them where there are fewer.
pub open spec fn latest<T>(items: Seq<T>, count: nat) -> Seq<T> {
    if items.len() <= count {
        items
    } else {
        items.subrange(items.len() - count, items.len() as int)
    }
}

/// What a buffer is, as plain values: what it holds, the oldest item first, and
/// the number of items after which a push evicts the oldest.
pub struct BufferView<T> {
    pub items: Seq<T>,
    pub capacity: nat,
}

impl<T> BufferView<T> {
    /// The buffer holds no more than its capacity.
    pub open spec fn wf(self) -> bool {
        self.capacity > 0 ==> self.items.len() <= self.capacity
    }

    /// The buffer once `item` is pushed onto it.
    pub open spec fn push(self, item: T) -> BufferView<T> {
        BufferView { items: pushed(self.items, self.capacity, item), capacity: self.capacity }
    }
}

/// A buffer that keeps the latest items pushed onto it, up to its capacity.
#[derive(Debug, PartialEq, Eq)]
pub struct Buffer<T> {
    capacity: usize,
    buffer: VecDeque<T>,
}

impl<T> View for Buffer<T> {
    type V = BufferView<T>;

    closed spec fn view(&self) -> BufferView<T> {
        BufferView { items: self.buffer@, capacity: self.capacity as nat }
    }
}

impl<T> Buffer<T> {
    /// The buffer holds no more than its capacity.
    pub open spec fn wf(&self) -> bool {
        self@.wf()
    }

    /// An empty buffer of the given capacity.
    pub fn new(capacity: usize) -> (buffer: Self)
        ensures
            buffer@ == (BufferView { items: Seq::<T>::empty(), capacity: capacity as nat }),
            buffer.wf(),
    {
        Buffer { capacity, buffer: VecDeque::with_capacity(capacity) }
    }

    /// Adds `item` as the newest; where the buffer is full, the oldest item leaves.
    pub fn push(&mut self, item: T)
        ensures
            final(self)@ == old(self)@.push(item),
            old(self).wf() ==> final(self).wf(),
    {
        if self.buffer.len() == self.capacity {
            self.buffer.pop_front();
        }
        self.buffer.push_back(item);
    }

    /// The number of items held.
    pub fn len(&self) -> (len: usize)
        ensures
            len == self@.items.len(),
    {
        self.buffer.len()
    }

    /// The capacity the buffer was made with.
    pub fn limit(&self) -> (capacity: usize)
        ensures
            capacity == self@.capacity,
    {
        self.capacity
    }

    /// The item at position `index`, counted from the oldest.
    pub fn get(&self, index: usize) -> (item: &T)
        requires
            index < self@.items.len(),
        ensures
            *item == self@.items[index as int],
    {
        &self.buffer[index]
    }
}

/// A push never takes a bounded buffer over its capacity.
pub proof fn lemma_push_stays_within_capacity<T>(items: Seq<T>, capacity: nat, item: T)
    requires
        capacity > 0,
        items.len() <= capacity,
    ensures
        pushed(items, capacity, item).len() <= capacity,
        pushed(items, capacity, item).last() == item,
{
}

/// After any number of pushes a bounded buffer holds the latest items of what it
/// held followed by what was pushed, as many as its capacity allows, in the
/// order in which they came.
pub proof fn lemma_pushes_keep_the_latest<T>(items: Seq<T>, capacity: nat, more: Seq<T>)
    requires
        capacity > 0,
        items.len() <= capacity,
    ensures
        pushed_all(items, capacity, more) == latest(items + more, capacity),
    decreases more.len(),
{
    if more.len() == 0 {
        assert(items + more =~= items);
    } else {
        let before = more.drop_last();
        lemma_pushes_keep_the_latest(items, capacity, before);
        assert(items + more =~= (items + before).push(more.last()));
        assert(pushed(latest(items + before, capacity), capacity, more.last()) =~= latest(
            items + more,
            capacity,
        ));
    }
}

} // verus!
