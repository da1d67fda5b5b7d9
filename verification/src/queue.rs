use vstd::prelude::*;

verus! {

/// An ordered, unbounded FIFO buffer for values that arrive while no
/// handler is installed.  Values are appended at the back as they arrive
/// and taken from the front when a handler becomes available, so insertion
/// order is arrival order.  There is no bound and no eviction: how much is
/// allowed to accumulate is the caller's concern.
pub struct PendingQueue<T> {
    items: Vec<T>,
}

impl<T> View for PendingQueue<T> {
    type V = Seq<T>;

    closed spec fn view(&self) -> Seq<T> {
        self.items@
    }
}

impl<T> PendingQueue<T> {
    /// An empty queue.
    pub fn new() -> (q: Self)
        ensures
            q@ == Seq::<T>::empty(),
    {
        PendingQueue { items: Vec::new() }
    }

    /// Append `value` at the back.
    pub fn push(&mut self, value: T)
        ensures
            final(self)@ == old(self)@.push(value),
    {
        self.items.push(value);
    }

    /// Take the value at the front, oldest first, or `None` from an empty
    /// queue; the remaining values keep their order.
    pub fn pop_front(&mut self) -> (r: Option<T>)
        ensures
            old(self)@.len() == 0 ==> r is None && final(self)@ == old(self)@,
            old(self)@.len() > 0 ==> r == Some(old(self)@[0]) && final(self)@ == old(
                self,
            )@.subrange(1, old(self)@.len() as int),
    {
        if self.items.len() == 0 {
            None
        } else {
            let v = self.items.remove(0);
            proof {
                assert(self.items@ =~= old(self).items@.subrange(1, old(self).items@.len() as int));
            }
            Some(v)
        }
    }

    /// The number of buffered values.
    pub fn len(&self) -> (n: usize)
        ensures
            n == self@.len(),
    {
        self.items.len()
    }
}

} // verus!
