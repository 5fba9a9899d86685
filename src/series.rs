//! Fixed-capacity FIFO buffers for chart series.

use std::collections::VecDeque;
use vstd::prelude::*;

verus! {

/// The last `n` elements of `s`, or all of `s` when it holds no more than `n`.
pub open spec fn last_n<T>(s: Seq<T>, n: nat) -> Seq<T> {
    if s.len() <= n {
        s
    } else {
        s.subrange(s.len() - n, s.len() as int)
    }
}

/// The contents after one push onto a buffer of capacity `cap` holding `s`.
pub open spec fn pushed<T>(s: Seq<T>, v: T, cap: nat) -> Seq<T> {
    last_n(s.push(v), cap)
}

/// The contents after pushing every element of `xs`, in order, onto a buffer of
/// capacity `cap` holding `s`.
pub open spec fn pushed_all<T>(s: Seq<T>, xs: Seq<T>, cap: nat) -> Seq<T>
    decreases xs.len(),
{
    if xs.len() == 0 {
        s
    } else {
        pushed(pushed_all(s, xs.drop_last(), cap), xs.last(), cap)
    }
}

/// An ordered buffer that holds at most `capacity` values; a push onto a full
/// buffer evicts the oldest value first.
pub struct SeriesBuffer<T> {
    data: VecDeque<T>,
    capacity: usize,
}

impl<T> View for SeriesBuffer<T> {
    type V = Seq<T>;

    closed spec fn view(&self) -> Seq<T> {
        self.data@
    }
}

impl<T: Copy> SeriesBuffer<T> {
    /// The capacity that the buffer was made with.
    pub closed spec fn cap(&self) -> nat {
        self.capacity as nat
    }

    pub open spec fn wf(&self) -> bool {
        &&& 0 < self.cap()
        &&& self@.len() <= self.cap()
    }

    pub fn new(capacity: usize) -> (r: Self)
        requires
            capacity > 0,
        ensures
            r.wf(),
            r@ == Seq::<T>::empty(),
            r.cap() == capacity,
    {
        SeriesBuffer { data: VecDeque::with_capacity(capacity), capacity }
    }

    pub fn capacity(&self) -> (r: usize)
        ensures
            r == self.cap(),
    {
        self.capacity
    }

    pub fn len(&self) -> (r: usize)
        ensures
            r == self@.len(),
    {
        self.data.len()
    }

    pub fn is_empty(&self) -> (r: bool)
        ensures
            r == (self@.len() == 0),
    {
        self.data.len() == 0
    }

    /// Appends `value`, evicting the oldest value first when the buffer is full.
    pub fn push(&mut self, value: T)
        requires
            old(self).wf(),
        ensures
            final(self).wf(),
            final(self).cap() == old(self).cap(),
            final(self)@ == pushed(old(self)@, value, old(self).cap()),
    {
        if self.data.len() == self.capacity {
            let _ = self.data.pop_front();
        }
        self.data.push_back(value);
        assert(self.data@ =~= pushed(old(self)@, value, old(self).cap()));
    }

    /// Removes every value.
    pub fn clear(&mut self)
        requires
            old(self).wf(),
        ensures
            final(self).wf(),
            final(self).cap() == old(self).cap(),
            final(self)@ == Seq::<T>::empty(),
    {
        self.data.clear();
    }

    /// The newest value, if any.
    pub fn last(&self) -> (r: Option<T>)
        ensures
            r == (if self@.len() == 0 {
                None
            } else {
                Some(self@.last())
            }),
    {
        let n = self.data.len();
        if n == 0 {
            None
        } else {
            Some(self.data[n - 1])
        }
    }

    /// The contents, oldest first, without changing the buffer.
    pub fn snapshot(&self) -> (r: Vec<T>)
        ensures
            r@ == self@,
    {
        self.window(self.data.len())
    }

    /// The newest `width` values, oldest first (all of them when fewer are held).
    pub fn window(&self, width: usize) -> (r: Vec<T>)
        ensures
            r@ == last_n(self@, width as nat),
    {
        let n = self.data.len();
        let start: usize = if n > width {
            n - width
        } else {
            0
        };
        let mut out: Vec<T> = Vec::new();
        let mut i: usize = start;
        while i < n
            invariant
                start <= i <= n,
                n == self@.len(),
                out@ =~= self@.subrange(start as int, i as int),
            decreases n - i,
        {
            out.push(self.data[i]);
            i = i + 1;
        }
        out
    }

    /// Drops values from the front until at most `limit` remain.
    pub fn drain_excess(&mut self, limit: usize)
        requires
            old(self).wf(),
        ensures
            final(self).wf(),
            final(self).cap() == old(self).cap(),
            final(self)@ == last_n(old(self)@, limit as nat),
    {
        while self.data.len() > limit
            invariant
                self.wf(),
                self.cap() == old(self).cap(),
                self@.len() <= old(self)@.len(),
                old(self)@.len() > limit ==> self@.len() >= limit,
                old(self)@.len() <= limit ==> self@.len() == old(self)@.len(),
                self@ =~= old(self)@.subrange(old(self)@.len() - self@.len(), old(self)@.len() as int),
            decreases self@.len(),
        {
            let _ = self.data.pop_front();
            assert(self@ =~= old(self)@.subrange(old(self)@.len() - self@.len(), old(self)@.len() as int));
        }
        assert(self@ =~= last_n(old(self)@, limit as nat));
    }
}

/// Pushing any sequence of values onto an empty buffer leaves exactly the last
/// `cap` of them, in the order they were pushed; so after more than `cap` pushes
/// the buffer holds `cap` values.
pub proof fn lemma_buffer_keeps_latest<T>(xs: Seq<T>, cap: nat)
    requires
        cap > 0,
    ensures
        pushed_all(Seq::<T>::empty(), xs, cap) == last_n(xs, cap),
        xs.len() > cap ==> pushed_all(Seq::<T>::empty(), xs, cap).len() == cap,
    decreases xs.len(),
{
    if xs.len() > 0 {
        lemma_buffer_keeps_latest(xs.drop_last(), cap);
        assert(pushed_all(Seq::<T>::empty(), xs, cap) =~= last_n(xs, cap));
    }
}

} // verus!
