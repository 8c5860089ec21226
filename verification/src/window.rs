//! A fixed-capacity sliding window over the most recent values, kept in a
//! ring buffer: the rolling statistics of both strategies sit on it.

use vstd::prelude::*;

verus! {

/// The last `capacity` values pushed, oldest first.
pub struct Window<T> {
    buffer: Vec<T>,
    head: usize,
    count: usize,
}

impl<T> Window<T> {
    /// The ring buffer's layout is consistent.
    pub closed spec fn wf(&self) -> bool {
        &&& self.buffer@.len() >= 2
        &&& self.count <= self.buffer@.len()
        &&& self.head < self.buffer@.len()
        &&& self.count < self.buffer@.len() ==> self.head == self.count
    }

    /// The values in the window, oldest first.
    pub closed spec fn values(&self) -> Seq<T> {
        if self.count < self.buffer@.len() {
            self.buffer@.take(self.count as int)
        } else {
            self.buffer@.skip(self.head as int) + self.buffer@.take(self.head as int)
        }
    }

    /// How many values the window keeps.
    pub closed spec fn cap(&self) -> nat {
        self.buffer@.len()
    }
}

impl<T: Copy> Window<T> {
    /// An empty window of `capacity` values (at least 2); `fill` only
    /// initialises the storage.
    pub fn new(capacity: usize, fill: T) -> (w: Self)
        requires
            capacity >= 2,
        ensures
            w.wf(),
            w.values() == Seq::<T>::empty(),
            w.cap() == capacity,
    {
        let mut buffer: Vec<T> = Vec::with_capacity(capacity);
        let mut i: usize = 0;
        while i < capacity
            invariant
                i <= capacity,
                buffer@.len() == i,
            decreases capacity - i,
        {
            buffer.push(fill);
            i = i + 1;
        }
        let w = Window { buffer, head: 0, count: 0 };
        assert(w.values() =~= Seq::<T>::empty());
        w
    }

    /// Number of values in the window.
    pub fn len(&self) -> (n: usize)
        requires
            self.wf(),
        ensures
            n == self.values().len(),
            n <= self.cap(),
    {
        self.count
    }

    /// Whether the window is full.
    pub fn is_full(&self) -> (b: bool)
        requires
            self.wf(),
        ensures
            b == (self.values().len() == self.cap()),
    {
        self.count == self.buffer.len()
    }

    /// Capacity of the window.
    pub fn capacity(&self) -> (n: usize)
        ensures
            n == self.cap(),
    {
        self.buffer.len()
    }

    /// Appends `value`; when the window was full its oldest value is
    /// evicted and returned.
    pub fn push(&mut self, value: T) -> (evicted: Option<T>)
        requires
            old(self).wf(),
        ensures
            final(self).wf(),
            final(self).cap() == old(self).cap(),
            old(self).values().len() < old(self).cap() ==> evicted is None
                && final(self).values() == old(self).values().push(value),
            old(self).values().len() == old(self).cap() ==> evicted == Some(old(self).values()[0])
                && final(self).values() == old(self).values().drop_first().push(value),
    {
        let cap = self.buffer.len();
        let h = self.head;
        let ghost b0 = self.buffer@;
        let ghost v0 = self.values();
        let evicted = if self.count < cap {
            self.buffer.set(h, value);
            self.count = self.count + 1;
            None
        } else {
            let old_value = self.buffer[h];
            self.buffer.set(h, value);
            Some(old_value)
        };
        self.head = if h + 1 == cap { 0 } else { h + 1 };
        proof {
            let b1 = self.buffer@;
            assert(b1 == b0.update(h as int, value));
            if v0.len() < cap {
                assert(v0 =~= b0.take(h as int));
                if h + 1 == cap {
                    assert(b1.skip(0) + b1.take(0) =~= b0.take(h as int).push(value));
                } else {
                    assert(b1.take((h + 1) as int) =~= b0.take(h as int).push(value));
                }
            } else {
                assert(v0 =~= b0.skip(h as int) + b0.take(h as int));
                assert(v0[0] == b0[h as int]);
                if h + 1 == cap {
                    assert(b1.skip(0) + b1.take(0) =~= v0.drop_first().push(value));
                } else {
                    assert(b1.skip((h + 1) as int) + b1.take((h + 1) as int) =~= v0.drop_first().push(
                        value,
                    ));
                }
            }
        }
        evicted
    }

    /// Empties the window.
    pub fn clear(&mut self)
        requires
            old(self).wf(),
        ensures
            final(self).wf(),
            final(self).values() == Seq::<T>::empty(),
            final(self).cap() == old(self).cap(),
    {
        self.head = 0;
        self.count = 0;
        assert(self.values() =~= Seq::<T>::empty());
    }

    /// The value at `i` counting from the oldest.
    pub fn get(&self, i: usize) -> (v: T)
        requires
            self.wf(),
            i < self.values().len(),
        ensures
            v == self.values()[i as int],
    {
        let cap = self.buffer.len();
        if self.count < cap {
            self.buffer[i]
        } else {
            let k = if i < cap - self.head { self.head + i } else { i - (cap - self.head) };
            let ghost b = self.buffer@;
            assert((b.skip(self.head as int) + b.take(self.head as int))[i as int] == b[k as int]);
            self.buffer[k]
        }
    }
}

} // verus!
