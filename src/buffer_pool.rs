use vstd::prelude::*;

use std::collections::VecDeque;

verus! {

/// Default number of buffers a pool starts with.
pub const DEFAULT_POOL_BUFFERS: usize = 64;

/// Default capacity of the buffers of a pool.
pub const DEFAULT_BUFFER_CAPACITY: usize = 2048;

/// A pool of reusable byte buffers.
///
/// The pool holds only empty buffers. It starts with a given number of them
/// and keeps at most twice that number: buffers released into a full pool
/// are dropped. Buffers acquired from an empty pool are allocated afresh.
#[derive(Debug)]
pub struct BufferPool {
    buffers: VecDeque<Vec<u8>>,
    default_capacity: usize,
    max_buffers: usize,
}

impl BufferPool {
    /// The number of buffers in the pool.
    pub closed spec fn available(&self) -> nat {
        self.buffers@.len()
    }

    /// The most buffers the pool keeps.
    pub closed spec fn max_buffers(&self) -> nat {
        self.max_buffers as nat
    }

    /// The capacity that new buffers are allocated with.
    pub closed spec fn capacity(&self) -> usize {
        self.default_capacity
    }

    pub closed spec fn wf(&self) -> bool {
        &&& self.buffers@.len() <= self.max_buffers
        &&& forall|i: int| 0 <= i < self.buffers@.len() ==> (#[trigger] self.buffers@[i])@.len() == 0
    }

    /// A pool holding `initial_count` empty buffers of capacity
    /// `buffer_capacity`, that keeps up to twice as many.
    pub fn new(initial_count: usize, buffer_capacity: usize) -> (r: Self)
        requires
            initial_count <= usize::MAX / 2,
        ensures
            r.wf(),
            r.available() == initial_count,
            r.max_buffers() == 2 * initial_count,
            r.capacity() == buffer_capacity,
    {
        let mut buffers: VecDeque<Vec<u8>> = VecDeque::with_capacity(initial_count * 2);
        let mut i: usize = 0;
        while i < initial_count
            invariant
                i <= initial_count,
                buffers@.len() == i,
                forall|j: int| 0 <= j < buffers@.len() ==> (#[trigger] buffers@[j])@.len() == 0,
            decreases initial_count - i,
        {
            buffers.push_back(Vec::with_capacity(buffer_capacity));
            i = i + 1;
        }
        BufferPool { buffers, default_capacity: buffer_capacity, max_buffers: initial_count * 2 }
    }

    /// Takes an empty buffer from the pool, or allocates one when the pool is
    /// empty.
    pub fn acquire(&mut self) -> (r: Vec<u8>)
        requires
            old(self).wf(),
        ensures
            final(self).wf(),
            r@.len() == 0,
            final(self).available() == if old(self).available() > 0 {
                old(self).available() - 1
            } else {
                0
            },
            final(self).max_buffers() == old(self).max_buffers(),
            final(self).capacity() == old(self).capacity(),
    {
        match self.buffers.pop_front() {
            Some(b) => b,
            None => Vec::with_capacity(self.default_capacity),
        }
    }

    /// Returns a buffer to the pool, emptied, unless the pool is full, in
    /// which case the buffer is dropped.
    pub fn release(&mut self, buffer: Vec<u8>)
        requires
            old(self).wf(),
        ensures
            final(self).wf(),
            final(self).available() == if old(self).available() < old(self).max_buffers() {
                old(self).available() + 1
            } else {
                old(self).available()
            },
            final(self).max_buffers() == old(self).max_buffers(),
            final(self).capacity() == old(self).capacity(),
    {
        let mut buffer = buffer;
        if self.buffers.len() < self.max_buffers {
            buffer.clear();
            self.buffers.push_back(buffer);
        }
    }

    /// The number of buffers in the pool.
    pub fn available_count(&self) -> (r: usize)
        ensures
            r == self.available(),
    {
        self.buffers.len()
    }

    /// The capacity that new buffers are allocated with.
    pub fn default_capacity(&self) -> (r: usize)
        ensures
            r == self.capacity(),
    {
        self.default_capacity
    }

    /// Takes `count` empty buffers: as many as the pool has, the rest freshly
    /// allocated.
    pub fn acquire_batch(&mut self, count: usize) -> (r: Vec<Vec<u8>>)
        requires
            old(self).wf(),
        ensures
            final(self).wf(),
            r@.len() == count,
            forall|i: int| 0 <= i < count ==> (#[trigger] r@[i])@.len() == 0,
            final(self).available() == if old(self).available() > count {
                (old(self).available() - count) as nat
            } else {
                0
            },
            final(self).max_buffers() == old(self).max_buffers(),
            final(self).capacity() == old(self).capacity(),
    {
        let mut result: Vec<Vec<u8>> = Vec::with_capacity(count);
        let available = if self.buffers.len() < count {
            self.buffers.len()
        } else {
            count
        };
        let mut i: usize = 0;
        while i < count
            invariant
                self.wf(),
                i <= count,
                available <= count,
                available <= old(self).available(),
                available == if old(self).available() < count {
                    old(self).available()
                } else {
                    count as nat
                },
                result@.len() == i,
                self.available() == if i < available {
                    old(self).available() - i
                } else {
                    old(self).available() - available
                },
                forall|j: int| 0 <= j < i ==> (#[trigger] result@[j])@.len() == 0,
                self.max_buffers() == old(self).max_buffers(),
                self.capacity() == old(self).capacity(),
            decreases count - i,
        {
            let b = if i < available {
                match self.buffers.pop_front() {
                    Some(b) => b,
                    None => Vec::with_capacity(self.default_capacity),
                }
            } else {
                Vec::with_capacity(self.default_capacity)
            };
            result.push(b);
            i = i + 1;
        }
        result
    }

    /// Returns a batch of buffers to the pool, emptied, as long as it has
    /// room; the others are dropped.
    pub fn release_batch(&mut self, batch: Vec<Vec<u8>>)
        requires
            old(self).wf(),
        ensures
            final(self).wf(),
            final(self).available() == if old(self).available() + batch@.len()
                < old(self).max_buffers() {
                old(self).available() + batch@.len()
            } else {
                old(self).max_buffers()
            },
            final(self).max_buffers() == old(self).max_buffers(),
            final(self).capacity() == old(self).capacity(),
    {
        let mut batch = batch;
        let ghost n = batch@.len();
        while batch.len() > 0
            invariant
                self.wf(),
                batch@.len() <= n,
                self.available() == if old(self).available() + (n - batch@.len())
                    < old(self).max_buffers() {
                    old(self).available() + (n - batch@.len())
                } else {
                    old(self).max_buffers() as int
                },
                self.max_buffers() == old(self).max_buffers(),
                self.capacity() == old(self).capacity(),
            decreases batch@.len(),
        {
            match batch.pop() {
                Some(buffer) => self.release(buffer),
                None => {},
            }
        }
    }
}

impl Default for BufferPool {
    fn default() -> (r: Self)
        ensures
            r.wf(),
            r.available() == DEFAULT_POOL_BUFFERS,
            r.max_buffers() == 2 * DEFAULT_POOL_BUFFERS,
            r.capacity() == DEFAULT_BUFFER_CAPACITY,
    {
        BufferPool::new(DEFAULT_POOL_BUFFERS, DEFAULT_BUFFER_CAPACITY)
    }
}

} // verus!
