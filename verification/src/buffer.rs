//! Growable GPU buffer regions with monotonic capacity.

use vstd::prelude::*;

verus! {

/// How a persistent buffer is used by the render pass that reads it.
///
/// Every buffer of this core is also a copy destination: its contents are
/// rewritten by buffer-to-buffer copies each frame that uses it.
#[derive(Clone, Copy, PartialEq, Eq, Structural, Debug)]
pub enum BufferUsage {
    /// Holds the per-item uniform data, bound with a dynamic offset.
    Uniform,
    /// Holds vertex attribute data.
    Vertex,
    /// Holds triangle index data.
    Index,
}

/// The capacity a growable buffer has after a request for `requested`
/// elements has been served: at least the request, and never below the old
/// capacity.
pub open spec fn grown(capacity: int, requested: int) -> int {
    if capacity < requested {
        requested
    } else {
        capacity
    }
}

/// A growable GPU memory region holding `size` elements of `element_size`
/// bytes each.
///
/// Capacity only ever grows. A capacity-growing reallocation discards the
/// old contents: every consumer of this core rewrites the full buffer
/// contents each frame that uses it, so nothing is copied forward.
#[derive(Clone, Copy, PartialEq, Eq, Structural, Debug)]
pub struct Buffer {
    /// Size in bytes of one element.
    pub element_size: usize,
    /// Current capacity, in elements.
    pub size: usize,
    /// How the render pass reads this buffer.
    pub usage: BufferUsage,
}

impl Buffer {
    /// Creates a buffer holding `size` elements of `element_size` bytes.
    pub fn new(element_size: usize, size: usize, usage: BufferUsage) -> (b: Buffer)
        requires
            element_size * size <= u64::MAX,
        ensures
            b == (Buffer { element_size, size, usage }),
    {
        Buffer { element_size, size, usage }
    }

    /// The total allocation this buffer stands for, in bytes.
    pub fn byte_size(&self) -> (r: u64)
        requires
            self.element_size * self.size <= u64::MAX,
        ensures
            r == self.element_size * self.size,
    {
        (self.element_size as u64) * (self.size as u64)
    }

    /// Guarantees the buffer can hold at least `size` elements.
    ///
    /// If the current capacity is already sufficient this is a no-op;
    /// capacity is never shrunk. Otherwise the buffer grows to exactly
    /// `size` elements and its previous contents are lost. The result says
    /// whether the buffer was reallocated.
    pub fn ensure_capacity(&mut self, size: usize) -> (grew: bool)
        requires
            old(self).element_size * size <= u64::MAX,
        ensures
            final(self).element_size == old(self).element_size,
            final(self).usage == old(self).usage,
            final(self).size == grown(old(self).size as int, size as int),
            final(self).size >= old(self).size,
            grew == (old(self).size < size),
    {
        if self.size < size {
            self.size = size;
            true
        } else {
            false
        }
    }
}

/// Capacity is monotonic: a request for `m` elements right after a request
/// for `n >= m` elements leaves the capacity unchanged.
pub proof fn lemma_capacity_monotonic(capacity: int, n: int, m: int)
    requires
        m <= n,
    ensures
        grown(grown(capacity, n), m) == grown(capacity, n),
{
}

} // verus!
