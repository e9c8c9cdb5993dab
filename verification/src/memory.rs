//! Memory accounting and a fixed-size block pool.

use vstd::prelude::*;

verus! {

/// Running totals of tracked allocations. The counters saturate instead of
/// wrapping, so the totals never lie about direction.
#[derive(Debug, Clone, Copy, PartialEq, Eq, Structural)]
pub struct MemoryTracker {
    /// Bytes currently allocated.
    pub allocated_bytes: u64,
    /// High-water mark of allocated bytes.
    pub peak_bytes: u64,
}

impl MemoryTracker {
    /// A tracker with nothing allocated.
    pub fn new() -> (r: Self)
        ensures
            r.allocated_bytes == 0,
            r.peak_bytes == 0,
    {
        MemoryTracker { allocated_bytes: 0, peak_bytes: 0 }
    }

    /// Record an allocation: the running total grows by the size
    /// (saturating) and the peak follows it upward.
    pub fn track_allocation(&mut self, size: usize)
        ensures
            final(self).allocated_bytes == (if old(self).allocated_bytes + size as u64
                <= u64::MAX {
                old(self).allocated_bytes + size as u64
            } else {
                u64::MAX as int
            }),
            final(self).peak_bytes == (if final(self).allocated_bytes > old(self).peak_bytes {
                final(self).allocated_bytes
            } else {
                old(self).peak_bytes
            }),
    {
        let grown: u128 = self.allocated_bytes as u128 + size as u128;
        self.allocated_bytes = if grown > u64::MAX as u128 {
            u64::MAX
        } else {
            grown as u64
        };
        if self.allocated_bytes > self.peak_bytes {
            self.peak_bytes = self.allocated_bytes;
        }
    }

    /// Record a deallocation: the running total shrinks by the size,
    /// stopping at zero. The peak stays.
    pub fn track_deallocation(&mut self, size: usize)
        ensures
            final(self).allocated_bytes == (if size as u64 <= old(self).allocated_bytes {
                old(self).allocated_bytes - size as u64
            } else {
                0int
            }),
            final(self).peak_bytes == old(self).peak_bytes,
    {
        let s = size as u64;
        self.allocated_bytes = if s <= self.allocated_bytes {
            self.allocated_bytes - s
        } else {
            0
        };
    }
}

/// Detailed memory breakdown by category.
#[derive(Debug, Clone, Copy, PartialEq, Eq, Structural)]
pub struct MemoryBreakdown {
    /// Bytes in active pages.
    pub active_bytes: u64,
    /// Bytes allocated by the application.
    pub allocated_bytes: u64,
    /// Bytes of mapped address space.
    pub mapped_bytes: u64,
    /// Bytes resident in physical memory.
    pub resident_bytes: u64,
    /// Bytes of allocator metadata.
    pub metadata_bytes: u64,
    /// Mapped bytes not currently resident.
    pub retained_bytes: u64,
}

/// Memory management entry points over a tracker.
#[derive(Debug, Clone, Copy, PartialEq, Eq, Structural)]
pub struct MemoryManager;

impl MemoryManager {
    /// Memory usage by category: without an instrumented allocator, only
    /// the tracked allocation total is known.
    pub fn get_memory_breakdown(tracker: &MemoryTracker) -> (r: MemoryBreakdown)
        ensures
            r == (MemoryBreakdown {
                active_bytes: 0u64,
                allocated_bytes: tracker.allocated_bytes,
                mapped_bytes: 0u64,
                resident_bytes: 0u64,
                metadata_bytes: 0u64,
                retained_bytes: 0u64,
            }),
    {
        MemoryBreakdown {
            active_bytes: 0,
            allocated_bytes: tracker.allocated_bytes,
            mapped_bytes: 0,
            resident_bytes: 0,
            metadata_bytes: 0,
            retained_bytes: 0,
        }
    }
}

/// A pool of equally sized byte blocks, reused to avoid churn. A block is
/// either free or handed out by index; freeing marks it reusable.
#[derive(Debug)]
pub struct MemoryPool {
    blocks: Vec<Vec<u8>>,
    block_size: usize,
    used_blocks: Vec<bool>,
}

impl MemoryPool {
    /// Size of every block in the pool.
    pub closed spec fn spec_block_size(&self) -> nat {
        self.block_size as nat
    }

    /// Which blocks are currently handed out.
    pub closed spec fn spec_used(&self) -> Seq<bool> {
        self.used_blocks@
    }

    /// Contents of the blocks, by index.
    pub closed spec fn spec_blocks(&self) -> Seq<Seq<u8>> {
        Seq::new(self.blocks@.len(), |i: int| self.blocks@[i]@)
    }

    /// A pool is well formed when it has one used-flag per block and every
    /// block has the configured size.
    pub closed spec fn wf(&self) -> bool {
        &&& self.blocks@.len() == self.used_blocks@.len()
        &&& forall|i: int| 0 <= i < self.blocks@.len() ==> (#[trigger] self.blocks@[i])@.len()
            == self.block_size
    }

    /// Create a pool of `initial_blocks` zeroed blocks of `block_size`
    /// bytes, all free.
    pub fn new(block_size: usize, initial_blocks: usize) -> (r: Self)
        ensures
            r.wf(),
            r.spec_block_size() == block_size,
            r.spec_used().len() == initial_blocks,
            r.spec_blocks().len() == initial_blocks,
            forall|i: int| 0 <= i < initial_blocks ==> !(#[trigger] r.spec_used()[i]),
            forall|i: int| 0 <= i < initial_blocks ==> (#[trigger] r.spec_blocks()[i])
                == Seq::new(block_size as nat, |j: int| 0u8),
    {
        let mut blocks: Vec<Vec<u8>> = Vec::new();
        let mut used_blocks: Vec<bool> = Vec::new();
        let mut i: usize = 0;
        while i < initial_blocks
            invariant
                i <= initial_blocks,
                blocks@.len() == i,
                used_blocks@.len() == i,
                forall|j: int| 0 <= j < i ==> (#[trigger] blocks@[j])@ == Seq::new(
                    block_size as nat,
                    |m: int| 0u8,
                ),
                forall|j: int| 0 <= j < i ==> !(#[trigger] used_blocks@[j]),
            decreases initial_blocks - i,
        {
            let fresh = Self::zero_block(block_size);
            proof {
                assert(fresh@ =~= Seq::new(block_size as nat, |m: int| 0u8));
            }
            blocks.push(fresh);
            used_blocks.push(false);
            i = i + 1;
        }
        MemoryPool { blocks, block_size, used_blocks }
    }

    /// A zeroed block of the given size.
    fn zero_block(n: usize) -> (r: Vec<u8>)
        ensures
            r@.len() == n,
            forall|i: int| 0 <= i < n ==> (#[trigger] r@[i]) == 0,
    {
        let mut v: Vec<u8> = Vec::new();
        let mut i: usize = 0;
        while i < n
            invariant
                i <= n,
                v@.len() == i,
                forall|j: int| 0 <= j < i ==> (#[trigger] v@[j]) == 0,
            decreases n - i,
        {
            v.push(0);
            i = i + 1;
        }
        v
    }

    /// Hand out a block: the lowest-numbered free one, or a fresh zeroed
    /// block appended to the pool when none is free.
    pub fn allocate(&mut self) -> (r: Option<usize>)
        requires
            old(self).wf(),
        ensures
            final(self).wf(),
            final(self).spec_block_size() == old(self).spec_block_size(),
            r matches Some(i) && ({
                let u = old(self).spec_used();
                &&& i <= u.len()
                &&& forall|k: int| 0 <= k < i ==> #[trigger] u[k]
                &&& i < u.len() ==> !u[i as int] && final(self).spec_used() == u.update(
                    i as int,
                    true,
                ) && final(self).spec_blocks() == old(self).spec_blocks()
                &&& i == u.len() ==> final(self).spec_used() == u.push(true)
                    && final(self).spec_blocks() == old(self).spec_blocks().push(
                    Seq::new(old(self).spec_block_size(), |k: int| 0u8),
                )
            }),
    {
        let n = self.used_blocks.len();
        let mut index: usize = 0;
        while index < n
            invariant
                n == self.used_blocks@.len(),
                index <= n,
                forall|k: int| 0 <= k < index ==> #[trigger] self.used_blocks@[k],
            ensures
                index <= n,
                n == self.used_blocks@.len(),
                index < n ==> !self.used_blocks@[index as int],
                forall|k: int| 0 <= k < index ==> #[trigger] self.used_blocks@[k],
            decreases n - index,
        {
            if !self.used_blocks[index] {
                break;
            }
            index = index + 1;
        }
        if index < n {
            self.used_blocks.set(index, true);
            proof {
                assert(self.spec_blocks() =~= old(self).spec_blocks());
            }
            return Some(index);
        }
        let fresh = Self::zero_block(self.block_size);
        proof {
            assert(fresh@ =~= Seq::new(self.block_size as nat, |k: int| 0u8));
        }
        self.blocks.push(fresh);
        self.used_blocks.push(true);
        proof {
            assert(self.spec_blocks() =~= old(self).spec_blocks().push(
                Seq::new(old(self).spec_block_size(), |k: int| 0u8),
            ));
        }
        Some(index)
    }

    /// Return a block to the pool; an index past the pool does nothing.
    pub fn deallocate(&mut self, index: usize)
        requires
            old(self).wf(),
        ensures
            final(self).wf(),
            final(self).spec_block_size() == old(self).spec_block_size(),
            final(self).spec_blocks() == old(self).spec_blocks(),
            final(self).spec_used() == (if index < old(self).spec_used().len() {
                old(self).spec_used().update(index as int, false)
            } else {
                old(self).spec_used()
            }),
    {
        if index < self.used_blocks.len() {
            self.used_blocks.set(index, false);
        }
        proof {
            assert(self.spec_blocks() =~= old(self).spec_blocks());
        }
    }

    /// Read a block's bytes; an index past the pool yields nothing.
    pub fn get_block(&self, index: usize) -> (r: Option<&[u8]>)
        requires
            self.wf(),
        ensures
            match r {
                Some(s) => index < self.spec_blocks().len() && s@ == self.spec_blocks()[
                    index as int
                ] && s@.len() == self.spec_block_size(),
                None => index >= self.spec_blocks().len(),
            },
    {
        if index < self.blocks.len() {
            Some(self.blocks[index].as_slice())
        } else {
            None
        }
    }

    /// Swap in new contents for a block, returning the old contents; an
    /// index past the pool returns the data unchanged as the error case.
    pub fn replace_block(&mut self, index: usize, data: Vec<u8>) -> (r: Result<Vec<u8>, Vec<u8>>)
        requires
            old(self).wf(),
            data@.len() == old(self).spec_block_size(),
        ensures
            final(self).wf(),
            final(self).spec_block_size() == old(self).spec_block_size(),
            final(self).spec_used() == old(self).spec_used(),
            match r {
                Ok(prev) => index < old(self).spec_blocks().len() && prev@ == old(
                    self,
                ).spec_blocks()[index as int] && final(self).spec_blocks() == old(
                    self,
                ).spec_blocks().update(index as int, data@),
                Err(returned) => index >= old(self).spec_blocks().len() && returned == data
                    && final(self).spec_blocks() == old(self).spec_blocks(),
            },
    {
        if index < self.blocks.len() {
            let mut data = data;
            let ghost d0 = data@;
            self.blocks.set_and_swap(index, &mut data);
            proof {
                assert(self.spec_blocks() =~= old(self).spec_blocks().update(index as int, d0));
            }
            Ok(data)
        } else {
            proof {
                assert(self.spec_blocks() =~= old(self).spec_blocks());
            }
            Err(data)
        }
    }
}

} // verus!
