//! Allocation metering: the counting discipline of an allocator wrapper
//! that tallies cumulative allocated and freed bytes once metering has
//! been switched on.  The unsafe allocator plumbing itself lives with
//! the embedding program; this is the arithmetic it relies on.

use vstd::prelude::*;

verus! {

/// Wraps an inner allocator and counts traffic once metering starts.
/// Counters wrap around on overflow, as a cumulative counter does.
#[derive(Debug)]
pub struct MeteredAllocator<T> {
    pub inner: T,
    pub metering: bool,
    pub allocated: u64,
    pub freed: u64,
}

impl<T> MeteredAllocator<T> {
    /// A wrapper around `inner` with metering off and zeroed counters.
    pub fn new(inner: T) -> (r: MeteredAllocator<T>)
        ensures
            !r.metering,
            r.allocated == 0,
            r.freed == 0,
    {
        MeteredAllocator { inner, metering: false, allocated: 0, freed: 0 }
    }

    /// Switches metering on; harmless to repeat.
    pub fn start_metering(&mut self)
        ensures
            final(self).metering,
            final(self).allocated == old(self).allocated,
            final(self).freed == old(self).freed,
    {
        if self.metering {
            return;
        }
        self.metering = true;
    }

    /// Counts an allocation of `size` bytes, once metering is on.
    pub fn count_alloc(&mut self, size: usize)
        ensures
            final(self).metering == old(self).metering,
            final(self).freed == old(self).freed,
            final(self).allocated as int == if old(self).metering {
                (old(self).allocated + size) % 0x1_0000_0000_0000_0000
            } else {
                old(self).allocated as int
            },
    {
        if self.metering {
            self.allocated = self.allocated.wrapping_add(size as u64);
        }
    }

    /// Counts a deallocation of `size` bytes, once metering is on.
    pub fn count_dealloc(&mut self, size: usize)
        ensures
            final(self).metering == old(self).metering,
            final(self).allocated == old(self).allocated,
            final(self).freed as int == if old(self).metering {
                (old(self).freed + size) % 0x1_0000_0000_0000_0000
            } else {
                old(self).freed as int
            },
    {
        if self.metering {
            self.freed = self.freed.wrapping_add(size as u64);
        }
    }

    /// Counts a reallocation from `old_size` to `new_size` bytes: growth
    /// counts as an allocation of the difference, shrinkage as a
    /// deallocation of it.
    pub fn count_realloc(&mut self, old_size: usize, new_size: usize)
        ensures
            final(self).metering == old(self).metering,
            new_size >= old_size ==> {
                &&& final(self).freed == old(self).freed
                &&& final(self).allocated as int == if old(self).metering {
                    (old(self).allocated + new_size - old_size) % 0x1_0000_0000_0000_0000
                } else {
                    old(self).allocated as int
                }
            },
            new_size < old_size ==> {
                &&& final(self).allocated == old(self).allocated
                &&& final(self).freed as int == if old(self).metering {
                    (old(self).freed + old_size - new_size) % 0x1_0000_0000_0000_0000
                } else {
                    old(self).freed as int
                }
            },
    {
        if new_size >= old_size {
            self.count_alloc(new_size - old_size);
        } else {
            self.count_dealloc(old_size - new_size);
        }
    }
}

/// Starts allocator metering on the program's metered allocator.
pub fn start_metering<T>(allocator: &mut MeteredAllocator<T>)
    ensures
        final(allocator).metering,
        final(allocator).allocated == old(allocator).allocated,
        final(allocator).freed == old(allocator).freed,
{
    allocator.start_metering();
}

} // verus!
