//! The live handle registry: the single slot that every lookup reads and
//! that a successful refresh swaps.
//!
//! Lookups share the current handle; `replace` swaps the slot in one step,
//! so a read taken at any instant observes either the handle from before
//! the swap or the one from after it, never a mixture.

use vstd::prelude::*;
use crate::database::Handle;

verus! {

/// The single shared slot holding the currently active database handle.
pub struct Registry {
    handle: Handle,
}

impl Registry {
    /// The handle a read taken now observes.
    pub closed spec fn spec_current(self) -> Handle {
        self.handle
    }

    /// Bring the registry up with its first opened handle.
    pub fn new(handle: Handle) -> (r: Registry)
        ensures
            r.spec_current() == handle,
    {
        Registry { handle }
    }

    /// A read of the active handle.
    pub fn current(&self) -> (h: &Handle)
        ensures
            *h == self.spec_current(),
    {
        &self.handle
    }

    /// Swap the slot to a newly validated handle in one step.
    pub fn replace(&mut self, new_handle: Handle)
        ensures
            final(self).spec_current() == new_handle,
    {
        self.handle = new_handle;
    }
}

/// Make a newly opened handle the one that every subsequent lookup reads.
pub fn reload_database(registry: &mut Registry, new_handle: Handle)
    ensures
        final(registry).spec_current() == new_handle,
{
    registry.replace(new_handle);
}

/// The handle that one read observes when it runs either before or after
/// a single swap from `before` to `after`.
pub open spec fn observed_handle(before: Registry, after: Registry, read_before_swap: bool)
    -> Handle {
    if read_before_swap {
        before.spec_current()
    } else {
        after.spec_current()
    }
}

/// Law: any number of reads interleaved with one swap each observe either
/// the pre-swap handle or the post-swap handle — never a torn mixture of
/// the two.
pub proof fn lemma_no_torn_read(before: Registry, after: Registry, new_handle: Handle,
    reads_before_swap: Seq<bool>)
    requires
        after.spec_current() == new_handle,
    ensures
        forall|i: int| 0 <= i < reads_before_swap.len()
            ==> #[trigger] observed_handle(before, after, reads_before_swap[i])
                == before.spec_current()
            || observed_handle(before, after, reads_before_swap[i]) == new_handle,
{
}

} // verus!
