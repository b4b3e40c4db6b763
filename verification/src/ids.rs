//! Terminal identity allocation: every host-created terminal gets a
//! process-unique, monotonically growing 64-bit identifier. The identifier is
//! the only handle guests ever see, and it is never handed out twice within
//! one allocator's lifetime.

use vstd::prelude::*;

verus! {

/// A terminal identifier: opaque to guests, stable across transmission.
pub type TerminalId = u64;

/// Allocates terminal identifiers for one host registry's lifetime. The
/// ghost set records every identifier ever handed out, so callers can rely
/// on freshness across destroys as well as across live terminals.
pub struct TerminalIdAllocator {
    /// The next identifier to hand out; identifiers grow monotonically.
    pub next: TerminalId,
    /// Every identifier this allocator has ever returned.
    pub allocated: Ghost<Set<TerminalId>>,
}

impl TerminalIdAllocator {
    /// All identifiers handed out so far lie strictly below `next`.
    pub open spec fn wf(self) -> bool {
        forall|id: TerminalId| self.allocated@.contains(id) ==> id < self.next
    }

    /// A fresh allocator that has handed out nothing.
    pub fn new() -> (r: TerminalIdAllocator)
        ensures
            r.wf(),
            r.next == 0,
            r.allocated@ == Set::<TerminalId>::empty(),
    {
        TerminalIdAllocator { next: 0, allocated: Ghost(Set::empty()) }
    }

    /// Hand out the next identifier. It differs from every identifier this
    /// allocator ever returned before, whether or not that terminal is still
    /// live.
    pub fn fresh(&mut self) -> (id: TerminalId)
        requires
            old(self).wf(),
            old(self).next < TerminalId::MAX,
        ensures
            final(self).wf(),
            id == old(self).next,
            final(self).next == old(self).next + 1,
            !old(self).allocated@.contains(id),
            final(self).allocated@ == old(self).allocated@.insert(id),
    {
        let id = self.next;
        self.next = self.next + 1;
        self.allocated = Ghost(self.allocated@.insert(id));
        id
    }
}

} // verus!
