//! The root-set: the heap-owned, ordered sequence of trace-capable addresses
//! that the collector's mark phase walks. Entries are appended and removed
//! only by guards, strictly in stack order.

use vstd::prelude::*;

use crate::object::RawObj;

verus! {

/// All currently live root addresses for one heap. No search, no random
/// access: one end grows and shrinks, matching native call-frame unwinding.
///
/// An omitted entry is a correctness bug (premature collection of a live
/// value); a stale entry is a safety bug (dangling trace target). Both are
/// ruled out by the guard contracts, which pair every append with exactly one
/// removal of that same entry.
pub struct RootSet {
    entries: Vec<RawObj>,
}

impl View for RootSet {
    type V = Seq<RawObj>;

    closed spec fn view(&self) -> Seq<RawObj> {
        self.entries@
    }
}

impl RootSet {
    pub fn new() -> (rs: RootSet)
        ensures
            rs@ == Seq::<RawObj>::empty(),
    {
        RootSet { entries: Vec::new() }
    }

    pub fn len(&self) -> (n: usize)
        ensures
            n == self@.len(),
    {
        self.entries.len()
    }

    /// Append one trace-capable address. Guards only.
    pub(crate) fn push(&mut self, addr: RawObj)
        ensures
            final(self)@ == old(self)@.push(addr),
    {
        self.entries.push(addr);
    }

    /// Remove the most recently appended address. Guards only.
    pub(crate) fn pop(&mut self) -> (addr: RawObj)
        requires
            old(self)@.len() > 0,
        ensures
            addr == old(self)@.last(),
            final(self)@ == old(self)@.drop_last(),
    {
        self.entries.pop().unwrap()
    }

    /// Read the most recently appended address without removing it.
    pub fn top(&self) -> (addr: RawObj)
        requires
            self@.len() > 0,
        ensures
            addr == self@.last(),
    {
        self.entries[self.entries.len() - 1]
    }
}

impl Default for RootSet {
    fn default() -> (rs: RootSet)
        ensures
            rs@ == Seq::<RawObj>::empty(),
    {
        RootSet::new()
    }
}

} // verus!
