//! The tagged-value boundary: heap references with their collection-epoch
//! lifetime erased, pair-node handles, and the heap anchor that mints fresh
//! addresses and fresh rooting-session identifiers.

use vstd::prelude::*;

verus! {

/// The raw bits of a tagged pointer into the collected heap, with its
/// collection-epoch lifetime erased. The root-set and the tracing contract
/// speak in these.
pub type RawObj = u64;

/// A tagged reference into the garbage-collected heap. The runtime encodes
/// nil as all-zero bits; every allocated object carries nonzero bits.
#[derive(Clone, Copy, PartialEq, Eq, Structural, Debug)]
pub struct GcObj {
    pub raw: RawObj,
}

impl GcObj {
    /// The nil reference.
    pub fn nil() -> (r: GcObj)
        ensures
            r.raw == 0,
    {
        GcObj { raw: 0 }
    }

    pub open spec fn spec_is_nil(self) -> bool {
        self.raw == 0
    }

    pub fn is_nil(&self) -> (r: bool)
        ensures
            r == self.spec_is_nil(),
    {
        self.raw == 0
    }

    /// Erase the reference to its raw bits; the caller must anchor them in a
    /// root before the next allocation point.
    pub fn into_raw(self) -> (r: RawObj)
        ensures
            r == self.raw,
    {
        self.raw
    }

    /// Reinterpret raw bits as a reference; meaningful only while some
    /// root-set entry keeps the referent alive.
    pub fn from_raw(raw: RawObj) -> (r: GcObj)
        ensures
            r.raw == raw,
    {
        GcObj { raw }
    }
}

/// A pair node in the heap, named by its raw address. Its two fields live in
/// the heap itself and are outside this core's scope.
#[derive(Clone, Copy, PartialEq, Eq, Structural, Debug)]
pub struct Cons {
    pub addr: u64,
}

/// The heap anchor. It stands for the allocator (opaque to this core) and
/// owns the counters that mint fresh object addresses and fresh rooting
/// session identifiers. A shared reference to it is the evidence of a live
/// heap handle that mutable borrows of rooted storage demand.
pub struct Arena {
    pub(crate) next_addr: u64,
    pub(crate) next_session: u64,
}

impl Arena {
    /// Addresses the anchor hands out are never nil.
    pub closed spec fn wf(&self) -> bool {
        self.next_addr >= 1
    }

    pub closed spec fn next_addr_spec(&self) -> u64 {
        self.next_addr
    }

    pub closed spec fn next_session_spec(&self) -> u64 {
        self.next_session
    }

    pub fn new() -> (a: Arena)
        ensures
            a.wf(),
            a.next_addr_spec() == 1,
            a.next_session_spec() == 0,
    {
        Arena { next_addr: 1, next_session: 0 }
    }

    /// Allocate a string object. The string's contents live in the heap and
    /// are outside this core's scope; what matters here is that the anchor
    /// hands back a fresh, nonzero (non-nil) reference.
    pub fn add(&mut self, _text: &str) -> (r: GcObj)
        requires
            old(self).wf(),
            old(self).next_addr_spec() < u64::MAX,
        ensures
            final(self).wf(),
            r.raw == old(self).next_addr_spec(),
            r.raw != 0,
            final(self).next_addr_spec() == old(self).next_addr_spec() + 1,
            final(self).next_session_spec() == old(self).next_session_spec(),
    {
        let raw = self.next_addr;
        self.next_addr = self.next_addr + 1;
        GcObj { raw }
    }

    /// The scope-creation helper: mint the brand for one new rooting scope.
    /// Each brand this anchor hands out carries a session identifier no
    /// earlier brand of the same anchor carries.
    pub fn mint_brand(&mut self) -> (b: crate::session::Brand)
        requires
            old(self).next_session_spec() < u64::MAX,
        ensures
            final(self).wf() == old(self).wf(),
            b.session_spec() == old(self).next_session_spec(),
            final(self).next_session_spec() == old(self).next_session_spec() + 1,
            final(self).next_addr_spec() == old(self).next_addr_spec(),
    {
        let session = self.next_session;
        self.next_session = self.next_session + 1;
        crate::session::Brand::make(session)
    }

    /// Re-attach a live lifetime to a rooted reference: against a live heap
    /// handle the bits are handed back unchanged.
    pub fn bind(&self, obj: GcObj) -> (r: GcObj)
        ensures
            r == obj,
    {
        obj
    }
}

} // verus!
