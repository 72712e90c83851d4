//! The session pair: an owner token and the root cells it may open. Both are
//! tagged with a session identifier unique to one rooting scope, so a token
//! from one scope can never reach a cell from another, even though the two
//! have the same shape.
//!
//! The identifier is minted once per scope by the heap anchor and carried by
//! an unforgeable [`Brand`]: the brand has no public constructor, is not
//! copyable, and is consumed by [`RootOwner::new`], so one scope yields one
//! owner. Every access checks the identifiers for equality — the contracts
//! demand it of verified callers, and [`Root::try_borrow`] performs the
//! comparison for unverified ones.

use vstd::prelude::*;

use crate::object::Arena;
use crate::rooted::Rt;

verus! {

/// A scope-unique tag, obtainable only from [`Arena::mint_brand`].
pub struct Brand {
    session: u64,
}

impl Brand {
    pub closed spec fn session_spec(&self) -> u64 {
        self.session
    }

    /// Crate-internal: only the heap anchor's scope-creation helper mints
    /// brands.
    pub(crate) fn make(session: u64) -> (b: Brand)
        ensures
            b.session_spec() == session,
    {
        Brand { session }
    }
}

/// The single capability that may open the root cells of its scope. Created
/// once per rooting session; the brand is consumed, so it cannot be created
/// twice for the same session.
pub struct RootOwner {
    session: u64,
}

impl RootOwner {
    pub closed spec fn session_spec(&self) -> u64 {
        self.session
    }

    pub fn new(brand: Brand) -> (o: RootOwner)
        ensures
            o.session_spec() == brand.session_spec(),
    {
        RootOwner { session: brand.session }
    }
}

/// Storage for one rooted value, inert without the owner of its own scope.
pub struct Root<T> {
    session: u64,
    addr: u64,
    cell: Rt<T>,
}

impl<T> Root<T> {
    pub closed spec fn session_spec(&self) -> u64 {
        self.session
    }

    /// The trace-capable address of this cell's storage: what a guard binds
    /// into the root-set.
    pub closed spec fn addr_spec(&self) -> u64 {
        self.addr
    }

    /// The rooted storage this cell holds.
    pub closed spec fn cell_spec(&self) -> Rt<T> {
        self.cell
    }

    /// Whether `owner` is the capability of this cell's own scope: the only
    /// owner that may open it.
    pub open spec fn openable_by(&self, owner: &RootOwner) -> bool {
        self.session_spec() == owner.session_spec()
    }

    /// Create a cell branded for `owner`'s scope, rooting `obj` at storage
    /// address `addr`. Must not outlive the scope: a guard installs `addr`
    /// at scope entry and removes it at scope exit.
    pub fn new(owner: &RootOwner, addr: u64, obj: T) -> (r: Root<T>)
        ensures
            r.session_spec() == owner.session_spec(),
            r.addr_spec() == addr,
            r.cell_spec() == (Rt { inner: obj }),
    {
        Root { session: owner.session, addr, cell: Rt::new(obj) }
    }

    /// The trace-capable address of this cell's storage, for the guard that
    /// installs it.
    pub fn addr(&self) -> (r: u64)
        ensures
            r == self.addr_spec(),
    {
        self.addr
    }

    /// Shared read access to the rooted view; requires the matching-brand
    /// owner, and never fails for it.
    pub fn borrow<'a>(&'a self, owner: &'a RootOwner) -> (r: &'a Rt<T>)
        requires
            self.openable_by(owner),
        ensures
            *r == self.cell_spec(),
    {
        &self.cell
    }

    /// Shared read access, with the brand comparison performed at run time:
    /// an owner from any other scope is turned away.
    pub fn try_borrow<'a>(&'a self, owner: &'a RootOwner) -> (r: Option<&'a Rt<T>>)
        ensures
            r is Some <==> self.openable_by(owner),
            r matches Some(v) ==> *v == self.cell_spec(),
    {
        if self.session == owner.session {
            Some(&self.cell)
        } else {
            None
        }
    }

    /// Exclusive mutable access to the rooted view; requires the
    /// matching-brand owner and a live heap handle, so that mutation cannot
    /// race a collection.
    pub fn borrow_mut<'a>(&'a mut self, owner: &'a RootOwner, _gc: &'a Arena) -> (r: &'a mut Rt<
        T,
    >)
        requires
            old(self).openable_by(owner),
        ensures
            *r == old(self).cell_spec(),
            final(self).cell_spec() == *final(r),
            final(self).session_spec() == old(self).session_spec(),
            final(self).addr_spec() == old(self).addr_spec(),
    {
        &mut self.cell
    }

    /// Exclusive mutable access to two distinct roots at once, under one
    /// owner, for operations that must swap or compare two rooted values.
    /// The two cells' disjointness is established by the exclusive borrows
    /// themselves.
    pub fn borrow_mut2<'a, U>(
        gc1: &'a mut Root<T>,
        gc2: &'a mut Root<U>,
        owner: &'a RootOwner,
        _gc: &'a Arena,
    ) -> (r: (&'a mut Rt<T>, &'a mut Rt<U>))
        requires
            old(gc1).openable_by(owner),
            old(gc2).openable_by(owner),
        ensures
            *r.0 == old(gc1).cell_spec(),
            *r.1 == old(gc2).cell_spec(),
            final(gc1).cell_spec() == *final(r.0),
            final(gc2).cell_spec() == *final(r.1),
            final(gc1).session_spec() == old(gc1).session_spec(),
            final(gc2).session_spec() == old(gc2).session_spec(),
            final(gc1).addr_spec() == old(gc1).addr_spec(),
            final(gc2).addr_spec() == old(gc2).addr_spec(),
    {
        (&mut gc1.cell, &mut gc2.cell)
    }

    /// Crate-internal read access for the collector's mark phase, which
    /// walks every root regardless of the session that owns it.
    pub(crate) fn cell_for_trace(&self) -> (r: &Rt<T>)
        ensures
            *r == self.cell_spec(),
    {
        &self.cell
    }

    /// Direct access without an owner: an exclusive reference to the whole
    /// cell already proves no other path can observe it.
    pub fn deref(&mut self) -> (r: &Rt<T>)
        ensures
            *r == old(self).cell_spec(),
            *final(self) == *old(self),
    {
        &self.cell
    }
}

/// Law: root cells and owner tokens of two independently created rooting
/// scopes are mutually incompatible. Two brands minted by the heap anchor
/// never carry the same session identifier — the earlier one's is strictly
/// below every later one's — so a cell of one scope is only ever openable by
/// the owner of that same scope, and [`Root::try_borrow`] turns every other
/// owner away.
pub proof fn lemma_scopes_isolated<T>(root: Root<T>, o1: RootOwner, o2: RootOwner)
    requires
        root.session_spec() == o1.session_spec(),
        o1.session_spec() != o2.session_spec(),
    ensures
        root.openable_by(&o1),
        !root.openable_by(&o2),
{
}

} // verus!
