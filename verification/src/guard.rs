//! The stack-discipline registrar: a scope-bound guard that, once, binds one
//! root's trace-capable address into the root-set and, on teardown, removes
//! exactly that entry.
//!
//! Every fault here is a programmer error, not a data error: installing the
//! same guard twice, tearing down a guard that was never installed, and
//! tearing guards down out of stack order. The checked operations report each
//! violation exactly, and leave both the guard and the root-set untouched
//! when they do; the runtime shell around this library aborts on any of them.

use vstd::prelude::*;

use crate::object::RawObj;
use crate::root_set::RootSet;

verus! {

/// The structural violations the guard detects.
#[derive(Clone, Copy, PartialEq, Eq, Structural, Debug)]
pub enum GuardError {
    /// The guard's install was attempted a second time.
    AlreadySet,
    /// The guard was torn down without ever having been installed,
    /// or a second time.
    NeverSet,
    /// The guard's entry is not the most recent one in the root-set:
    /// teardown out of stack order.
    OutOfOrder,
}

/// A guard in state *unset* or *set*. Installing pushes one address to the
/// root-set and records where it landed; teardown demands that that entry is
/// still the top of the root-set, and pops it.
pub struct RootStruct {
    set: bool,
    index: usize,
    addr: RawObj,
}

impl RootStruct {
    /// Whether the guard has installed its root.
    pub closed spec fn is_set(&self) -> bool {
        self.set
    }

    /// The position in the root-set where this guard's entry landed.
    pub closed spec fn index_spec(&self) -> int {
        self.index as int
    }

    /// The trace-capable address this guard installed.
    pub closed spec fn addr_spec(&self) -> RawObj {
        self.addr
    }

    /// The guard's entry is the most recently pushed one still in `rs`:
    /// the only state in which tearing it down is legal.
    pub open spec fn entry_on_top(&self, rs: RootSet) -> bool {
        &&& rs@.len() == self.index_spec() + 1
        &&& rs@.last() == self.addr_spec()
    }

    pub fn new() -> (g: RootStruct)
        ensures
            !g.is_set(),
    {
        RootStruct { set: false, index: 0, addr: 0 }
    }

    /// Bind `addr`, the trace-capable address of a root's storage, into the
    /// root-set. Fails fast, changing nothing, if this guard already
    /// installed one: a root may be registered exactly once per guard.
    pub fn install(&mut self, rs: &mut RootSet, addr: RawObj) -> (r: Result<(), GuardError>)
        requires
            old(rs)@.len() < usize::MAX,
        ensures
            r is Ok <==> !old(self).is_set(),
            r is Ok ==> {
                &&& final(self).is_set()
                &&& final(self).index_spec() == old(rs)@.len()
                &&& final(self).addr_spec() == addr
                &&& final(rs)@ == old(rs)@.push(addr)
            },
            r is Err ==> {
                &&& r == Result::<(), GuardError>::Err(GuardError::AlreadySet)
                &&& *final(self) == *old(self)
                &&& final(rs)@ == old(rs)@
            },
    {
        if self.set {
            return Err(GuardError::AlreadySet);
        }
        self.index = rs.len();
        self.addr = addr;
        self.set = true;
        rs.push(addr);
        Ok(())
    }

    /// Bind a root cell's storage address into the root-set: the usual way
    /// a guard is installed, at the scope entry that created the cell.
    pub fn set<T>(&mut self, rs: &mut RootSet, root: &crate::session::Root<T>) -> (r: Result<
        (),
        GuardError,
    >)
        requires
            old(rs)@.len() < usize::MAX,
        ensures
            r is Ok <==> !old(self).is_set(),
            r is Ok ==> {
                &&& final(self).is_set()
                &&& final(self).index_spec() == old(rs)@.len()
                &&& final(self).addr_spec() == root.addr_spec()
                &&& final(rs)@ == old(rs)@.push(root.addr_spec())
            },
            r is Err ==> {
                &&& r == Result::<(), GuardError>::Err(GuardError::AlreadySet)
                &&& *final(self) == *old(self)
                &&& final(rs)@ == old(rs)@
            },
    {
        self.install(rs, root.addr())
    }

    /// Remove this guard's entry from the root-set, at scope exit. Fails
    /// fast, changing nothing, if the guard never installed anything, or if
    /// its entry is not the top of the root-set: guards must retire in exact
    /// reverse order of installation, or the root-set would keep an address
    /// for storage that has already left scope.
    pub fn teardown(&mut self, rs: &mut RootSet) -> (r: Result<(), GuardError>)
        ensures
            r is Ok <==> old(self).is_set() && old(self).entry_on_top(*old(rs)),
            r is Ok ==> {
                &&& !final(self).is_set()
                &&& final(rs)@ == old(rs)@.drop_last()
            },
            r == Result::<(), GuardError>::Err(GuardError::NeverSet) <==> !old(self).is_set(),
            r == Result::<(), GuardError>::Err(GuardError::OutOfOrder) <==> old(self).is_set()
                && !old(self).entry_on_top(*old(rs)),
            r is Err ==> *final(self) == *old(self) && final(rs)@ == old(rs)@,
    {
        if !self.set {
            return Err(GuardError::NeverSet);
        }
        if rs.len() == 0 || rs.len() - 1 != self.index {
            return Err(GuardError::OutOfOrder);
        }
        if rs.top() != self.addr {
            return Err(GuardError::OutOfOrder);
        }
        rs.pop();
        self.set = false;
        Ok(())
    }
}

/// The shape of a region of code that installs and tears down guards in pure
/// stack order: empty, or one install whose scope nests a well-ordered region
/// and is followed by another.
pub enum ScopeShape {
    Leaf,
    Nest(RawObj, Box<ScopeShape>, Box<ScopeShape>),
}

/// The root-set contents after running a stack-ordered region against `rs`:
/// each `Nest(addr, inner, rest)` installs `addr`, runs `inner`, tears the
/// entry back off, then runs `rest`. This is exactly the sequence of states
/// the contracts of [`RootStruct::install`] and [`RootStruct::teardown`]
/// describe for a region in which every teardown succeeds.
pub open spec fn run_scopes(shape: ScopeShape, rs: Seq<RawObj>) -> Seq<RawObj>
    decreases shape,
{
    match shape {
        ScopeShape::Leaf => rs,
        ScopeShape::Nest(addr, inner, rest) => run_scopes(
            *rest,
            run_scopes(*inner, rs.push(addr)).drop_last(),
        ),
    }
}

/// Law: a region of install/teardown operations performed in pure stack order
/// returns the root-set to exactly its prior contents — its size is restored
/// and no dangling address remains.
pub proof fn lemma_stack_order_restores(shape: ScopeShape, rs: Seq<RawObj>)
    ensures
        run_scopes(shape, rs) == rs,
    decreases shape,
{
    match shape {
        ScopeShape::Leaf => {},
        ScopeShape::Nest(addr, inner, rest) => {
            lemma_stack_order_restores(*inner, rs.push(addr));
            assert(rs.push(addr).drop_last() =~= rs);
            lemma_stack_order_restores(*rest, rs);
        },
    }
}

} // verus!
