//! The tracing contract: every rooted type enumerates, into a mutable work
//! list, every heap reference it directly owns. This is the sole mechanism
//! by which the collector discovers reachability from the native stack, so
//! the contract demands exhaustiveness: the work list grows by exactly the
//! references the value owns — an omission would amount to freeing live
//! data, an extra entry to tracing a dangling address.

use vstd::prelude::*;

use crate::object::{GcObj, RawObj};
use crate::rooted::{RootCons, RootObj, Rt};
use crate::session::Root;

verus! {

/// A trace-capable value: `refs` is the exact sequence of heap references it
/// directly owns, and `mark` appends exactly those to the work list.
pub trait Trace {
    spec fn refs(&self) -> Seq<RawObj>;

    fn mark(&self, stack: &mut Vec<RawObj>)
        requires
            old(stack)@.len() + self.refs().len() <= usize::MAX,
        ensures
            final(stack)@ == old(stack)@ + self.refs(),
    ;
}

impl Trace for GcObj {
    open spec fn refs(&self) -> Seq<RawObj> {
        seq![self.raw]
    }

    fn mark(&self, stack: &mut Vec<RawObj>) {
        stack.push(self.raw);
        proof {
            assert(old(stack)@.push(self.raw) =~= old(stack)@ + self.refs());
        }
    }
}

impl Trace for RootObj {
    open spec fn refs(&self) -> Seq<RawObj> {
        seq![self.obj]
    }

    fn mark(&self, stack: &mut Vec<RawObj>) {
        stack.push(self.obj);
        proof {
            assert(old(stack)@.push(self.obj) =~= old(stack)@ + self.refs());
        }
    }
}

impl Trace for RootCons {
    open spec fn refs(&self) -> Seq<RawObj> {
        seq![self.addr]
    }

    fn mark(&self, stack: &mut Vec<RawObj>) {
        stack.push(self.addr);
        proof {
            assert(old(stack)@.push(self.addr) =~= old(stack)@ + self.refs());
        }
    }
}

impl<T: Trace> Trace for Rt<T> {
    open spec fn refs(&self) -> Seq<RawObj> {
        self.inner.refs()
    }

    fn mark(&self, stack: &mut Vec<RawObj>) {
        self.inner.mark(stack);
    }
}

impl<T: Trace> Trace for Root<T> {
    open spec fn refs(&self) -> Seq<RawObj> {
        self.cell_spec().refs()
    }

    fn mark(&self, stack: &mut Vec<RawObj>) {
        self.cell_for_trace().mark(stack);
    }
}

impl<T: Trace> Trace for Option<T> {
    open spec fn refs(&self) -> Seq<RawObj> {
        match *self {
            Some(inner) => inner.refs(),
            None => Seq::empty(),
        }
    }

    fn mark(&self, stack: &mut Vec<RawObj>) {
        match self {
            Some(inner) => inner.mark(stack),
            None => {
                proof {
                    assert(old(stack)@ + self.refs() =~= old(stack)@);
                }
            },
        }
    }
}

impl<T: Trace, U: Trace> Trace for (T, U) {
    open spec fn refs(&self) -> Seq<RawObj> {
        self.0.refs() + self.1.refs()
    }

    fn mark(&self, stack: &mut Vec<RawObj>) {
        self.0.mark(stack);
        self.1.mark(stack);
        proof {
            assert((old(stack)@ + self.0.refs()) + self.1.refs() =~= old(stack)@ + self.refs());
        }
    }
}

/// The references directly owned by a sequence of trace-capable values: the
/// concatenation of each element's, in order.
pub open spec fn seq_refs<T: Trace>(s: Seq<T>) -> Seq<RawObj>
    decreases s.len(),
{
    if s.len() == 0 {
        Seq::empty()
    } else {
        s.first().refs() + seq_refs(s.drop_first())
    }
}

/// Concatenating one more element's references extends the prefix's.
proof fn lemma_seq_refs_take_step<T: Trace>(s: Seq<T>, k: int)
    requires
        0 <= k < s.len(),
    ensures
        seq_refs(s.take(k + 1)) == seq_refs(s.take(k)) + s[k].refs(),
    decreases k,
{
    if k == 0 {
        assert(s.take(1).len() == 1);
        assert(seq_refs(Seq::<T>::empty()) == Seq::<RawObj>::empty());
        assert(s.take(1).drop_first() =~= Seq::<T>::empty());
        assert(s.take(1).first() == s[0]);
        assert(s[0].refs() + Seq::<RawObj>::empty() =~= s[0].refs());
        assert(seq_refs(s.take(1)) =~= s[0].refs());
        assert(seq_refs(s.take(0)) + s[0].refs() =~= s[0].refs());
    } else {
        lemma_seq_refs_take_step(s.drop_first(), k - 1);
        assert(s.take(k + 1).drop_first() =~= s.drop_first().take(k));
        assert(s.take(k).drop_first() =~= s.drop_first().take(k - 1));
        assert(s.take(k + 1).first() == s.first());
        assert(s.take(k).first() == s.first());
        assert(s.drop_first()[k - 1] == s[k]);
        assert(seq_refs(s.take(k + 1)) =~= seq_refs(s.take(k)) + s[k].refs());
    }
}

/// A prefix's references, plus the next element's, never outrun the whole's.
proof fn lemma_seq_refs_prefix_bound<T: Trace>(s: Seq<T>, k: int)
    requires
        0 <= k < s.len(),
    ensures
        seq_refs(s.take(k)).len() + s[k].refs().len() <= seq_refs(s).len(),
    decreases s.len(),
{
    if s.len() > 0 {
        if k == 0 {
            assert(s.take(0) =~= Seq::<T>::empty());
        } else {
            lemma_seq_refs_prefix_bound(s.drop_first(), k - 1);
            assert(s.take(k).drop_first() =~= s.drop_first().take(k - 1));
            assert(s.drop_first()[k - 1] == s[k]);
            assert(seq_refs(s.take(k)) == s.first().refs() + seq_refs(s.drop_first().take(k - 1)));
        }
    }
}

impl<T: Trace> Trace for Vec<T> {
    open spec fn refs(&self) -> Seq<RawObj> {
        seq_refs(self@)
    }

    fn mark(&self, stack: &mut Vec<RawObj>) {
        let ghost whole = self@;
        let mut i: usize = 0;
        proof {
            assert(whole.take(0) =~= Seq::<T>::empty());
            assert(stack@ + seq_refs(whole.take(0)) =~= stack@);
        }
        while i < self.len()
            invariant
                i <= whole.len(),
                self@ == whole,
                old(stack)@.len() + seq_refs(whole).len() <= usize::MAX,
                stack@ == old(stack)@ + seq_refs(whole.take(i as int)),
            decreases whole.len() - i,
        {
            proof {
                lemma_seq_refs_take_step(whole, i as int);
                lemma_seq_refs_prefix_bound(whole, i as int);
            }
            let elem: &T = &self[i];
            elem.mark(stack);
            i = i + 1;
        }
        proof {
            assert(whole.take(whole.len() as int) =~= whole);
        }
    }
}

} // verus!
