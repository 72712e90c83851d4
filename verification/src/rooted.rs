//! The rooted representation: `Rt<T>` is storage for a value whose embedded
//! heap references have their collection-epoch lifetime erased, safe to hold
//! across an allocation point once a guard has anchored it in the root-set.
//!
//! Structural composition nests the wrapper: a rooted pair is
//! `Rt<(Rt<A>, Rt<B>)>`, a rooted optional `Rt<Option<Rt<T>>>`, a rooted
//! sequence `Rt<Vec<Rt<T>>>`. Projections hand out references to the nested
//! rooted storage itself — no element-wise copy — so mutating through a
//! projection and reading through another path always observe one store.

use vstd::prelude::*;

use crate::object::{Arena, Cons, GcObj, RawObj};
use std::collections::hash_map::Entry;
use std::collections::HashMap;

verus! {

broadcast use vstd::std_specs::hash::group_hash_axioms;

/// A rooted single heap reference: one lifetime-erased tagged pointer.
#[derive(Clone, Copy, PartialEq, Eq, Structural, Debug)]
pub struct RootObj {
    pub obj: RawObj,
}

impl RootObj {
    pub fn new(obj: GcObj) -> (r: RootObj)
        ensures
            r.obj == obj.raw,
    {
        RootObj { obj: obj.into_raw() }
    }
}

impl Default for RootObj {
    fn default() -> (r: RootObj)
        ensures
            r.obj == 0,
    {
        RootObj { obj: 0 }
    }
}

/// A rooted reference to a pair node: the node's raw address.
#[derive(Clone, Copy, PartialEq, Eq, Structural, Debug)]
pub struct RootCons {
    pub addr: u64,
}

impl RootCons {
    pub fn new(node: &Cons) -> (r: RootCons)
        ensures
            r.addr == node.addr,
    {
        RootCons { addr: node.addr }
    }
}

/// A value containing heap references, converted into its lifetime-erased
/// rooted form. This conversion is the single trust boundary of the
/// representation: it is only sound if the result is about to be anchored
/// under a root before the next allocation point.
pub trait IntoRoot<T>: Sized {
    /// The rooted form this value converts to.
    spec fn root_spec(self) -> T;

    fn into_root(self) -> (r: T)
        ensures
            r == self.root_spec(),
    ;
}

impl IntoRoot<RootObj> for GcObj {
    open spec fn root_spec(self) -> RootObj {
        RootObj { obj: self.raw }
    }

    fn into_root(self) -> (r: RootObj) {
        RootObj::new(self)
    }
}

impl<'a> IntoRoot<RootCons> for &'a Cons {
    open spec fn root_spec(self) -> RootCons {
        RootCons { addr: self.addr }
    }

    fn into_root(self) -> (r: RootCons) {
        RootCons::new(self)
    }
}

/// Convert every element of a sequence into its rooted form, in order.
pub fn vec_into_root<T: IntoRoot<U>, U>(items: Vec<T>) -> (r: Vec<U>)
    ensures
        r@.len() == items@.len(),
        forall|i: int| 0 <= i < items@.len() ==> r@[i] == items@[i].root_spec(),
{
    let ghost orig = items@;
    let mut rest = items;
    let mut out: Vec<U> = Vec::new();
    while rest.len() > 0
        invariant
            out@.len() + rest@.len() == orig.len(),
            rest@ == orig.skip(out@.len() as int),
            forall|i: int| 0 <= i < out@.len() ==> out@[i] == orig[i].root_spec(),
        decreases rest@.len(),
    {
        let ghost prev_rest = rest@;
        let ghost k = out@.len() as int;
        let first = rest.remove(0);
        out.push(first.into_root());
        proof {
            assert(first == orig[k]);
            assert(rest@ =~= orig.skip(k + 1));
        }
    }
    out
}

/// Storage for one rooted value of type `T`: the in-place reinterpretation
/// of `T` with every embedded heap reference lifetime-erased. Access to its
/// contents is mediated by the session pair; the wrapper itself is plain
/// storage.
pub struct Rt<T> {
    pub inner: T,
}

impl<T> Rt<T> {
    /// Wrap a value as rooted storage. Sound only if the result is anchored
    /// under a root before the next allocation point; values with embedded
    /// heap references must come through [`IntoRoot`].
    pub fn new(data: T) -> (r: Rt<T>)
        ensures
            r.inner == data,
    {
        Rt { inner: data }
    }

    /// Read the stored value back out against a live heap handle, for a
    /// copyable value.
    pub fn getx(&self, _arena: &Arena) -> (r: T)
        where T: Copy,
        ensures
            r == self.inner,
    {
        self.inner
    }

    pub fn as_ref(&self) -> (r: &T)
        ensures
            *r == self.inner,
    {
        &self.inner
    }
}

impl Rt<RootObj> {
    /// Replace the stored reference.
    pub fn set(&mut self, item: GcObj)
        ensures
            final(self).inner.obj == item.raw,
    {
        self.inner.obj = item.into_raw();
    }

    /// The stored reference, still lifetime-erased.
    pub fn obj(&self) -> (r: GcObj)
        ensures
            r.raw == self.inner.obj,
    {
        GcObj::from_raw(self.inner.obj)
    }

    /// Re-attach a live lifetime: the stored reference, bound against a live
    /// heap handle so it can be handed back to heap-allocating code.
    pub fn bind(&self, gc: &Arena) -> (r: GcObj)
        ensures
            r.raw == self.inner.obj,
    {
        gc.bind(GcObj::from_raw(self.inner.obj))
    }
}

impl<T, U> Rt<(Rt<T>, Rt<U>)> {
    /// Project the rooted tuple onto its first component's rooted storage.
    pub fn fst(&self) -> (r: &Rt<T>)
        ensures
            *r == self.inner.0,
    {
        &self.inner.0
    }

    /// Project the rooted tuple onto its second component's rooted storage.
    pub fn snd(&self) -> (r: &Rt<U>)
        ensures
            *r == self.inner.1,
    {
        &self.inner.1
    }

    /// Mutable projection onto the first component: writes through the
    /// result land in this same storage.
    pub fn fst_mut(&mut self) -> (r: &mut Rt<T>)
        ensures
            *r == old(self).inner.0,
            final(self).inner == (*final(r), old(self).inner.1),
    {
        &mut self.inner.0
    }

    /// Mutable projection onto the second component.
    pub fn snd_mut(&mut self) -> (r: &mut Rt<U>)
        ensures
            *r == old(self).inner.1,
            final(self).inner == (old(self).inner.0, *final(r)),
    {
        &mut self.inner.1
    }

    /// Destructure the rooted tuple into both components' rooted storage at
    /// once.
    pub fn split_mut(&mut self) -> (r: (&mut Rt<T>, &mut Rt<U>))
        ensures
            *r.0 == old(self).inner.0,
            *r.1 == old(self).inner.1,
            final(self).inner == (*final(r.0), *final(r.1)),
    {
        let pair = &mut self.inner;
        (&mut pair.0, &mut pair.1)
    }
}

impl<T> Rt<Option<Rt<T>>> {
    /// View the rooted optional as an optional of rooted storage.
    pub fn as_option(&self) -> (r: &Option<Rt<T>>)
        ensures
            *r == self.inner,
    {
        &self.inner
    }

    /// Mutable view of the rooted optional.
    pub fn as_option_mut(&mut self) -> (r: &mut Option<Rt<T>>)
        ensures
            *r == old(self).inner,
            final(self).inner == *final(r),
    {
        &mut self.inner
    }

    /// Project onto the rooted storage inside a present optional: writes
    /// through the result are seen by every later read of the optional.
    pub fn unwrap_mut(&mut self) -> (r: &mut Rt<T>)
        requires
            old(self).inner is Some,
        ensures
            *r == old(self).inner->Some_0,
            final(self).inner == Some(*final(r)),
    {
        match &mut self.inner {
            Some(inner) => inner,
            None => unreached(),
        }
    }
}

impl Rt<Option<Rt<RootObj>>> {
    /// Fill the rooted optional with a freshly rooted reference.
    pub fn set(&mut self, obj: GcObj)
        ensures
            final(self).inner == Some((Rt { inner: (RootObj { obj: obj.raw }) })),
    {
        self.inner = Some(Rt::new(RootObj::new(obj)));
    }
}

impl<T> Rt<Vec<Rt<T>>> {
    pub fn len(&self) -> (n: usize)
        ensures
            n == self.inner@.len(),
    {
        self.inner.len()
    }

    /// Project onto the rooted storage of one element.
    pub fn index(&self, i: usize) -> (r: &Rt<T>)
        requires
            i < self.inner@.len(),
        ensures
            *r == self.inner@[i as int],
    {
        &self.inner[i]
    }

    /// Mutable projection onto one element: writes through the result land
    /// in this same storage.
    pub fn index_mut(&mut self, i: usize) -> (r: &mut Rt<T>)
        requires
            i < old(self).inner@.len(),
        ensures
            *r == old(self).inner@[i as int],
            final(self).inner@ == old(self).inner@.update(i as int, *final(r)),
    {
        &mut self.inner[i]
    }

    /// The whole rooted sequence as a slice of rooted storage.
    pub fn as_slice(&self) -> (r: &[Rt<T>])
        ensures
            r@ == self.inner@,
    {
        self.inner.as_slice()
    }

    /// Zero-copy projection onto the subrange `[start, end)`.
    pub fn slice(&self, start: usize, end: usize) -> (r: &[Rt<T>])
        requires
            start <= end <= self.inner@.len(),
        ensures
            r@ == self.inner@.subrange(start as int, end as int),
    {
        vstd::slice::slice_subrange(self.inner.as_slice(), start, end)
    }

    /// Append one value, converting it into its rooted form; sound because
    /// the sequence's storage is already anchored.
    pub fn push<U: IntoRoot<T>>(&mut self, item: U)
        requires
            old(self).inner@.len() < usize::MAX,
        ensures
            final(self).inner@ == old(self).inner@.push((Rt { inner: item.root_spec() })),
    {
        self.inner.push(Rt::new(item.into_root()));
    }

    /// Keep only the first `len` elements; with `len` at or beyond the
    /// current length, keep everything.
    pub fn truncate(&mut self, len: usize)
        ensures
            final(self).inner@ == if len <= old(self).inner@.len() {
                old(self).inner@.subrange(0, len as int)
            } else {
                old(self).inner@
            },
    {
        self.inner.truncate(len);
    }

    /// Move every element of `other` to the end of `self`, in order.
    pub fn append(&mut self, other: &mut Self)
        requires
            old(self).inner@.len() + old(other).inner@.len() <= usize::MAX,
        ensures
            final(self).inner@ == old(self).inner@ + old(other).inner@,
            final(other).inner@ == Seq::<Rt<T>>::empty(),
    {
        self.inner.append(&mut other.inner);
    }

    /// Remove every element.
    pub fn clear(&mut self)
        ensures
            final(self).inner@ == Seq::<Rt<T>>::empty(),
    {
        self.inner.clear();
    }
}

impl<V> Rt<HashMap<u64, Rt<V>>> {
    /// Look up the rooted storage of the value under an unrooted key.
    pub fn get(&self, k: u64) -> (r: Option<&Rt<V>>)
        ensures
            r is Some <==> self.inner@.contains_key(k),
            r matches Some(v) ==> *v == self.inner@[k],
    {
        self.inner.get(&k)
    }

    /// Mutable projection onto the rooted storage of the value under a key:
    /// writes through the result land in this same mapping.
    pub fn get_mut(&mut self, k: u64) -> (r: Option<&mut Rt<V>>)
        ensures
            r is Some <==> old(self).inner@.contains_key(k),
            r matches Some(v) ==> *v == old(self).inner@[k] && final(self).inner@ == old(
                self,
            ).inner@.insert(k, *final(v)),
            r is None ==> final(self).inner@ == old(self).inner@,
    {
        let ghost prior = self.inner@;
        match self.inner.entry(k) {
            Entry::Occupied(e) => Some(e.into_mut()),
            Entry::Vacant(_e) => {
                proof {
                    assert(prior.remove(k) =~= prior);
                }
                None
            },
        }
    }

    /// Map the key to a value converted into its rooted form; sound because
    /// the mapping's storage is already anchored.
    pub fn insert<R: IntoRoot<V>>(&mut self, k: u64, v: R)
        ensures
            final(self).inner@ == old(self).inner@.insert(k, (Rt { inner: v.root_spec() })),
    {
        self.inner.insert(k, Rt::new(v.into_root()));
    }
}

impl Rt<RootCons> {
    /// Replace the stored pair-node address.
    pub fn set(&mut self, item: &Cons)
        ensures
            final(self).inner.addr == item.addr,
    {
        self.inner.addr = item.addr;
    }

    /// The rooted node, named by its address, against a live heap handle.
    pub fn node(&self, _gc: &Arena) -> (r: Cons)
        ensures
            r.addr == self.inner.addr,
    {
        Cons { addr: self.inner.addr }
    }
}

/// Law: rooting a heap value, replacing it through the rooted storage, and
/// then re-binding against a live heap handle yields the replacement
/// bit-for-bit. `rt` here is the state [`Rt::set`] leaves behind for a
/// written value `v`; the re-bound reference [`Rt::bind`] then returns is
/// `v` itself.
pub proof fn lemma_set_bind_round_trip(rt: Rt<RootObj>, v: GcObj)
    requires
        rt.inner.obj == v.raw,
    ensures
        (GcObj { raw: rt.inner.obj }) == v,
{
}

/// Law: projection paths never diverge, because every projection of a
/// rooted composite aliases one store. For a rooted optional wrapping a
/// rooted pair, `after` is the state that writing `v` through the projected
/// first field leaves behind (per the contracts of [`Rt::unwrap_mut`],
/// [`Rt::fst_mut`] and [`Rt::set`]); dereferencing the optional directly
/// then shows `v` in the first field and the second field untouched.
pub proof fn lemma_projection_paths_agree(
    before: Rt<Option<Rt<(Rt<RootObj>, Rt<RootObj>)>>>,
    after: Rt<Option<Rt<(Rt<RootObj>, Rt<RootObj>)>>>,
    v: GcObj,
)
    requires
        before.inner is Some,
        after.inner == Some(
            (Rt {
                inner: (
                    (Rt { inner: (RootObj { obj: v.raw }) }),
                    before.inner->Some_0.inner.1,
                ),
            }),
        ),
    ensures
        after.inner is Some,
        after.inner->Some_0.inner.0.inner.obj == v.raw,
        after.inner->Some_0.inner.1 == before.inner->Some_0.inner.1,
{
}

} // verus!
