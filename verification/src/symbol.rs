//! Interned symbols: a name wedded to a mutable function cell. The cell
//! stores a function value as one word of nonzero tagged bits, zero meaning
//! unset, so a symbol stays one allocation wide and its function can be
//! redefined without touching the name.

use vstd::prelude::*;

use crate::object::GcObj;
use crate::rooted::{IntoRoot, RootObj};

verus! {

/// A callable heap value, named by its nonzero tagged bits. The encoding of
/// what the bits point at (bytecode or a built-in) is the evaluator's
/// business; zero is reserved by the function cell for "unset".
#[derive(Clone, Copy, PartialEq, Eq, Structural, Debug)]
pub struct Function {
    raw: i64,
}

impl Function {
    #[verifier::type_invariant]
    pub closed spec fn inv(self) -> bool {
        self.raw != 0
    }

    pub closed spec fn raw_spec(&self) -> i64 {
        self.raw
    }

    pub fn new(raw: i64) -> (f: Function)
        requires
            raw != 0,
        ensures
            f.raw_spec() == raw,
    {
        Function { raw }
    }

    pub fn raw(&self) -> (r: i64)
        ensures
            r == self.raw_spec(),
    {
        self.raw
    }
}

/// One word of storage for a symbol's function: zero while unset, the
/// function's tagged bits once set.
#[derive(Debug)]
pub struct FnCell {
    raw: i64,
}

impl FnCell {
    /// The function the cell holds, if any: every nonzero word is one.
    pub closed spec fn func_spec(&self) -> Option<Function> {
        if self.raw == 0 {
            None
        } else {
            Some(Function { raw: self.raw })
        }
    }

    pub fn new() -> (c: FnCell)
        ensures
            c.func_spec() is None,
    {
        FnCell { raw: 0 }
    }

    pub fn set(&mut self, func: Function)
        ensures
            final(self).func_spec() == Some(func),
    {
        proof {
            use_type_invariant(func);
        }
        self.raw = func.raw;
    }

    pub fn get(&self) -> (r: Option<Function>)
        ensures
            r == self.func_spec(),
    {
        let bits = self.raw;
        if bits == 0 {
            None
        } else {
            Some(Function { raw: bits })
        }
    }
}

/// The interned storage of one symbol: its name and its function cell.
#[derive(Debug)]
pub struct InnerSymbol {
    name: String,
    func: FnCell,
}

impl InnerSymbol {
    pub closed spec fn name_spec(&self) -> Seq<char> {
        self.name@
    }

    pub closed spec fn func_spec(&self) -> Option<Function> {
        self.func.func_spec()
    }

    /// A fresh symbol has a name and no function.
    pub fn new(name: String) -> (s: InnerSymbol)
        ensures
            s.name_spec() == name@,
            s.func_spec() is None,
    {
        InnerSymbol { name, func: FnCell::new() }
    }

    /// Redefine the symbol's function; the name is untouched.
    pub fn set_func(&mut self, func: Function)
        ensures
            final(self).func_spec() == Some(func),
            final(self).name_spec() == old(self).name_spec(),
    {
        self.func.set(func);
    }

    /// The currently bound function: exactly the last one set, or none yet.
    pub fn get_func(&self) -> (r: Option<Function>)
        ensures
            r == self.func_spec(),
    {
        self.func.get()
    }

    pub fn get_name(&self) -> (r: &str)
        ensures
            r@ == self.name_spec(),
    {
        self.name.as_str()
    }
}

/// A one-word reference to an interned symbol, identified by its slot in
/// the symbol table. Two symbols are the same exactly when they name the
/// same slot, which is what makes it a cheap, unrooted map key.
#[derive(Clone, Copy, PartialEq, Eq, Structural, Hash, Debug)]
pub struct Symbol {
    pub id: u64,
}

impl Symbol {
    /// Reconstruct a symbol reference from its interned slot; the symbol
    /// table vouches that the slot stays put for the life of the runtime.
    pub fn from_id(id: u64) -> (s: Symbol)
        ensures
            s.id == id,
    {
        Symbol { id }
    }
}

/// A symbol key together with a heap value, converted for rooted map or
/// sequence storage: the key is unrooted, the value's lifetime is erased.
impl IntoRoot<(Symbol, RootObj)> for (Symbol, GcObj) {
    open spec fn root_spec(self) -> (Symbol, RootObj) {
        (self.0, RootObj { obj: self.1.raw })
    }

    fn into_root(self) -> (r: (Symbol, RootObj)) {
        (self.0, RootObj::new(self.1))
    }
}

} // verus!
