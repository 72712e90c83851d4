use rooting::object::GcObj;
use rooting::rooted::{IntoRoot, RootObj};
use rooting::symbol::{FnCell, Function, InnerSymbol, Symbol};

#[test]
fn size() {
    assert_eq!(32, std::mem::size_of::<InnerSymbol>());
    assert_eq!(8, std::mem::size_of::<Symbol>());
}

#[test]
fn symbol_func() {
    let x = InnerSymbol::new("foo".to_owned());
    assert_eq!("foo", x.get_name());
    assert!(x.get_func().is_none());

    let mut x = x;
    let first = Function::new(1);
    x.set_func(first);
    let cell = x.get_func().unwrap();
    assert_eq!(cell.raw(), 1);

    let second = Function::new(7);
    x.set_func(second);
    let cell = x.get_func().unwrap();
    assert_eq!(cell.raw(), 7);
    assert_eq!("foo", x.get_name());
}

#[test]
fn fn_cell_round_trip() {
    let mut cell = FnCell::new();
    assert!(cell.get().is_none());
    cell.set(Function::new(-3));
    assert_eq!(cell.get().unwrap().raw(), -3);
}

#[test]
fn symbols_compare_by_slot() {
    let a = Symbol::from_id(11);
    let b = Symbol::from_id(11);
    let c = Symbol::from_id(12);
    assert_eq!(a, b);
    assert_ne!(a, c);
}

#[test]
fn symbol_value_pairs_convert_for_rooting() {
    let sym = Symbol::from_id(3);
    let obj = GcObj::from_raw(77);
    let (key, rooted): (Symbol, RootObj) = (sym, obj).into_root();
    assert_eq!(key, sym);
    assert_eq!(rooted, RootObj::new(obj));
}
