use std::collections::HashMap;

use rooting::guard::{GuardError, RootStruct};
use rooting::object::{Arena, Cons, GcObj};
use rooting::root_set::RootSet;
use rooting::rooted::{vec_into_root, RootCons, RootObj, Rt};
use rooting::session::{Root, RootOwner};
use rooting::trace::Trace;

#[test]
fn indexing() {
    let mut arena = Arena::new();
    let mut vec: Rt<Vec<Rt<RootObj>>> = Rt::new(vec![]);

    vec.push(GcObj::nil());
    assert!(vec.index(0).obj().is_nil());
    let str1 = arena.add("str1");
    let str2 = arena.add("str2");
    vec.push(str1);
    vec.push(str2);
    let slice = vec.slice(0, 3);
    let objs: Vec<GcObj> = slice.iter().map(|rt| rt.obj()).collect();
    assert_eq!(vec![GcObj::nil(), str1, str2], objs);
}

#[test]
fn stack_order_restores_root_set() {
    let mut rs = RootSet::new();
    assert_eq!(rs.len(), 0);

    let mut outer = RootStruct::new();
    let mut inner = RootStruct::new();
    outer.install(&mut rs, 10).unwrap();
    inner.install(&mut rs, 20).unwrap();
    assert_eq!(rs.len(), 2);

    inner.teardown(&mut rs).unwrap();
    let mut again = RootStruct::new();
    again.install(&mut rs, 30).unwrap();
    again.teardown(&mut rs).unwrap();
    outer.teardown(&mut rs).unwrap();
    assert_eq!(rs.len(), 0);
}

#[test]
fn out_of_order_teardown_is_fatal() {
    let mut rs = RootSet::new();
    let mut first = RootStruct::new();
    let mut second = RootStruct::new();
    first.install(&mut rs, 1).unwrap();
    second.install(&mut rs, 2).unwrap();

    assert_eq!(first.teardown(&mut rs), Err(GuardError::OutOfOrder));
    assert_eq!(rs.len(), 2);

    assert_eq!(second.teardown(&mut rs), Ok(()));
    assert_eq!(first.teardown(&mut rs), Ok(()));
    assert_eq!(rs.len(), 0);
}

#[test]
fn double_install_is_fatal() {
    let mut rs = RootSet::new();
    let mut guard = RootStruct::new();
    assert_eq!(guard.install(&mut rs, 7), Ok(()));
    assert_eq!(guard.install(&mut rs, 7), Err(GuardError::AlreadySet));
    assert_eq!(rs.len(), 1);
}

#[test]
fn teardown_without_install_is_fatal() {
    let mut rs = RootSet::new();
    let mut guard = RootStruct::new();
    assert_eq!(guard.teardown(&mut rs), Err(GuardError::NeverSet));

    let mut done = RootStruct::new();
    done.install(&mut rs, 3).unwrap();
    done.teardown(&mut rs).unwrap();
    assert_eq!(done.teardown(&mut rs), Err(GuardError::NeverSet));
}

#[test]
fn owners_of_distinct_scopes_are_rejected() {
    let mut arena = Arena::new();
    let owner1 = RootOwner::new(arena.mint_brand());
    let owner2 = RootOwner::new(arena.mint_brand());

    let value = arena.add("rooted");
    let root = Root::new(&owner1, 1, RootObj::new(value));

    assert!(root.try_borrow(&owner1).is_some());
    assert!(root.try_borrow(&owner2).is_none());
}

#[test]
fn set_then_bind_round_trips() {
    let mut arena = Arena::new();
    let owner = RootOwner::new(arena.mint_brand());
    let before = arena.add("before");
    let after = arena.add("after");

    let mut root = Root::new(&owner, 1, RootObj::new(before));
    root.borrow_mut(&owner, &arena).set(after);

    let bound = root.borrow(&owner).bind(&arena);
    assert_eq!(bound, after);
    assert_eq!(bound.into_raw(), after.into_raw());
}

#[test]
fn two_roots_can_be_opened_at_once() {
    let mut arena = Arena::new();
    let owner = RootOwner::new(arena.mint_brand());
    let a = arena.add("a");
    let b = arena.add("b");

    let mut left = Root::new(&owner, 1, RootObj::new(a));
    let mut right = Root::new(&owner, 2, RootObj::new(b));
    {
        let (lrt, rrt) = Root::borrow_mut2(&mut left, &mut right, &owner, &arena);
        let l = lrt.obj();
        let r = rrt.obj();
        lrt.set(r);
        rrt.set(l);
    }
    assert_eq!(left.borrow(&owner).obj(), b);
    assert_eq!(right.borrow(&owner).obj(), a);
}

#[test]
fn projected_pair_write_is_seen_through_the_optional() {
    let mut arena = Arena::new();
    let x = arena.add("x");
    let y = arena.add("y");
    let z = arena.add("z");

    let pair: Rt<(Rt<RootObj>, Rt<RootObj>)> =
        Rt::new((Rt::new(RootObj::new(x)), Rt::new(RootObj::new(y))));
    let mut opt: Rt<Option<Rt<(Rt<RootObj>, Rt<RootObj>)>>> = Rt::new(Some(pair));

    opt.unwrap_mut().fst_mut().set(z);

    match opt.as_option() {
        Some(projected) => {
            assert_eq!(projected.fst().obj(), z);
            assert_eq!(projected.snd().obj(), y);
        }
        None => panic!("the optional lost its value"),
    }
}

#[test]
fn optional_set_roots_a_fresh_value() {
    let mut arena = Arena::new();
    let v = arena.add("v");
    let mut opt: Rt<Option<Rt<RootObj>>> = Rt::new(None);
    assert!(opt.as_option().is_none());
    opt.set(v);
    assert_eq!(opt.as_option().as_ref().unwrap().obj(), v);
}

#[test]
fn sequence_operations_mirror_plain_ones() {
    let mut arena = Arena::new();
    let a = arena.add("a");
    let b = arena.add("b");
    let c = arena.add("c");

    let mut vec: Rt<Vec<Rt<RootObj>>> = Rt::new(vec![]);
    vec.push(a);
    vec.push(b);
    let mut more: Rt<Vec<Rt<RootObj>>> = Rt::new(vec![]);
    more.push(c);
    vec.append(&mut more);
    assert_eq!(vec.len(), 3);
    assert_eq!(more.len(), 0);

    vec.index_mut(1).set(c);
    assert_eq!(vec.index(1).obj(), c);

    vec.truncate(1);
    assert_eq!(vec.len(), 1);
    assert_eq!(vec.index(0).obj(), a);

    vec.clear();
    assert_eq!(vec.len(), 0);
}

#[test]
fn map_values_are_rooted_views() {
    let mut arena = Arena::new();
    let v1 = arena.add("v1");
    let v2 = arena.add("v2");

    let mut map: Rt<HashMap<u64, Rt<RootObj>>> = Rt::new(HashMap::new());
    assert!(map.get(5).is_none());
    assert!(map.get_mut(5).is_none());

    map.insert(5, v1);
    assert_eq!(map.get(5).unwrap().obj(), v1);

    map.get_mut(5).unwrap().set(v2);
    assert_eq!(map.get(5).unwrap().obj(), v2);
    assert!(map.get(6).is_none());
}

#[test]
fn marking_enumerates_owned_references() {
    let mut arena = Arena::new();
    let a = arena.add("a");
    let b = arena.add("b");

    let mut vec: Rt<Vec<Rt<RootObj>>> = Rt::new(vec![]);
    vec.push(a);
    vec.push(b);

    let mut work: Vec<u64> = vec![99];
    vec.mark(&mut work);
    assert_eq!(work, vec![99, a.into_raw(), b.into_raw()]);

    let mut work: Vec<u64> = vec![];
    let pair = (RootObj::new(a), RootCons::new(&Cons { addr: 17 }));
    pair.mark(&mut work);
    assert_eq!(work, vec![a.into_raw(), 17]);

    let mut work: Vec<u64> = vec![];
    let nothing: Option<RootObj> = None;
    nothing.mark(&mut work);
    assert!(work.is_empty());
}

#[test]
fn roots_are_traced_through_their_cells() {
    let mut arena = Arena::new();
    let owner = RootOwner::new(arena.mint_brand());
    let v = arena.add("v");
    let root = Root::new(&owner, 4, RootObj::new(v));

    let mut work: Vec<u64> = vec![];
    root.mark(&mut work);
    assert_eq!(work, vec![v.into_raw()]);
}

#[test]
fn bulk_conversion_keeps_order() {
    let mut arena = Arena::new();
    let a = arena.add("a");
    let b = arena.add("b");

    let rooted: Vec<RootObj> = vec_into_root(vec![a, b]);
    assert_eq!(rooted.len(), 2);
    assert_eq!(rooted[0], RootObj::new(a));
    assert_eq!(rooted[1], RootObj::new(b));
}

#[test]
fn cons_cells_hold_node_addresses() {
    let arena = Arena::new();
    let node = Cons { addr: 40 };
    let mut rt: Rt<RootCons> = Rt::new(RootCons::new(&node));
    assert_eq!(rt.node(&arena), node);

    let other = Cons { addr: 41 };
    rt.set(&other);
    assert_eq!(rt.node(&arena).addr, 41);
}

#[test]
fn insert_under_an_existing_key_replaces_the_value() {
    let mut arena = Arena::new();
    let v1 = arena.add("v1");
    let v2 = arena.add("v2");

    let mut map: Rt<HashMap<u64, Rt<RootObj>>> = Rt::new(HashMap::new());
    map.insert(9, v1);
    map.insert(9, v2);
    assert_eq!(map.get(9).unwrap().obj(), v2);
}

#[test]
fn truncate_beyond_the_length_keeps_everything() {
    let mut arena = Arena::new();
    let a = arena.add("a");
    let mut vec: Rt<Vec<Rt<RootObj>>> = Rt::new(vec![]);
    vec.push(a);
    vec.truncate(10);
    assert_eq!(vec.len(), 1);
    assert!(vec.slice(1, 1).is_empty());
}

#[test]
fn root_set_defaults_to_empty() {
    let rs = RootSet::default();
    assert_eq!(rs.len(), 0);
}
