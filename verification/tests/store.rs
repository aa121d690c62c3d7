use risp::arena::{Arena, Handle, RispError};
use risp::atom::RispAtom;
use risp::exp::RispExp;

fn text(arena: &Arena, h: Handle) -> String {
    arena.render(h).unwrap()
}

#[test]
fn scenario_shared_tail() {
    let mut arena = Arena::new();
    let nil = arena.atom("nil".into());
    let v1 = arena.atom(5.into());
    let v2 = arena.atom(6.into());
    let v3 = arena.atom(10.into());

    let a = arena.cons(v1, nil).unwrap();
    let b = arena.cons(v2, a).unwrap();
    let c = arena.cons(v3, a).unwrap();

    assert_eq!(text(&arena, a), "(5 . nil)");
    assert_eq!(text(&arena, b), "(6 . (5 . nil))");
    assert_eq!(text(&arena, c), "(10 . (5 . nil))");

    // a new value in the shared atom
    assert_eq!(arena.set_value(v1, 15.into()), Ok(()));

    assert_eq!(text(&arena, a), "(15 . nil)");
    assert_eq!(text(&arena, b), "(6 . (15 . nil))");
    assert_eq!(text(&arena, c), "(10 . (15 . nil))");

    // a new node in the shared slot
    let w1 = arena.atom(42.into());
    let w2 = arena.atom(43.into());
    let old = arena.replace(a, RispExp::cons(&w1, &w2)).unwrap();
    assert_eq!(old, RispExp::cons(&v1, &nil));

    assert_eq!(text(&arena, a), "(42 . 43)");
    assert_eq!(text(&arena, b), "(6 . (42 . 43))");
    assert_eq!(text(&arena, c), "(10 . (42 . 43))");

    // the first slot redirected to an atom that is already there
    let x1 = arena.atom(9.into());
    assert_eq!(arena.set_first(a, x1), Ok(()));

    assert_eq!(text(&arena, a), "(9 . 43)");
    assert_eq!(text(&arena, b), "(6 . (9 . 43))");
    assert_eq!(text(&arena, c), "(10 . (9 . 43))");
}

#[test]
fn nested_pairs_are_reached_step_by_step() {
    let mut arena = Arena::new();
    let c1 = arena.atom(1.into());
    let c2 = arena.atom(2.into());
    let c3 = arena.atom(3.into());
    let e1 = arena.cons(c1, c2).unwrap();
    let e2 = arena.cons(e1, c3).unwrap();

    assert_eq!(text(&arena, e2), "((1 . 2) . 3)");

    let a1 = arena.first_of(e2).unwrap();
    assert_eq!(a1, e1);
    assert_eq!(text(&arena, a1), "(1 . 2)");

    let a2 = arena.first_of(a1).unwrap();
    assert_eq!(a2, c1);
    assert_eq!(text(&arena, a2), "1");

    assert_eq!(arena.second_of(e2), Ok(c3));
    assert_eq!(arena.second_of(e1), Ok(c2));

    // the same path through the nodes themselves
    let node = arena.resolve(e2).unwrap();
    let inner = node.car(&arena).unwrap();
    assert_eq!(inner, &RispExp::cons(&c1, &c2));
    assert_eq!(inner.car(&arena).unwrap(), &RispExp::atom(1));
    assert_eq!(node.cdr(&arena).unwrap(), &RispExp::atom(3));
}

#[test]
fn build_round_trip() {
    let mut arena = Arena::new();
    let a1 = arena.atom(1.into());
    let a2 = arena.atom(2.into());
    let a3 = arena.atom(3.into());
    let list = arena.build(&vec![a1, a2, a3]).unwrap();

    assert_eq!(text(&arena, list), "(1 . (2 . (3 . nil)))");
    assert_eq!(arena.iterate(list), Ok(vec![a1, a2, a3]));
    // one atom `nil` and one pair for each item
    assert_eq!(arena.len(), 7);
}

#[test]
fn build_of_nothing_is_nil() {
    let mut arena = Arena::new();
    let list = arena.build(&vec![]).unwrap();
    assert_eq!(text(&arena, list), "nil");
    assert_eq!(arena.iterate(list), Ok(vec![]));
    assert_eq!(arena.len(), 1);
}

#[test]
fn build_of_one_item() {
    let mut arena = Arena::new();
    let v1 = arena.atom(1.into());
    let list = arena.build(&vec![v1]).unwrap();
    assert_eq!(text(&arena, list), "(1 . nil)");
    assert_eq!(arena.iterate(list), Ok(vec![v1]));
}

#[test]
fn build_nests_lists_in_lists() {
    let mut arena = Arena::new();
    let quote = arena.atom("quote".into());
    let a = arena.atom("a".into());
    let ldc = arena.atom("ldc".into());
    let code = arena.build(&vec![quote, a]).unwrap();
    let outer = arena.build(&vec![ldc, code]).unwrap();
    assert_eq!(text(&arena, code), "(quote . (a . nil))");
    assert_eq!(text(&arena, outer), "(ldc . ((quote . (a . nil)) . nil))");
    assert_eq!(arena.iterate(outer), Ok(vec![ldc, code]));
}

#[test]
fn build_shares_an_item_that_occurs_twice() {
    let mut arena = Arena::new();
    let v = arena.atom(7.into());
    let list = arena.build(&vec![v, v]).unwrap();
    assert_eq!(text(&arena, list), "(7 . (7 . nil))");
    arena.set_value(v, 8.into()).unwrap();
    assert_eq!(text(&arena, list), "(8 . (8 . nil))");
}

#[test]
fn build_refuses_a_dangling_item_and_allocates_nothing() {
    let mut other = Arena::with_generation(3);
    let foreign = other.atom(1.into());
    let mut arena = Arena::new();
    let v = arena.atom(1.into());
    assert_eq!(arena.build(&vec![v, foreign]), Err(RispError::Dangling));
    assert_eq!(arena.len(), 1);
}

#[test]
fn aliasing_visibility() {
    let mut arena = Arena::new();
    let x = arena.atom("x".into());
    let y = arena.atom("y".into());
    let z = arena.atom("z".into());
    let p = arena.cons(x, y).unwrap();
    let handles = vec![p, p];
    let h1 = handles[0];
    let h2 = handles[1];

    assert_eq!(arena.first_of(h2), Ok(x));
    assert_eq!(arena.set_first(h1, z), Ok(()));
    assert_eq!(arena.first_of(h2), Ok(z));
    assert_eq!(arena.second_of(h2), Ok(y));

    assert_eq!(arena.set_second(h2, x), Ok(()));
    assert_eq!(arena.second_of(h1), Ok(x));
    assert_eq!(text(&arena, p), "(z . x)");
}

#[test]
fn sharing_under_mutation() {
    let mut arena = Arena::new();
    let nil = arena.atom("nil".into());
    let v1 = arena.atom(1.into());
    let v2 = arena.atom(2.into());
    let v3 = arena.atom(3.into());
    let a = arena.cons(v1, nil).unwrap();
    let b = arena.cons(v2, a).unwrap();
    let c = arena.cons(v3, a).unwrap();

    arena.set_value(v1, "one".into()).unwrap();

    let through_b = arena.first_of(arena.second_of(b).unwrap()).unwrap();
    let through_c = arena.first_of(arena.second_of(c).unwrap()).unwrap();
    assert_eq!(through_b, v1);
    assert_eq!(through_c, v1);
    assert_eq!(arena.resolve(through_b), Ok(&RispExp::atom("one")));
    assert_eq!(arena.resolve(through_c), Ok(&RispExp::atom("one")));
    assert_eq!(text(&arena, b), "(2 . (one . nil))");
    assert_eq!(text(&arena, c), "(3 . (one . nil))");
}

#[test]
fn resolving_twice_gives_the_same() {
    let mut arena = Arena::new();
    let v = arena.atom(5.into());
    let p = arena.cons(v, v).unwrap();
    assert_eq!(arena.resolve(v), arena.resolve(v));
    assert_eq!(arena.resolve(p), arena.resolve(p));
    assert_eq!(arena.resolve(p), Ok(&RispExp::cons(&v, &v)));
    assert_eq!(arena.render(p), arena.render(p));
    assert_eq!(arena.iterate(p), arena.iterate(p));
}

#[test]
fn variant_replacement() {
    let mut arena = Arena::new();
    let h = arena.atom(1.into());
    let x = arena.atom(2.into());
    let y = arena.atom(3.into());

    assert_eq!(arena.first_of(h), Err(RispError::NotAPair));
    assert_eq!(arena.set_value(h, 4.into()), Ok(()));

    // the atom becomes a pair
    arena.replace(h, RispExp::cons(&x, &y)).unwrap();
    assert_eq!(arena.first_of(h), Ok(x));
    assert_eq!(arena.second_of(h), Ok(y));
    assert_eq!(arena.set_value(h, 5.into()), Err(RispError::NotAnAtom));
    assert_eq!(arena.set_first(h, y), Ok(()));
    assert_eq!(text(&arena, h), "(3 . 3)");

    // and an atom again
    arena.replace(h, RispExp::atom("back")).unwrap();
    assert_eq!(arena.first_of(h), Err(RispError::NotAPair));
    assert_eq!(arena.second_of(h), Err(RispError::NotAPair));
    assert_eq!(arena.set_first(h, x), Err(RispError::NotAPair));
    assert_eq!(arena.set_second(h, x), Err(RispError::NotAPair));
    assert_eq!(arena.set_value(h, 6.into()), Ok(()));
    assert_eq!(text(&arena, h), "6");
}

#[test]
fn resolve_mut_writes_in_place() {
    let mut arena = Arena::new();
    let v = arena.atom(1.into());
    let p = arena.cons(v, v).unwrap();
    *arena.resolve_mut(v).unwrap() = RispExp::atom("changed");
    assert_eq!(text(&arena, p), "(changed . changed)");
    match arena.resolve_mut(p).unwrap() {
        RispExp::Cons { cdr, .. } => *cdr = p,
        RispExp::Atom(_) => panic!("not a pair"),
    }
    assert_eq!(arena.second_of(p), Ok(p));
    assert_eq!(arena.len(), 2);
}

#[test]
fn dangling_after_teardown() {
    let mut arena = Arena::new();
    let v = arena.atom(1.into());
    let p = arena.cons(v, v).unwrap();
    assert_eq!(arena.reset(), Ok(()));

    assert_eq!(arena.len(), 0);
    assert_eq!(arena.resolve(v), Err(RispError::Dangling));
    assert_eq!(arena.resolve(p), Err(RispError::Dangling));
    assert!(matches!(arena.resolve_mut(v), Err(RispError::Dangling)));
    assert_eq!(arena.first_of(p), Err(RispError::Dangling));
    assert_eq!(arena.second_of(p), Err(RispError::Dangling));
    assert_eq!(arena.render(p), Err(RispError::Dangling));
    assert_eq!(arena.iterate(p), Err(RispError::Dangling));
    assert_eq!(arena.set_value(v, 2.into()), Err(RispError::Dangling));
    assert_eq!(arena.set_first(p, v), Err(RispError::Dangling));
    assert_eq!(arena.set_second(p, v), Err(RispError::Dangling));
    assert_eq!(arena.replace(v, RispExp::atom(3)), Err(RispError::Dangling));

    // new nodes take the old slots, and the old handles stay dangling
    let fresh = arena.atom(7.into());
    let other = arena.atom(8.into());
    assert_ne!(fresh, v);
    assert_eq!(arena.resolve(v), Err(RispError::Dangling));
    assert_eq!(arena.resolve(p), Err(RispError::Dangling));
    assert_eq!(arena.cons(fresh, v), Err(RispError::Dangling));
    assert_eq!(arena.cons(v, other), Err(RispError::Dangling));
    assert_eq!(arena.len(), 2);
    assert_eq!(arena.resolve(fresh), Ok(&RispExp::atom(7)));
}

#[test]
fn handle_of_another_generation_dangles() {
    let mut first = Arena::with_generation(1);
    let mut second = Arena::with_generation(2);
    let a = first.atom(1.into());
    let b = second.atom(2.into());
    assert_eq!(first.resolve(b), Err(RispError::Dangling));
    assert_eq!(second.resolve(a), Err(RispError::Dangling));
    assert_eq!(first.cons(a, b), Err(RispError::Dangling));
    assert_eq!(first.set_value(b, 3.into()), Err(RispError::Dangling));
    assert_eq!(first.len(), 1);
}

#[test]
fn handle_past_the_end_dangles() {
    let mut small = Arena::new();
    let mut large = Arena::new();
    let _ = large.atom(1.into());
    let far = large.atom(2.into());
    let near = small.atom(3.into());
    assert_eq!(small.resolve(far), Err(RispError::Dangling));
    assert_eq!(small.set_first(near, far), Err(RispError::NotAPair));
    let p = small.cons(near, near).unwrap();
    let far = large.atom(4.into());
    let far = {
        let _ = far;
        large.atom(5.into())
    };
    assert_eq!(small.set_first(p, far), Err(RispError::Dangling));
    assert_eq!(small.set_second(p, far), Err(RispError::Dangling));
    assert_eq!(small.first_of(p), Ok(near));
}

#[test]
fn generations_run_out() {
    let mut arena = Arena::with_generation(u64::MAX - 1);
    let v = arena.atom(1.into());
    assert_eq!(arena.reset(), Ok(()));
    assert_eq!(arena.resolve(v), Err(RispError::Dangling));
    let w = arena.atom(2.into());
    assert_eq!(arena.reset(), Err(RispError::Exhausted));
    // nothing changed
    assert_eq!(arena.len(), 1);
    assert_eq!(arena.resolve(w), Ok(&RispExp::atom(2)));
}

#[test]
fn errors_of_the_wrong_kind() {
    let mut arena = Arena::new();
    let v = arena.atom(1.into());
    let p = arena.cons(v, v).unwrap();
    assert_eq!(arena.first_of(v), Err(RispError::NotAPair));
    assert_eq!(arena.second_of(v), Err(RispError::NotAPair));
    assert_eq!(arena.set_first(v, p), Err(RispError::NotAPair));
    assert_eq!(arena.set_second(v, p), Err(RispError::NotAPair));
    assert_eq!(arena.set_value(p, 2.into()), Err(RispError::NotAnAtom));
    // nothing was changed by the refused calls
    assert_eq!(text(&arena, p), "(1 . 1)");
}

#[test]
fn a_cycle_is_reported() {
    let mut arena = Arena::new();
    let nil = arena.atom("nil".into());
    let v = arena.atom(1.into());
    let p = arena.cons(v, nil).unwrap();
    let q = arena.cons(v, p).unwrap();
    assert_eq!(arena.set_second(p, q), Ok(()));

    assert_eq!(arena.render(p), Err(RispError::Cyclic));
    assert_eq!(arena.render(q), Err(RispError::Cyclic));
    assert_eq!(arena.iterate(p), Err(RispError::Cyclic));
    // what does not reach the cycle is rendered as before
    assert_eq!(text(&arena, v), "1");

    // a pair that is its own first slot
    assert_eq!(arena.set_second(p, nil), Ok(()));
    assert_eq!(arena.set_first(p, p), Ok(()));
    assert_eq!(arena.render(p), Err(RispError::Cyclic));
    assert_eq!(arena.iterate(p), Ok(vec![p]));
}

#[test]
fn deepest_chain_without_a_cycle_is_rendered() {
    // Every node but the last is a pair, so the nesting is as deep as it
    // can get in an arena of this size.
    let mut arena = Arena::new();
    let mut tail = arena.atom(0.into());
    let zero = tail;
    let mut expected = String::from("0");
    let mut heads = Vec::new();
    for _ in 0..50 {
        tail = arena.cons(zero, tail).unwrap();
        heads.push(zero);
        expected = format!("(0 . {})", expected);
    }
    assert_eq!(arena.len(), 51);
    assert_eq!(text(&arena, tail), expected);
    assert_eq!(arena.iterate(tail), Ok(heads));
}

#[test]
fn shared_halves_are_written_out_each_time() {
    let mut arena = Arena::new();
    let v = arena.atom(1.into());
    let p = arena.cons(v, v).unwrap();
    let q = arena.cons(p, p).unwrap();
    let r = arena.cons(q, q).unwrap();
    assert_eq!(text(&arena, r), "(((1 . 1) . (1 . 1)) . ((1 . 1) . (1 . 1)))");
}

#[test]
fn walk_stops_at_any_atom() {
    let mut arena = Arena::new();
    let one = arena.atom(1.into());
    let two = arena.atom(2.into());
    let three = arena.atom(3.into());
    // an improper list: (1 . (2 . 3))
    let inner = arena.cons(two, three).unwrap();
    let outer = arena.cons(one, inner).unwrap();
    assert_eq!(arena.iterate(outer), Ok(vec![one, two]));
    assert_eq!(arena.iterate(inner), Ok(vec![two]));
    // an atom is a list without items
    assert_eq!(arena.iterate(three), Ok(vec![]));
    // the walk changes nothing and can be made again
    assert_eq!(arena.iterate(outer), Ok(vec![one, two]));
    assert_eq!(text(&arena, outer), "(1 . (2 . 3))");
}

#[test]
fn walk_meets_a_dangling_tail() {
    let mut other = Arena::with_generation(9);
    let foreign = other.atom(0.into());
    let mut arena = Arena::new();
    let one = arena.atom(1.into());
    let p = arena.allocate(RispExp::cons(&one, &foreign));
    assert_eq!(arena.iterate(p), Err(RispError::Dangling));
    assert_eq!(arena.render(p), Err(RispError::Dangling));
    assert_eq!(arena.second_of(p), Ok(foreign));
    let node = arena.resolve(p).unwrap();
    assert_eq!(node.cdr(&arena), Err(RispError::Dangling));
    assert_eq!(node.car(&arena), Ok(&RispExp::atom(1)));
}

#[test]
fn lazy_walk_step_by_step() {
    let mut arena = Arena::new();
    let nil = arena.atom("nil".into());
    let c1 = arena.atom(1.into());
    let c2 = arena.atom(2.into());
    let c3 = arena.atom(3.into());
    let f1 = arena.cons(c1, nil).unwrap();
    let f2 = arena.cons(c2, f1).unwrap();
    let f3 = arena.cons(c3, f2).unwrap();

    let mut walk = arena.resolve(f3).unwrap().into_iter();
    assert_eq!(walk.next(&arena), Ok(Some(c3)));
    assert_eq!(walk.next(&arena), Ok(Some(c2)));
    assert_eq!(walk.next(&arena), Ok(Some(c1)));
    assert_eq!(walk.next(&arena), Ok(None));
    assert_eq!(walk.next(&arena), Ok(None));

    let mut walk = arena.resolve(f3).unwrap().iter();
    let mut seen = Vec::new();
    while let Some(h) = walk.next(&arena).unwrap() {
        seen.push(text(&arena, h));
    }
    assert_eq!(seen, vec!["3", "2", "1"]);

    // on an atom the walk is over before it starts
    let mut walk = arena.resolve(nil).unwrap().into_iter();
    assert_eq!(walk.next(&arena), Ok(None));
}

#[test]
fn walk_from_an_atom_is_empty() {
    let mut arena = Arena::new();
    let five = arena.atom(5.into());
    let nil = arena.atom("nil".into());

    let mut walk = arena.resolve(five).unwrap().iter();
    assert_eq!(walk.next(&arena), Ok(None));
    assert_eq!(walk.next(&arena), Ok(None));

    let mut walk = arena.resolve(nil).unwrap().iter();
    assert_eq!(walk.next(&arena), Ok(None));

    let mut walk = RispExp::atom(5).iter();
    assert_eq!(walk.next(&arena), Ok(None));

    // both ways of starting a walk start the same walk
    let p = arena.cons(five, nil).unwrap();
    let node = arena.resolve(p).unwrap();
    let mut by_iter = node.iter();
    let mut by_into_iter = node.into_iter();
    assert_eq!(by_iter.next(&arena), Ok(Some(five)));
    assert_eq!(by_into_iter.next(&arena), Ok(Some(five)));
    assert_eq!(by_iter.next(&arena), Ok(None));
    assert_eq!(by_into_iter.next(&arena), Ok(None));
}

#[test]
fn lazy_walk_sees_the_arena_as_it_is_at_each_step() {
    let mut arena = Arena::new();
    let nil = arena.atom("nil".into());
    let c1 = arena.atom(1.into());
    let c2 = arena.atom(2.into());
    let f1 = arena.cons(c1, nil).unwrap();
    let f2 = arena.cons(c2, f1).unwrap();

    let mut walk = arena.resolve(f2).unwrap().into_iter();
    // the rest of the list is cut off before the walk gets there
    arena.replace(f1, RispExp::atom("end")).unwrap();
    assert_eq!(walk.next(&arena), Ok(Some(c2)));
    assert_eq!(walk.next(&arena), Ok(None));

    // a tail that dangles stops the step, and the walk stays where it is
    let mut walk = arena.resolve(f2).unwrap().into_iter();
    arena.reset().unwrap();
    assert_eq!(walk.next(&arena), Err(RispError::Dangling));
    assert_eq!(walk.next(&arena), Err(RispError::Dangling));
}

#[test]
fn slots_of_a_node() {
    let mut arena = Arena::new();
    let x = arena.atom("x".into());
    let y = arena.atom("y".into());
    let pair = RispExp::cons(&x, &y);
    assert_eq!(pair.car_weak(), Ok(x));
    assert_eq!(pair.cdr_weak(), Ok(y));
    assert_eq!(pair.car_weak_ref(), Ok(&x));
    assert_eq!(pair.cdr_weak_ref(), Ok(&y));
    assert_eq!(pair.car_ref(), Ok(&x));
    assert_eq!(pair.cdr_ref(), Ok(&y));
    assert_eq!(pair.car(&arena), Ok(&RispExp::atom("x")));
    assert_eq!(pair.cdr(&arena), Ok(&RispExp::atom("y")));

    let leaf = RispExp::atom(1);
    assert_eq!(leaf.car_weak(), Err(RispError::NotAPair));
    assert_eq!(leaf.cdr_weak(), Err(RispError::NotAPair));
    assert_eq!(leaf.car_weak_ref(), Err(RispError::NotAPair));
    assert_eq!(leaf.cdr_weak_ref(), Err(RispError::NotAPair));
    assert_eq!(leaf.car_ref(), Err(RispError::NotAPair));
    assert_eq!(leaf.cdr_ref(), Err(RispError::NotAPair));
    assert_eq!(leaf.car(&arena), Err(RispError::NotAPair));
    assert_eq!(leaf.cdr(&arena), Err(RispError::NotAPair));
}

#[test]
fn nodes_from_values() {
    let mut arena = Arena::new();
    let nil = arena.allocate("nil".into());
    let c1 = arena.allocate(1.into());
    let c2 = arena.allocate(2.into());
    let e1 = arena.allocate((&c1, &c2).into());
    let e2 = arena.allocate((e1, nil).into());
    assert_eq!(text(&arena, e2), "((1 . 2) . nil)");
    assert_eq!(RispExp::from(RispAtom::Int(4)), RispExp::atom(4));
    assert_eq!(RispExp::from("s"), RispExp::Atom(RispAtom::Symbol("s".to_string())));
    assert_eq!(RispExp::atom(RispAtom::from(-1)), RispExp::Atom(RispAtom::Int(-1)));
    assert_ne!(RispExp::atom(1), RispExp::atom("1"));
    assert_ne!(RispExp::cons(&c1, &c2), RispExp::cons(&c2, &c1));
    assert_ne!(RispExp::cons(&c1, &c2), RispExp::atom(1));
    assert_eq!(RispExp::cons(&c1, &c2).clone(), RispExp::cons(&c1, &c2));
}

#[test]
fn handles_are_issued_in_order_and_compare_by_identity() {
    let mut arena = Arena::new();
    assert_eq!(arena.len(), 0);
    let a = arena.atom(1.into());
    let b = arena.atom(1.into());
    assert_eq!(arena.len(), 2);
    // equal contents, different nodes
    assert_ne!(a, b);
    assert_eq!(arena.resolve(a), arena.resolve(b));
    let copy = a;
    assert_eq!(copy, a);
    arena.set_value(a, 2.into()).unwrap();
    assert_eq!(arena.resolve(copy), Ok(&RispExp::atom(2)));
    assert_eq!(arena.resolve(b), Ok(&RispExp::atom(1)));
}

#[test]
fn messages_of_errors() {
    assert_eq!(RispError::NotAPair.message(), "not a pair");
    assert_eq!(RispError::NotAnAtom.message(), "not an atom");
    assert_eq!(RispError::Dangling.message(), "dangling handle");
    assert_eq!(RispError::Cyclic.message(), "cyclic structure");
    assert_eq!(RispError::Exhausted.message(), "generations exhausted");
}
