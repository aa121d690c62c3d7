//! Conversions into atoms and nodes, so that a value can be written where a
//! node is wanted.

use vstd::prelude::*;
use vstd::std_specs::convert::FromSpecImpl;
use crate::arena::Handle;
use crate::atom::{AtomView, RispAtom};
use crate::exp::{NodeView, RispExp};

verus! {

impl From<i64> for RispAtom {
    fn from(i: i64) -> (a: RispAtom)
        ensures
            a@ == AtomView::Int(i as int),
    {
        RispAtom::Int(i)
    }
}

impl FromSpecImpl<i64> for RispAtom {
    open spec fn obeys_from_spec() -> bool {
        true
    }

    open spec fn from_spec(i: i64) -> RispAtom {
        RispAtom::Int(i)
    }
}

impl From<&str> for RispAtom {
    fn from(s: &str) -> (a: RispAtom)
        ensures
            a@ == AtomView::Symbol(s@),
    {
        RispAtom::Symbol(String::from_str(s))
    }
}

impl FromSpecImpl<&str> for RispAtom {
    /// A string is known by its text alone, so the atom is told by its view.
    open spec fn obeys_from_spec() -> bool {
        false
    }

    open spec fn from_spec(s: &str) -> RispAtom {
        arbitrary()
    }
}

impl From<RispAtom> for RispExp {
    fn from(a: RispAtom) -> (e: RispExp)
        ensures
            e@ == NodeView::Atom(a@),
    {
        RispExp::Atom(a)
    }
}

impl FromSpecImpl<RispAtom> for RispExp {
    open spec fn obeys_from_spec() -> bool {
        true
    }

    open spec fn from_spec(a: RispAtom) -> RispExp {
        RispExp::Atom(a)
    }
}

impl From<i64> for RispExp {
    fn from(i: i64) -> (e: RispExp)
        ensures
            e@ == NodeView::Atom(AtomView::Int(i as int)),
    {
        RispExp::Atom(RispAtom::Int(i))
    }
}

impl FromSpecImpl<i64> for RispExp {
    open spec fn obeys_from_spec() -> bool {
        true
    }

    open spec fn from_spec(i: i64) -> RispExp {
        RispExp::Atom(RispAtom::Int(i))
    }
}

impl From<&str> for RispExp {
    fn from(s: &str) -> (e: RispExp)
        ensures
            e@ == NodeView::Atom(AtomView::Symbol(s@)),
    {
        RispExp::Atom(RispAtom::Symbol(String::from_str(s)))
    }
}

impl FromSpecImpl<&str> for RispExp {
    /// A string is known by its text alone, so the node is told by its view.
    open spec fn obeys_from_spec() -> bool {
        false
    }

    open spec fn from_spec(s: &str) -> RispExp {
        arbitrary()
    }
}

impl From<(Handle, Handle)> for RispExp {
    fn from(slots: (Handle, Handle)) -> (e: RispExp)
        ensures
            e@ == (NodeView::Cons { car: slots.0, cdr: slots.1 }),
    {
        RispExp::Cons { car: slots.0, cdr: slots.1 }
    }
}

impl FromSpecImpl<(Handle, Handle)> for RispExp {
    open spec fn obeys_from_spec() -> bool {
        true
    }

    open spec fn from_spec(slots: (Handle, Handle)) -> RispExp {
        RispExp::Cons { car: slots.0, cdr: slots.1 }
    }
}

impl From<(&Handle, &Handle)> for RispExp {
    fn from(slots: (&Handle, &Handle)) -> (e: RispExp)
        ensures
            e@ == (NodeView::Cons { car: *slots.0, cdr: *slots.1 }),
    {
        RispExp::Cons { car: *slots.0, cdr: *slots.1 }
    }
}

impl FromSpecImpl<(&Handle, &Handle)> for RispExp {
    open spec fn obeys_from_spec() -> bool {
        true
    }

    open spec fn from_spec(slots: (&Handle, &Handle)) -> RispExp {
        RispExp::Cons { car: *slots.0, cdr: *slots.1 }
    }
}

} // verus!
