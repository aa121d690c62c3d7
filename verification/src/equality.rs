//! Equality of atoms and nodes: structural, by what they hold.

use vstd::prelude::*;
use vstd::std_specs::cmp::PartialEqSpecImpl;
use crate::atom::RispAtom;
use crate::exp::RispExp;

verus! {

impl PartialEq for RispAtom {
    /// Two atoms are equal when they are the same integer or the same
    /// symbol name.
    fn eq(&self, other: &RispAtom) -> (r: bool) {
        match (self, other) {
            (RispAtom::Int(x), RispAtom::Int(y)) => *x == *y,
            (RispAtom::Symbol(x), RispAtom::Symbol(y)) => *x == *y,
            _ => false,
        }
    }
}

impl PartialEqSpecImpl for RispAtom {
    open spec fn obeys_eq_spec() -> bool {
        true
    }

    open spec fn eq_spec(&self, other: &RispAtom) -> bool {
        self@ == other@
    }
}

impl Eq for RispAtom {

}

impl PartialEq for RispExp {
    /// Two nodes are equal when they are equal atoms, or pairs whose slots
    /// hold the same handles.
    fn eq(&self, other: &RispExp) -> (r: bool) {
        match (self, other) {
            (RispExp::Atom(x), RispExp::Atom(y)) => *x == *y,
            (RispExp::Cons { car: a, cdr: b }, RispExp::Cons { car: c, cdr: d }) => *a == *c && *b
                == *d,
            _ => false,
        }
    }
}

impl PartialEqSpecImpl for RispExp {
    open spec fn obeys_eq_spec() -> bool {
        true
    }

    open spec fn eq_spec(&self, other: &RispExp) -> bool {
        self@ == other@
    }
}

impl Eq for RispExp {

}

} // verus!
