//! Nodes: atoms and cons cells, and the step-by-step walk along a list.

use vstd::prelude::*;
use crate::arena::{Arena, Handle, RispError};
use crate::atom::{AtomView, RispAtom};

verus! {

/// The mathematical value of a node.
pub enum NodeView {
    Atom(AtomView),
    Cons { car: Handle, cdr: Handle },
}

/// A node: an atom, or a cons cell whose two slots hold handles.
///
/// A cell never owns what its slots refer to, so several cells may share one
/// node and a slot may be redirected without copying anything.
#[derive(Debug)]
pub enum RispExp {
    Atom(RispAtom),
    Cons { car: Handle, cdr: Handle },
}

impl View for RispExp {
    type V = NodeView;

    open spec fn view(&self) -> NodeView {
        match self {
            RispExp::Atom(a) => NodeView::Atom(a@),
            RispExp::Cons { car, cdr } => NodeView::Cons { car: *car, cdr: *cdr },
        }
    }
}

impl NodeView {
    /// The first slot of a cons cell; an atom has none.
    pub open spec fn car(self) -> Result<Handle, RispError> {
        match self {
            NodeView::Atom(_) => Err(RispError::NotAPair),
            NodeView::Cons { car, cdr } => Ok(car),
        }
    }

    /// The second slot of a cons cell; an atom has none.
    pub open spec fn cdr(self) -> Result<Handle, RispError> {
        match self {
            NodeView::Atom(_) => Err(RispError::NotAPair),
            NodeView::Cons { car, cdr } => Ok(cdr),
        }
    }
}

impl NodeView {
    /// The node that the first slot refers to in `arena`.
    pub open spec fn car_in(self, arena: &Arena) -> Result<NodeView, RispError> {
        match self.car() {
            Err(e) => Err(e),
            Ok(h) => arena.node(h),
        }
    }

    /// The node that the second slot refers to in `arena`.
    pub open spec fn cdr_in(self, arena: &Arena) -> Result<NodeView, RispError> {
        match self.cdr() {
            Err(e) => Err(e),
            Ok(h) => arena.node(h),
        }
    }
}

impl RispExp {
    /// An atom node that holds what `a` converts into.
    pub fn atom<T: Into<RispAtom>>(a: T) -> (e: RispExp)
        ensures
            e is Atom,
            call_ensures(T::into, (a,), e->Atom_0),
    {
        RispExp::Atom(a.into())
    }

    /// A cons cell whose slots hold the two given handles.
    pub fn cons(car: &Handle, cdr: &Handle) -> (e: RispExp)
        ensures
            e@ == (NodeView::Cons { car: *car, cdr: *cdr }),
    {
        RispExp::Cons { car: *car, cdr: *cdr }
    }

    /// The handle in the first slot.
    pub fn car_weak(&self) -> (r: Result<Handle, RispError>)
        ensures
            r == self@.car(),
    {
        match self {
            RispExp::Atom(_) => Err(RispError::NotAPair),
            RispExp::Cons { car, .. } => Ok(*car),
        }
    }

    /// The handle in the first slot, borrowed from the cell.
    pub fn car_weak_ref(&self) -> (r: Result<&Handle, RispError>)
        ensures
            match r {
                Ok(h) => self@.car() == Ok::<Handle, RispError>(*h),
                Err(e) => self@.car() == Err::<Handle, RispError>(e),
            },
    {
        match self {
            RispExp::Atom(_) => Err(RispError::NotAPair),
            RispExp::Cons { car, .. } => Ok(car),
        }
    }

    /// The first slot as the cell holds it.
    pub fn car_ref(&self) -> (r: Result<&Handle, RispError>)
        ensures
            match r {
                Ok(h) => self@.car() == Ok::<Handle, RispError>(*h),
                Err(e) => self@.car() == Err::<Handle, RispError>(e),
            },
    {
        match self {
            RispExp::Atom(_) => Err(RispError::NotAPair),
            RispExp::Cons { car, .. } => Ok(car),
        }
    }

    /// The second slot as the cell holds it.
    pub fn cdr_ref(&self) -> (r: Result<&Handle, RispError>)
        ensures
            match r {
                Ok(h) => self@.cdr() == Ok::<Handle, RispError>(*h),
                Err(e) => self@.cdr() == Err::<Handle, RispError>(e),
            },
    {
        match self {
            RispExp::Atom(_) => Err(RispError::NotAPair),
            RispExp::Cons { cdr, .. } => Ok(cdr),
        }
    }

    /// The handle in the second slot.
    pub fn cdr_weak(&self) -> (r: Result<Handle, RispError>)
        ensures
            r == self@.cdr(),
    {
        match self {
            RispExp::Atom(_) => Err(RispError::NotAPair),
            RispExp::Cons { cdr, .. } => Ok(*cdr),
        }
    }

    /// The handle in the second slot, borrowed from the cell.
    pub fn cdr_weak_ref(&self) -> (r: Result<&Handle, RispError>)
        ensures
            match r {
                Ok(h) => self@.cdr() == Ok::<Handle, RispError>(*h),
                Err(e) => self@.cdr() == Err::<Handle, RispError>(e),
            },
    {
        match self {
            RispExp::Atom(_) => Err(RispError::NotAPair),
            RispExp::Cons { cdr, .. } => Ok(cdr),
        }
    }
}

/// The two slots of a node, as a walk along a list sees them: those of a
/// cons cell, or none where the node is an atom.
pub open spec fn slots(node: NodeView) -> (Option<Handle>, Option<Handle>) {
    match node {
        NodeView::Atom(_) => (None, None),
        NodeView::Cons { car, cdr } => (Some(car), Some(cdr)),
    }
}

/// A walk along a right-nested chain of pairs that hands out the first slot
/// of each pair in turn.
///
/// The walk holds two handles and no borrow of the arena, so each step is
/// told which arena to read and sees what that arena holds at that time.
pub struct RispExpIter {
    car: Option<Handle>,
    cdr: Option<Handle>,
}

impl View for RispExpIter {
    type V = (Option<Handle>, Option<Handle>);

    closed spec fn view(&self) -> (Option<Handle>, Option<Handle>) {
        (self.car, self.cdr)
    }
}

impl RispExpIter {
    /// What the next step answers when the walk stands at `state`, and
    /// where the walk stands after it.
    ///
    /// The handle held for the first slot is handed out, and the walk moves
    /// on to the node in the second slot: to its two slots if that node is a
    /// pair, to the end if it is an atom. A second slot that does not
    /// resolve stops the step before anything is handed out.
    pub open spec fn step(state: (Option<Handle>, Option<Handle>), arena: &Arena) -> (
        Result<Option<Handle>, RispError>,
        (Option<Handle>, Option<Handle>),
    ) {
        match state.0 {
            None => (Ok(None), state),
            Some(item) => match state.1 {
                None => (Ok(Some(item)), (None, None)),
                Some(rest) => if arena.live(rest) {
                    (Ok(Some(item)), slots(arena@[rest.slot()]))
                } else {
                    (Err(RispError::Dangling), state)
                },
            },
        }
    }

    /// What a walk that stands at `state` has still to hand out in `arena`:
    /// the handle it holds for the first slot, then the items of the list in
    /// the second slot.
    pub open spec fn rest(state: (Option<Handle>, Option<Handle>), arena: &Arena) -> Result<
        Seq<Handle>,
        RispError,
    > {
        match state.0 {
            None => Ok(Seq::empty()),
            Some(item) => match state.1 {
                None => Ok(seq![item]),
                Some(tail) => match arena.items(tail) {
                    Ok(items) => Ok(seq![item] + items),
                    Err(e) => Err(e),
                },
            },
        }
    }

    /// Takes one step of the walk in `arena`.
    pub fn next(&mut self, arena: &Arena) -> (r: Result<Option<Handle>, RispError>)
        ensures
            r == Self::step(old(self)@, arena).0,
            final(self)@ == Self::step(old(self)@, arena).1,
    {
        let item = match self.car {
            None => {
                return Ok(None);
            },
            Some(item) => item,
        };
        if let Some(rest) = self.cdr {
            match arena.resolve(rest) {
                Err(e) => {
                    return Err(e);
                },
                Ok(node) => {
                    let next = node.into_iter();
                    self.car = next.car;
                    self.cdr = next.cdr;
                },
            }
        } else {
            self.car = None;
        }
        Ok(Some(item))
    }
}

impl RispExp {
    /// A walk along the list that starts with this node. On an atom, the
    /// empty list among them, the walk is at its end before the first
    /// step.
    pub fn iter(&self) -> (it: RispExpIter)
        ensures
            it@ == slots(self@),
    {
        self.into_iter()
    }

    /// A walk along the list that starts with this node. On an atom the
    /// walk is at its end before the first step.
    pub fn into_iter(&self) -> (it: RispExpIter)
        ensures
            it@ == slots(self@),
    {
        match self {
            RispExp::Atom(_) => RispExpIter { car: None, cdr: None },
            RispExp::Cons { car, cdr } => RispExpIter { car: Some(*car), cdr: Some(*cdr) },
        }
    }

    /// The node that the first slot refers to in `arena`.
    pub fn car<'a>(&self, arena: &'a Arena) -> (r: Result<&'a RispExp, RispError>)
        ensures
            match r {
                Ok(node) => self@.car_in(arena) == Ok::<NodeView, RispError>(node@),
                Err(e) => self@.car_in(arena) == Err::<NodeView, RispError>(e),
            },
    {
        match self {
            RispExp::Atom(_) => Err(RispError::NotAPair),
            RispExp::Cons { car, .. } => arena.resolve(*car),
        }
    }

    /// The node that the second slot refers to in `arena`.
    pub fn cdr<'a>(&self, arena: &'a Arena) -> (r: Result<&'a RispExp, RispError>)
        ensures
            match r {
                Ok(node) => self@.cdr_in(arena) == Ok::<NodeView, RispError>(node@),
                Err(e) => self@.cdr_in(arena) == Err::<NodeView, RispError>(e),
            },
    {
        match self {
            RispExp::Atom(_) => Err(RispError::NotAPair),
            RispExp::Cons { cdr, .. } => arena.resolve(*cdr),
        }
    }
}

impl Clone for RispExp {
    fn clone(&self) -> (e: RispExp)
        ensures
            e@ == self@,
    {
        match self {
            RispExp::Atom(a) => RispExp::Atom(a.clone()),
            RispExp::Cons { car, cdr } => RispExp::Cons { car: *car, cdr: *cdr },
        }
    }
}

} // verus!
