//! The expression graph: construction, access, mutation, traversal and
//! rendering of nodes, all through the arena that owns them.

use vstd::prelude::*;
use crate::arena::{Arena, Handle, RispError};
use crate::atom::{AtomView, RispAtom};
use crate::exp::{NodeView, RispExp};

verus! {

/// The text of a pair whose two halves are written as `first` and `second`.
pub open spec fn pair_text(first: Seq<char>, second: Seq<char>) -> Seq<char> {
    seq!['('] + first + seq![' ', '.', ' '] + second + seq![')']
}

/// The name of the atom that ends a list.
pub open spec fn nil_name() -> Seq<char> {
    seq!['n', 'i', 'l']
}

impl Arena {
    /// Whether every handle of `items` resolves.
    pub open spec fn all_live(&self, items: Seq<Handle>) -> bool {
        forall|i: int| 0 <= i < items.len() ==> self.live(#[trigger] items[i])
    }

    /// The nodes that building the list of `items` appends to this arena:
    /// the atom `nil`, then one pair for each item from the last to the
    /// first, each with the node before it in its second slot.
    pub open spec fn list_nodes(&self, items: Seq<Handle>) -> Seq<NodeView> {
        Seq::new(
            items.len() + 1,
            |k: int|
                if k == 0 {
                    NodeView::Atom(AtomView::Symbol(nil_name()))
                } else {
                    NodeView::Cons {
                        car: items[items.len() - k],
                        cdr: self.handle_at((self@.len() + k - 1) as nat),
                    }
                },
        )
    }

    /// The handle in the first slot of the pair at `h`.
    pub open spec fn first(&self, h: Handle) -> Result<Handle, RispError> {
        if self.live(h) {
            self@[h.slot()].car()
        } else {
            Err(RispError::Dangling)
        }
    }

    /// The handle in the second slot of the pair at `h`.
    pub open spec fn second(&self, h: Handle) -> Result<Handle, RispError> {
        if self.live(h) {
            self@[h.slot()].cdr()
        } else {
            Err(RispError::Dangling)
        }
    }

    /// Allocates an atom that holds `value`.
    pub fn atom(&mut self, value: RispAtom) -> (h: Handle)
        ensures
            final(self)@ == old(self)@.push(NodeView::Atom(value@)),
            final(self).epoch() == old(self).epoch(),
            h.slot() == old(self)@.len(),
            h.epoch() == old(self).epoch(),
    {
        self.allocate(RispExp::Atom(value))
    }

    /// Allocates a pair of the two given handles. Both must resolve in
    /// this arena; what they refer to is shared, not copied.
    pub fn cons(&mut self, first: Handle, second: Handle) -> (r: Result<Handle, RispError>)
        ensures
            final(self).epoch() == old(self).epoch(),
            old(self).live(first) && old(self).live(second) ==> r is Ok
                && r.unwrap().slot() == old(self)@.len()
                && r.unwrap().epoch() == old(self).epoch()
                && final(self)@ == old(self)@.push(NodeView::Cons { car: first, cdr: second }),
            !(old(self).live(first) && old(self).live(second)) ==> r == Err::<Handle, RispError>(
                RispError::Dangling,
            ) && final(self)@ == old(self)@,
    {
        if self.resolve(first).is_err() || self.resolve(second).is_err() {
            return Err(RispError::Dangling);
        }
        Ok(self.allocate(RispExp::Cons { car: first, cdr: second }))
    }

    /// Builds the list of `items`: a chain of pairs, nested to the right,
    /// that holds the items in order and ends in a fresh atom `nil`. With
    /// no items the list is that atom alone.
    ///
    /// Every item must resolve in this arena; if one does not, nothing is
    /// allocated.
    pub fn build(&mut self, items: &Vec<Handle>) -> (r: Result<Handle, RispError>)
        ensures
            final(self).epoch() == old(self).epoch(),
            old(self).all_live(items@) ==> r == Ok::<Handle, RispError>(
                old(self).handle_at(old(self)@.len() + items@.len()),
            ) && final(self)@ == old(self)@ + old(self).list_nodes(items@),
            !old(self).all_live(items@) ==> r == Err::<Handle, RispError>(RispError::Dangling)
                && final(self)@ == old(self)@,
    {
        let n = items.len();
        let mut i: usize = 0;
        while i < n
            invariant
                n == items@.len(),
                i <= n,
                *self == *old(self),
                forall|j: int| 0 <= j < i ==> self.live(#[trigger] items@[j]),
            decreases n - i,
        {
            if self.resolve(items[i]).is_err() {
                return Err(RispError::Dangling);
            }
            i = i + 1;
        }
        let ghost nodes = old(self).list_nodes(items@);
        proof {
            reveal_strlit("nil");
            assert("nil"@ =~= nil_name());
        }
        let mut tail = self.atom(RispAtom::Symbol(String::from_str("nil")));
        proof {
            tail.lemma_identity(tail);
            old(self).lemma_handle_at(tail.slot() as nat);
            assert(self@ =~= old(self)@ + nodes.take(1));
        }
        let mut k: usize = 0;
        while k < n
            invariant
                n == items@.len(),
                k <= n,
                nodes == old(self).list_nodes(items@),
                self.epoch() == old(self).epoch(),
                self@ == old(self)@ + nodes.take(k + 1),
                old(self)@.len() + k <= usize::MAX,
                tail == old(self).handle_at(old(self)@.len() + k as nat),
            decreases n - k,
        {
            let item = items[n - 1 - k];
            tail = self.allocate(RispExp::Cons { car: item, cdr: tail });
            k = k + 1;
            proof {
                tail.lemma_identity(tail);
                old(self).lemma_handle_at(tail.slot() as nat);
                assert(nodes.take(k + 1) =~= nodes.take(k as int).push(nodes[k as int]));
                assert(self@ =~= old(self)@ + nodes.take(k + 1));
            }
        }
        assert(nodes.take(n + 1) =~= nodes);
        Ok(tail)
    }

    /// The handle in the first slot of the pair at `h`.
    pub fn first_of(&self, h: Handle) -> (r: Result<Handle, RispError>)
        ensures
            r == self.first(h),
    {
        match self.resolve(h) {
            Err(e) => Err(e),
            Ok(node) => node.car_weak(),
        }
    }

    /// The handle in the second slot of the pair at `h`.
    pub fn second_of(&self, h: Handle) -> (r: Result<Handle, RispError>)
        ensures
            r == self.second(h),
    {
        match self.resolve(h) {
            Err(e) => Err(e),
            Ok(node) => node.cdr_weak(),
        }
    }

    /// Puts `exp` in place of the node at `h` and hands the old node back.
    /// The handle keeps its identity whatever kind of node it held before
    /// and holds now.
    pub fn replace(&mut self, h: Handle, exp: RispExp) -> (r: Result<RispExp, RispError>)
        ensures
            final(self).epoch() == old(self).epoch(),
            old(self).live(h) ==> r is Ok && r.unwrap()@ == old(self)@[h.slot()]
                && final(self)@ == old(self)@.update(h.slot(), exp@),
            !old(self).live(h) ==> r is Err && r.unwrap_err() == RispError::Dangling
                && final(self)@ == old(self)@,
    {
        match self.resolve_mut(h) {
            Err(e) => Err(e),
            Ok(node) => {
                let mut previous = exp;
                core::mem::swap(node, &mut previous);
                Ok(previous)
            },
        }
    }

    /// What `set_first` answers, and the node it leaves at `h` where it
    /// succeeds.
    pub open spec fn with_first(&self, h: Handle, new_first: Handle) -> Result<NodeView, RispError> {
        if !self.live(h) {
            Err(RispError::Dangling)
        } else {
            match self@[h.slot()] {
                NodeView::Atom(_) => Err(RispError::NotAPair),
                NodeView::Cons { car, cdr } => if self.live(new_first) {
                    Ok(NodeView::Cons { car: new_first, cdr })
                } else {
                    Err(RispError::Dangling)
                },
            }
        }
    }

    /// What `set_second` answers, and the node it leaves at `h` where it
    /// succeeds.
    pub open spec fn with_second(&self, h: Handle, new_second: Handle) -> Result<
        NodeView,
        RispError,
    > {
        if !self.live(h) {
            Err(RispError::Dangling)
        } else {
            match self@[h.slot()] {
                NodeView::Atom(_) => Err(RispError::NotAPair),
                NodeView::Cons { car, cdr } => if self.live(new_second) {
                    Ok(NodeView::Cons { car, cdr: new_second })
                } else {
                    Err(RispError::Dangling)
                },
            }
        }
    }

    /// What `set_value` answers, and the node it leaves at `h` where it
    /// succeeds.
    pub open spec fn with_value(&self, h: Handle, value: AtomView) -> Result<NodeView, RispError> {
        if !self.live(h) {
            Err(RispError::Dangling)
        } else {
            match self@[h.slot()] {
                NodeView::Atom(_) => Ok(NodeView::Atom(value)),
                NodeView::Cons { car, cdr } => Err(RispError::NotAnAtom),
            }
        }
    }

    /// Redirects the first slot of the pair at `h` to `new_first`, in
    /// place: every handle of that pair sees the new slot. Nothing changes
    /// where the call fails.
    pub fn set_first(&mut self, h: Handle, new_first: Handle) -> (r: Result<(), RispError>)
        ensures
            final(self).epoch() == old(self).epoch(),
            match old(self).with_first(h, new_first) {
                Ok(node) => r == Ok::<(), RispError>(()) && final(self)@ == old(self)@.update(
                    h.slot(),
                    node,
                ),
                Err(e) => r == Err::<(), RispError>(e) && final(self)@ == old(self)@,
            },
    {
        let known = self.resolve(new_first).is_ok();
        match self.resolve_mut(h) {
            Err(e) => Err(e),
            Ok(node) => match node {
                RispExp::Atom(_) => Err(RispError::NotAPair),
                RispExp::Cons { car, .. } => {
                    if known {
                        *car = new_first;
                        Ok(())
                    } else {
                        Err(RispError::Dangling)
                    }
                },
            },
        }
    }

    /// Redirects the second slot of the pair at `h` to `new_second`, in
    /// place: every handle of that pair sees the new slot. Nothing changes
    /// where the call fails.
    pub fn set_second(&mut self, h: Handle, new_second: Handle) -> (r: Result<(), RispError>)
        ensures
            final(self).epoch() == old(self).epoch(),
            match old(self).with_second(h, new_second) {
                Ok(node) => r == Ok::<(), RispError>(()) && final(self)@ == old(self)@.update(
                    h.slot(),
                    node,
                ),
                Err(e) => r == Err::<(), RispError>(e) && final(self)@ == old(self)@,
            },
    {
        let known = self.resolve(new_second).is_ok();
        match self.resolve_mut(h) {
            Err(e) => Err(e),
            Ok(node) => match node {
                RispExp::Atom(_) => Err(RispError::NotAPair),
                RispExp::Cons { cdr, .. } => {
                    if known {
                        *cdr = new_second;
                        Ok(())
                    } else {
                        Err(RispError::Dangling)
                    }
                },
            },
        }
    }

    /// Overwrites the value of the atom at `h`, in place: every handle of
    /// that atom, and every pair that shares it, sees the new value.
    /// Nothing changes where the call fails.
    pub fn set_value(&mut self, h: Handle, value: RispAtom) -> (r: Result<(), RispError>)
        ensures
            final(self).epoch() == old(self).epoch(),
            match old(self).with_value(h, value@) {
                Ok(node) => r == Ok::<(), RispError>(()) && final(self)@ == old(self)@.update(
                    h.slot(),
                    node,
                ),
                Err(e) => r == Err::<(), RispError>(e) && final(self)@ == old(self)@,
            },
    {
        match self.resolve_mut(h) {
            Err(e) => Err(e),
            Ok(node) => match node {
                RispExp::Atom(a) => {
                    *a = value;
                    Ok(())
                },
                RispExp::Cons { .. } => Err(RispError::NotAnAtom),
            },
        }
    }

    /// The first slots of the pairs on the chain that starts at `h`, in
    /// order, as far as the chain can be followed in at most `steps` steps
    /// from pair to pair. The chain ends at the first atom, whichever atom
    /// it is.
    pub open spec fn items_within(&self, h: Handle, steps: nat) -> Result<Seq<Handle>, RispError>
        decreases steps,
    {
        if !self.live(h) {
            Err(RispError::Dangling)
        } else {
            match self@[h.slot()] {
                NodeView::Atom(_) => Ok(Seq::empty()),
                NodeView::Cons { car, cdr } => {
                    if steps == 0 {
                        Err(RispError::Cyclic)
                    } else {
                        match self.items_within(cdr, (steps - 1) as nat) {
                            Err(e) => Err(e),
                            Ok(rest) => Ok(seq![car] + rest),
                        }
                    }
                },
            }
        }
    }

    /// The items of the list at `h`. A chain without a cycle never has
    /// more pairs than the arena has nodes.
    pub open spec fn items(&self, h: Handle) -> Result<Seq<Handle>, RispError> {
        self.items_within(h, self@.len())
    }

    /// Walks the list at `h` and collects the first slot of each pair on
    /// the way, until the chain ends in an atom. Each call is a fresh
    /// walk, and the arena is left as it was.
    ///
    /// A walk that has passed as many pairs as the arena has nodes is on a
    /// cycle, and is given up.
    pub fn iterate(&self, h: Handle) -> (r: Result<Vec<Handle>, RispError>)
        ensures
            match r {
                Ok(v) => self.items(h) == Ok::<Seq<Handle>, RispError>(v@),
                Err(e) => self.items(h) == Err::<Seq<Handle>, RispError>(e),
            },
    {
        let mut out: Vec<Handle> = Vec::new();
        let mut cur = h;
        let mut left: usize = self.len();
        loop
            invariant
                left <= self@.len(),
                match self.items_within(cur, left as nat) {
                    Ok(rest) => self.items(h) == Ok::<Seq<Handle>, RispError>(out@ + rest),
                    Err(e) => self.items(h) == Err::<Seq<Handle>, RispError>(e),
                },
            decreases left,
        {
            match self.resolve(cur) {
                Err(e) => {
                    return Err(e);
                },
                Ok(RispExp::Atom(_)) => {
                    assert(out@ + Seq::<Handle>::empty() =~= out@);
                    return Ok(out);
                },
                Ok(RispExp::Cons { car, cdr }) => {
                    if left == 0 {
                        return Err(RispError::Cyclic);
                    }
                    proof {
                        let rest = self.items_within(*cdr, (left - 1) as nat);
                        if let Ok(tail) = rest {
                            assert(out@ + (seq![*car] + tail) =~= out@.push(*car) + tail);
                        }
                    }
                    out.push(*car);
                    cur = *cdr;
                    left = left - 1;
                },
            }
        }
    }

    /// The text of the expression at `h`, read off what the arena holds
    /// now, as far as it can be told by going at most `depth` pairs deep.
    ///
    /// The first half of a pair is read before the second, and the first
    /// failure met on the way is the result.
    pub open spec fn text_within(&self, h: Handle, depth: nat) -> Result<Seq<char>, RispError>
        decreases depth,
    {
        if !self.live(h) {
            Err(RispError::Dangling)
        } else {
            match self@[h.slot()] {
                NodeView::Atom(a) => Ok(a.text()),
                NodeView::Cons { car, cdr } => {
                    if depth == 0 {
                        Err(RispError::Cyclic)
                    } else {
                        match self.text_within(car, (depth - 1) as nat) {
                            Err(e) => Err(e),
                            Ok(first) => match self.text_within(cdr, (depth - 1) as nat) {
                                Err(e) => Err(e),
                                Ok(second) => Ok(pair_text(first, second)),
                            },
                        }
                    }
                },
            }
        }
    }

    /// The text of the expression at `h`. An expression without a cycle
    /// is never nested deeper than the arena has nodes.
    pub open spec fn text(&self, h: Handle) -> Result<Seq<char>, RispError> {
        self.text_within(h, self@.len())
    }

    /// Renders the expression at `h`, going at most `depth` pairs deep.
    /// One node is resolved at a time, and only its two handles are kept
    /// while its halves are rendered.
    fn render_within(&self, h: Handle, depth: usize) -> (r: Result<String, RispError>)
        ensures
            match r {
                Ok(s) => self.text_within(h, depth as nat) == Ok::<Seq<char>, RispError>(s@),
                Err(e) => self.text_within(h, depth as nat) == Err::<Seq<char>, RispError>(e),
            },
        decreases depth,
    {
        let (car, cdr) = match self.resolve(h) {
            Err(e) => {
                return Err(e);
            },
            Ok(RispExp::Atom(a)) => {
                return Ok(a.to_string());
            },
            Ok(RispExp::Cons { car, cdr }) => (*car, *cdr),
        };
        if depth == 0 {
            return Err(RispError::Cyclic);
        }
        let first = match self.render_within(car, depth - 1) {
            Err(e) => {
                return Err(e);
            },
            Ok(s) => s,
        };
        let second = match self.render_within(cdr, depth - 1) {
            Err(e) => {
                return Err(e);
            },
            Ok(s) => s,
        };
        proof {
            reveal_strlit("(");
            reveal_strlit(" . ");
            reveal_strlit(")");
        }
        let mut s = String::from_str("(");
        s.append(first.as_str());
        s.append(" . ");
        s.append(second.as_str());
        s.append(")");
        assert(s@ =~= pair_text(first@, second@));
        Ok(s)
    }

    /// The canonical text of the expression at `h`: an atom as its integer
    /// or symbol, a pair as `(first . second)`. It reflects what the arena
    /// holds at the time of the call.
    pub fn render(&self, h: Handle) -> (r: Result<String, RispError>)
        ensures
            match r {
                Ok(s) => self.text(h) == Ok::<Seq<char>, RispError>(s@),
                Err(e) => self.text(h) == Err::<Seq<char>, RispError>(e),
            },
    {
        self.render_within(h, self.len())
    }
}

} // verus!
