//! Why the bound on depth costs nothing: an expression that can be written
//! out at all is never nested as deep as the arena has nodes, so rendering
//! within that bound tells its whole text.

use vstd::prelude::*;
use vstd::set_lib::{lemma_int_range, lemma_len_subset, set_int_range};
use crate::arena::{Arena, Handle, RispError};
use crate::exp::NodeView;
use crate::graph::pair_text;

verus! {

/// The larger of two numbers.
pub open spec fn larger(x: nat, y: nat) -> nat {
    if x >= y {
        x
    } else {
        y
    }
}

/// Distinct positions below `n` are at most `n` in number.
pub proof fn lemma_distinct_below(positions: Seq<int>, n: nat)
    requires
        positions.no_duplicates(),
        forall|i: int| 0 <= i < positions.len() ==> 0 <= #[trigger] positions[i] < n,
    ensures
        positions.len() <= n,
{
    positions.unique_seq_to_set();
    lemma_int_range(0, n as int);
    assert(positions.to_set().subset_of(set_int_range(0, n as int)));
    lemma_len_subset(positions.to_set(), set_int_range(0, n as int));
}

impl Arena {
    /// How many pairs deep the expression at `h` is nested, if that can be
    /// told by going at most `depth` pairs deep and every handle on the way
    /// resolves.
    pub open spec fn height_within(&self, h: Handle, depth: nat) -> Option<nat>
        decreases depth,
    {
        if !self.live(h) {
            None
        } else {
            match self@[h.slot()] {
                NodeView::Atom(_) => Some(0),
                NodeView::Cons { car, cdr } => {
                    if depth == 0 {
                        None
                    } else {
                        match (
                            self.height_within(car, (depth - 1) as nat),
                            self.height_within(cdr, (depth - 1) as nat),
                        ) {
                            (Some(x), Some(y)) => Some(1 + larger(x, y)),
                            _ => None,
                        }
                    }
                },
            }
        }
    }

    /// An expression has a text within a depth exactly when it has a height
    /// within that depth.
    pub proof fn lemma_text_has_height(&self, h: Handle, depth: nat)
        ensures
            self.text_within(h, depth) is Ok <==> self.height_within(h, depth) is Some,
        decreases depth,
    {
        if self.live(h) && depth > 0 {
            if let NodeView::Cons { car, cdr } = self@[h.slot()] {
                self.lemma_text_has_height(car, (depth - 1) as nat);
                self.lemma_text_has_height(cdr, (depth - 1) as nat);
            }
        }
    }

    /// The height of an expression does not depend on the depth within
    /// which it was found: it is at most that depth, and it is found again
    /// within any depth that is not below it.
    pub proof fn lemma_height_exact(&self, h: Handle, depth: nat, other: nat)
        requires
            self.height_within(h, depth) is Some,
            other >= self.height_within(h, depth).unwrap(),
        ensures
            self.height_within(h, depth).unwrap() <= depth,
            self.height_within(h, other) == self.height_within(h, depth),
        decreases depth,
    {
        if let NodeView::Cons { car, cdr } = self@[h.slot()] {
            self.lemma_height_exact(car, (depth - 1) as nat, (other - 1) as nat);
            self.lemma_height_exact(cdr, (depth - 1) as nat, (other - 1) as nat);
        }
    }

    /// Going deeper does not change a text that was already told.
    pub proof fn lemma_text_deeper(&self, h: Handle, depth: nat, deeper: nat)
        requires
            self.text_within(h, depth) is Ok,
            depth <= deeper,
        ensures
            self.text_within(h, deeper) == self.text_within(h, depth),
        decreases depth,
    {
        if let NodeView::Cons { car, cdr } = self@[h.slot()] {
            self.lemma_text_deeper(car, (depth - 1) as nat, (deeper - 1) as nat);
            self.lemma_text_deeper(cdr, (depth - 1) as nat, (deeper - 1) as nat);
        }
    }

    /// Under an expression of height `k` lies, for each height up to `k`,
    /// a node of exactly that height.
    proof fn lemma_one_of_each_height(&self, h: Handle, depth: nat) -> (under: Seq<Handle>)
        requires
            self.height_within(h, depth) is Some,
        ensures
            under.len() == self.height_within(h, depth).unwrap() + 1,
            forall|j: int|
                0 <= j < under.len() ==> self.live(#[trigger] under[j]) && self.height_within(
                    under[j],
                    j as nat,
                ) == Some(j as nat),
        decreases depth,
    {
        let k = self.height_within(h, depth).unwrap();
        self.lemma_height_exact(h, depth, k);
        match self@[h.slot()] {
            NodeView::Atom(_) => seq![h],
            NodeView::Cons { car, cdr } => {
                let below = (depth - 1) as nat;
                let x = self.height_within(car, below).unwrap();
                let child = if x + 1 == k {
                    car
                } else {
                    cdr
                };
                let lower = self.lemma_one_of_each_height(child, below);
                lower.push(h)
            },
        }
    }

    /// An expression that has a height is nested less deep than the arena
    /// has nodes: the nodes of different height under it are different
    /// nodes.
    pub proof fn lemma_height_below_len(&self, h: Handle, depth: nat)
        requires
            self.height_within(h, depth) is Some,
        ensures
            self.height_within(h, depth).unwrap() < self@.len(),
    {
        let under = self.lemma_one_of_each_height(h, depth);
        let positions = Seq::new(under.len(), |j: int| under[j].slot());
        assert forall|i: int, j: int|
            0 <= i < positions.len() && 0 <= j < positions.len() && i != j implies positions[i]
            != positions[j] by {
            if positions[i] == positions[j] {
                under[i].lemma_identity(under[j]);
                if i < j {
                    self.lemma_height_exact(under[i], i as nat, j as nat);
                } else {
                    self.lemma_height_exact(under[j], j as nat, i as nat);
                }
            }
        }
        assert forall|i: int| 0 <= i < positions.len() implies 0 <= #[trigger] positions[i]
            < self@.len() by {
            assert(self.live(under[i]));
        }
        lemma_distinct_below(positions, self@.len());
    }

    /// The bound on depth cuts nothing off: a text that can be told within
    /// any depth at all is the text of the expression.
    pub proof fn lemma_text_complete(&self, h: Handle, depth: nat)
        requires
            self.text_within(h, depth) is Ok,
        ensures
            self.text(h) == self.text_within(h, depth),
    {
        self.lemma_text_has_height(h, depth);
        let k = self.height_within(h, depth).unwrap();
        self.lemma_height_exact(h, depth, k);
        self.lemma_height_below_len(h, depth);
        self.lemma_text_has_height(h, k);
        self.lemma_text_deeper(h, k, depth);
        self.lemma_text_deeper(h, k, self@.len());
    }

    /// An expression that has no text has none at any depth: the refusal
    /// is not a matter of the bound.
    pub proof fn lemma_text_refused(&self, h: Handle, depth: nat)
        requires
            self.text(h) is Err,
        ensures
            self.text_within(h, depth) is Err,
    {
        if self.text_within(h, depth) is Ok {
            self.lemma_text_complete(h, depth);
        }
    }

    /// The text of an expression, told node by node: a handle that does
    /// not resolve has none, an atom has its own, and a pair has one
    /// exactly when both its halves have, made of theirs.
    pub proof fn lemma_text_unfold(&self, h: Handle)
        ensures
            !self.live(h) ==> self.text(h) == Err::<Seq<char>, RispError>(RispError::Dangling),
            self.live(h) ==> match self@[h.slot()] {
                NodeView::Atom(a) => self.text(h) == Ok::<Seq<char>, RispError>(a.text()),
                NodeView::Cons { car, cdr } => {
                    &&& self.text(h) is Ok <==> self.text(car) is Ok && self.text(cdr) is Ok
                    &&& self.text(h) is Ok ==> self.text(h) == Ok::<Seq<char>, RispError>(
                        pair_text(self.text(car).unwrap(), self.text(cdr).unwrap()),
                    )
                },
            },
    {
        if self.live(h) {
            if let NodeView::Cons { car, cdr } = self@[h.slot()] {
                let n = self@.len();
                if self.text(h) is Ok {
                    self.lemma_text_deeper(car, (n - 1) as nat, n);
                    self.lemma_text_deeper(cdr, (n - 1) as nat, n);
                }
                if self.text(car) is Ok && self.text(cdr) is Ok {
                    assert(self.text_within(h, n + 1) is Ok);
                    self.lemma_text_complete(h, n + 1);
                }
            }
        }
    }

    /// Walking further does not change a list that was already walked to
    /// its end.
    pub proof fn lemma_items_further(&self, h: Handle, steps: nat, further: nat)
        requires
            self.items_within(h, steps) is Ok,
            steps <= further,
        ensures
            self.items_within(h, further) == self.items_within(h, steps),
        decreases steps,
    {
        if let NodeView::Cons { car, cdr } = self@[h.slot()] {
            self.lemma_items_further(cdr, (steps - 1) as nat, (further - 1) as nat);
        }
    }

    /// A list is walked to its end in as many steps as it has items.
    pub proof fn lemma_items_exact(&self, h: Handle, steps: nat)
        requires
            self.items_within(h, steps) is Ok,
        ensures
            self.items_within(h, steps).unwrap().len() <= steps,
            self.items_within(h, self.items_within(h, steps).unwrap().len()) == self.items_within(
                h,
                steps,
            ),
        decreases steps,
    {
        if let NodeView::Cons { car, cdr } = self@[h.slot()] {
            self.lemma_items_exact(cdr, (steps - 1) as nat);
        }
    }

    /// Along a list of `k` items lies, for each length up to `k`, a node
    /// at which a list of exactly that length starts.
    proof fn lemma_one_of_each_length(&self, h: Handle, steps: nat) -> (along: Seq<Handle>)
        requires
            self.items_within(h, steps) is Ok,
        ensures
            along.len() == self.items_within(h, steps).unwrap().len() + 1,
            forall|j: int|
                0 <= j < along.len() ==> self.live(#[trigger] along[j]) && self.items_within(
                    along[j],
                    j as nat,
                ) is Ok && self.items_within(along[j], j as nat).unwrap().len() == j,
        decreases steps,
    {
        self.lemma_items_exact(h, steps);
        match self@[h.slot()] {
            NodeView::Atom(_) => seq![h],
            NodeView::Cons { car, cdr } => {
                let shorter = self.lemma_one_of_each_length(cdr, (steps - 1) as nat);
                shorter.push(h)
            },
        }
    }

    /// A list that can be walked to its end has fewer items than the arena
    /// has nodes: the nodes at which lists of different length start are
    /// different nodes.
    pub proof fn lemma_items_below_len(&self, h: Handle, steps: nat)
        requires
            self.items_within(h, steps) is Ok,
        ensures
            self.items_within(h, steps).unwrap().len() < self@.len(),
    {
        let along = self.lemma_one_of_each_length(h, steps);
        let positions = Seq::new(along.len(), |j: int| along[j].slot());
        assert forall|i: int, j: int|
            0 <= i < positions.len() && 0 <= j < positions.len() && i != j implies positions[i]
            != positions[j] by {
            if positions[i] == positions[j] {
                along[i].lemma_identity(along[j]);
                if i < j {
                    self.lemma_items_further(along[i], i as nat, j as nat);
                } else {
                    self.lemma_items_further(along[j], j as nat, i as nat);
                }
            }
        }
        assert forall|i: int| 0 <= i < positions.len() implies 0 <= #[trigger] positions[i]
            < self@.len() by {
            assert(self.live(along[i]));
        }
        lemma_distinct_below(positions, self@.len());
    }

    /// The bound on steps cuts nothing off: a list that can be walked to
    /// its end in any number of steps at all is the list at the handle.
    pub proof fn lemma_items_complete(&self, h: Handle, steps: nat)
        requires
            self.items_within(h, steps) is Ok,
        ensures
            self.items(h) == self.items_within(h, steps),
    {
        let k = self.items_within(h, steps).unwrap().len();
        self.lemma_items_exact(h, steps);
        self.lemma_items_below_len(h, steps);
        self.lemma_items_further(h, k, self@.len());
    }

    /// A list that cannot be walked to its end cannot be walked to its
    /// end in any number of steps: the refusal is not a matter of the bound.
    pub proof fn lemma_items_refused(&self, h: Handle, steps: nat)
        requires
            self.items(h) is Err,
        ensures
            self.items_within(h, steps) is Err,
    {
        if self.items_within(h, steps) is Ok {
            self.lemma_items_complete(h, steps);
        }
    }

    /// The items of a list, told node by node: a handle that does not
    /// resolve has none, an atom ends the list, and a pair has its first
    /// slot in front of the items of its second, where those can be told.
    pub proof fn lemma_items_unfold(&self, h: Handle)
        ensures
            !self.live(h) ==> self.items(h) == Err::<Seq<Handle>, RispError>(RispError::Dangling),
            self.live(h) ==> match self@[h.slot()] {
                NodeView::Atom(a) => self.items(h) == Ok::<Seq<Handle>, RispError>(Seq::empty()),
                NodeView::Cons { car, cdr } => {
                    &&& self.items(h) is Ok <==> self.items(cdr) is Ok
                    &&& self.items(h) is Ok ==> self.items(h) == Ok::<Seq<Handle>, RispError>(
                        seq![car] + self.items(cdr).unwrap(),
                    )
                },
            },
    {
        if self.live(h) {
            if let NodeView::Cons { car, cdr } = self@[h.slot()] {
                let n = self@.len();
                if self.items(h) is Ok {
                    self.lemma_items_further(cdr, (n - 1) as nat, n);
                }
                if self.items(cdr) is Ok {
                    assert(self.items_within(h, n + 1) is Ok);
                    self.lemma_items_complete(h, n + 1);
                }
            }
        }
    }
}

} // verus!
