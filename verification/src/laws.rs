//! What holds of the store as a whole: how building, sharing, mutation and
//! teardown show through the operations that read it.

use vstd::prelude::*;
use crate::arena::{Arena, Handle, RispError};
use crate::atom::AtomView;
use crate::exp::{slots, NodeView, RispExp, RispExpIter};
use crate::graph::{nil_name, pair_text};

verus! {

/// The text of a list whose items are written as `texts`: pairs nested to
/// the right, closed by the atom `nil`.
pub open spec fn chain_text(texts: Seq<Seq<char>>) -> Seq<char>
    decreases texts.len(),
{
    if texts.len() == 0 {
        nil_name()
    } else {
        pair_text(texts[0], chain_text(texts.skip(1)))
    }
}

impl Arena {
    /// Whether `later` holds every node of this arena unchanged, in the
    /// same generation, and perhaps more behind them.
    pub open spec fn grown_into(&self, later: &Arena) -> bool {
        &&& later.epoch() == self.epoch()
        &&& self@.len() <= later@.len()
        &&& forall|i: int| 0 <= i < self@.len() ==> later@[i] == self@[i]
    }

    /// The texts of `items`, where each of them has one.
    pub open spec fn texts_of(&self, items: Seq<Handle>) -> Seq<Seq<char>> {
        Seq::new(items.len(), |i: int| self.text(items[i]).unwrap())
    }

    /// Whether every handle of `items` has a text.
    pub open spec fn all_written(&self, items: Seq<Handle>) -> bool {
        forall|i: int| 0 <= i < items.len() ==> self.text(#[trigger] items[i]) is Ok
    }

    /// Whether `later` is this arena with the node at `h` replaced by
    /// `node` and nothing else changed.
    pub open spec fn changed_at(&self, h: Handle, node: NodeView, later: &Arena) -> bool {
        &&& self.live(h)
        &&& later.epoch() == self.epoch()
        &&& later@ == self@.update(h.slot(), node)
    }

    proof fn lemma_text_within_kept(&self, later: &Arena, h: Handle, depth: nat)
        requires
            self.grown_into(later),
            self.text_within(h, depth) is Ok,
        ensures
            later.text_within(h, depth) == self.text_within(h, depth),
        decreases depth,
    {
        if let NodeView::Cons { car, cdr } = self@[h.slot()] {
            self.lemma_text_within_kept(later, car, (depth - 1) as nat);
            self.lemma_text_within_kept(later, cdr, (depth - 1) as nat);
        }
    }

    proof fn lemma_items_within_kept(&self, later: &Arena, h: Handle, steps: nat)
        requires
            self.grown_into(later),
            self.items_within(h, steps) is Ok,
        ensures
            later.items_within(h, steps) == self.items_within(h, steps),
        decreases steps,
    {
        if let NodeView::Cons { car, cdr } = self@[h.slot()] {
            self.lemma_items_within_kept(later, cdr, (steps - 1) as nat);
        }
    }

    /// Allocation leaves what was there as it was: an expression keeps
    /// its text and a list keeps its items when nodes are added to the
    /// arena.
    pub proof fn lemma_growth_keeps(&self, later: &Arena, h: Handle)
        requires
            self.grown_into(later),
        ensures
            self.node(h) is Ok ==> later.node(h) == self.node(h),
            self.text(h) is Ok ==> later.text(h) == self.text(h),
            self.items(h) is Ok ==> later.items(h) == self.items(h),
    {
        if self.text(h) is Ok {
            self.lemma_text_within_kept(later, h, self@.len());
            later.lemma_text_complete(h, self@.len());
        }
        if self.items(h) is Ok {
            self.lemma_items_within_kept(later, h, self@.len());
            later.lemma_items_complete(h, self@.len());
        }
    }

    /// A list that was built is walked back as the items it was built from,
    /// in order.
    pub proof fn lemma_build_items(&self, later: &Arena, items: Seq<Handle>, k: nat)
        requires
            self.all_live(items),
            later.epoch() == self.epoch(),
            later@ == self@ + self.list_nodes(items),
            self@.len() + items.len() <= usize::MAX,
            k <= items.len(),
        ensures
            later.items(self.handle_at(self@.len() + k)) == Ok::<Seq<Handle>, RispError>(
                items.subrange(items.len() - k, items.len() as int),
            ),
        decreases k,
    {
        let n = items.len();
        let cell = self.handle_at(self@.len() + k);
        self.lemma_handle_at(self@.len() + k);
        assert(later@[self@.len() + k as int] == self.list_nodes(items)[k as int]);
        later.lemma_items_unfold(cell);
        if k == 0 {
            assert(items.subrange(n as int, n as int) =~= Seq::<Handle>::empty());
        } else {
            self.lemma_build_items(later, items, (k - 1) as nat);
            assert(seq![items[n - k]] + items.subrange(n - k + 1, n as int) =~= items.subrange(
                n - k,
                n as int,
            ));
        }
    }

    /// A list that was built is written as its items were written before,
    /// nested to the right and closed by `nil`.
    pub proof fn lemma_build_text(&self, later: &Arena, items: Seq<Handle>, k: nat)
        requires
            self.all_live(items),
            self.all_written(items),
            later.epoch() == self.epoch(),
            later@ == self@ + self.list_nodes(items),
            self@.len() + items.len() <= usize::MAX,
            k <= items.len(),
        ensures
            later.text(self.handle_at(self@.len() + k)) == Ok::<Seq<char>, RispError>(
                chain_text(self.texts_of(items).subrange(items.len() - k, items.len() as int)),
            ),
        decreases k,
    {
        let n = items.len();
        let texts = self.texts_of(items);
        let cell = self.handle_at(self@.len() + k);
        self.lemma_handle_at(self@.len() + k);
        assert(later@[self@.len() + k as int] == self.list_nodes(items)[k as int]);
        later.lemma_text_unfold(cell);
        if k == 0 {
            assert(texts.subrange(n as int, n as int) =~= Seq::<Seq<char>>::empty());
        } else {
            self.lemma_build_text(later, items, (k - 1) as nat);
            self.lemma_growth_keeps(later, items[n - k]);
            let tail = texts.subrange(n - k, n as int);
            assert(tail.skip(1) =~= texts.subrange(n - k + 1, n as int));
            assert(tail[0] == texts[n - k]);
        }
    }

    /// Building a list and reading it back: the handle that `build` gives
    /// walks as the items in order, and renders as the items' texts nested
    /// to the right and closed by `nil`.
    pub proof fn lemma_build_round_trip(&self, later: &Arena, items: Seq<Handle>, list: Handle)
        requires
            self.all_live(items),
            later.epoch() == self.epoch(),
            later@ == self@ + self.list_nodes(items),
            self@.len() + items.len() <= usize::MAX,
            list == self.handle_at(self@.len() + items.len()),
        ensures
            later.items(list) == Ok::<Seq<Handle>, RispError>(items),
            self.all_written(items) ==> later.text(list) == Ok::<Seq<char>, RispError>(
                chain_text(self.texts_of(items)),
            ),
    {
        let n = items.len();
        self.lemma_build_items(later, items, n);
        assert(items.subrange(0, n as int) =~= items);
        if self.all_written(items) {
            self.lemma_build_text(later, items, n);
            assert(self.texts_of(items).subrange(0, n as int) =~= self.texts_of(items));
        }
    }

    /// A change made through one handle is seen through every handle of the
    /// same slot, and through no other: after the node at `h` has become
    /// `node`, any handle that names that slot resolves to `node`, and any
    /// other handle resolves to what it resolved to before.
    pub proof fn lemma_change_seen_by_aliases(
        &self,
        later: &Arena,
        h: Handle,
        node: NodeView,
        other: Handle,
    )
        requires
            self.changed_at(h, node, later),
        ensures
            other.slot() == h.slot() && other.epoch() == h.epoch() ==> later.node(other) == Ok::<
                NodeView,
                RispError,
            >(node),
            other.slot() != h.slot() ==> later.node(other) == self.node(other),
            later.live(other) == self.live(other),
    {
    }

    /// Redirecting the first slot of a pair through one handle shows
    /// through every other handle of that pair.
    pub proof fn lemma_set_first_aliased(&self, later: &Arena, h1: Handle, h2: Handle, z: Handle)
        requires
            self.with_first(h1, z) is Ok,
            self.changed_at(h1, self.with_first(h1, z).unwrap(), later),
            h2.slot() == h1.slot(),
            h2.epoch() == h1.epoch(),
        ensures
            later.first(h2) == Ok::<Handle, RispError>(z),
            later.second(h2) == self.second(h1),
    {
    }

    /// Redirecting the second slot of a pair through one handle shows
    /// through every other handle of that pair.
    pub proof fn lemma_set_second_aliased(&self, later: &Arena, h1: Handle, h2: Handle, z: Handle)
        requires
            self.with_second(h1, z) is Ok,
            self.changed_at(h1, self.with_second(h1, z).unwrap(), later),
            h2.slot() == h1.slot(),
            h2.epoch() == h1.epoch(),
        ensures
            later.second(h2) == Ok::<Handle, RispError>(z),
            later.first(h2) == self.first(h1),
    {
    }

    /// Overwriting an atom is seen wherever the atom is shared. With `v`
    /// in the first slot of `a`, and `a` in the second slot of both `b`
    /// and `c`, the new value is what is read at the end of either path,
    /// and it stands in the text of `a`, of `b` and of `c`.
    pub proof fn lemma_set_value_shared(
        &self,
        later: &Arena,
        v: Handle,
        value: AtomView,
        a: Handle,
        b: Handle,
        c: Handle,
    )
        requires
            self.with_value(v, value) is Ok,
            self.changed_at(v, NodeView::Atom(value), later),
            self.first(a) == Ok::<Handle, RispError>(v),
            self.second(b) == Ok::<Handle, RispError>(a),
            self.second(c) == Ok::<Handle, RispError>(a),
        ensures
            later.first(a) == Ok::<Handle, RispError>(v),
            later.second(b) == Ok::<Handle, RispError>(a),
            later.second(c) == Ok::<Handle, RispError>(a),
            later.node(v) == Ok::<NodeView, RispError>(NodeView::Atom(value)),
            later.text(v) == Ok::<Seq<char>, RispError>(value.text()),
            later.text(later.second(a).unwrap()) is Ok ==> later.text(a) == Ok::<
                Seq<char>,
                RispError,
            >(pair_text(value.text(), later.text(later.second(a).unwrap()).unwrap())),
            later.text(a) is Ok && later.text(later.first(b).unwrap()) is Ok ==> later.text(b)
                == Ok::<Seq<char>, RispError>(
                pair_text(later.text(later.first(b).unwrap()).unwrap(), later.text(a).unwrap()),
            ),
            later.text(a) is Ok && later.text(later.first(c).unwrap()) is Ok ==> later.text(c)
                == Ok::<Seq<char>, RispError>(
                pair_text(later.text(later.first(c).unwrap()).unwrap(), later.text(a).unwrap()),
            ),
    {
        later.lemma_text_unfold(v);
        later.lemma_text_unfold(a);
        later.lemma_text_unfold(b);
        later.lemma_text_unfold(c);
    }

    /// Resolving is a reading, not a change: two answers to the same
    /// question of the same arena are the same answer.
    pub proof fn lemma_resolve_twice(
        &self,
        h: Handle,
        once: Result<&RispExp, RispError>,
        again: Result<&RispExp, RispError>,
    )
        requires
            match once {
                Ok(node) => self.node(h) == Ok::<NodeView, RispError>(node@),
                Err(e) => self.node(h) == Err::<NodeView, RispError>(e),
            },
            match again {
                Ok(node) => self.node(h) == Ok::<NodeView, RispError>(node@),
                Err(e) => self.node(h) == Err::<NodeView, RispError>(e),
            },
        ensures
            once is Ok <==> again is Ok,
            once is Ok ==> once.unwrap()@ == again.unwrap()@,
            once is Err ==> once.unwrap_err() == again.unwrap_err(),
    {
    }

    /// A handle keeps its identity when the kind of its node changes. Once
    /// it holds a pair, the pair's slots are read and written and the
    /// atom's operation is refused; once it holds an atom, it is the other
    /// way round.
    pub proof fn lemma_kind_replaced(
        &self,
        later: &Arena,
        h: Handle,
        node: NodeView,
        slot: Handle,
        value: AtomView,
    )
        requires
            self.changed_at(h, node, later),
        ensures
            later.node(h) == Ok::<NodeView, RispError>(node),
            node is Cons ==> {
                &&& later.first(h) == Ok::<Handle, RispError>(node->car)
                &&& later.second(h) == Ok::<Handle, RispError>(node->cdr)
                &&& later.with_value(h, value) == Err::<NodeView, RispError>(RispError::NotAnAtom)
                &&& later.live(slot) ==> later.with_first(h, slot) is Ok && later.with_second(
                    h,
                    slot,
                ) is Ok
            },
            node is Atom ==> {
                &&& later.first(h) == Err::<Handle, RispError>(RispError::NotAPair)
                &&& later.second(h) == Err::<Handle, RispError>(RispError::NotAPair)
                &&& later.with_first(h, slot) == Err::<NodeView, RispError>(RispError::NotAPair)
                &&& later.with_second(h, slot) == Err::<NodeView, RispError>(RispError::NotAPair)
                &&& later.with_value(h, value) == Ok::<NodeView, RispError>(NodeView::Atom(value))
                &&& later.text(h) == Ok::<Seq<char>, RispError>(node->0.text())
                &&& later.items(h) == Ok::<Seq<Handle>, RispError>(Seq::empty())
            },
    {
        later.lemma_text_unfold(h);
        later.lemma_items_unfold(h);
    }

    /// A handle that resolved before a teardown is stale after it.
    pub proof fn lemma_torn_down(&self, later: &Arena, h: Handle)
        requires
            self.live(h),
            later.epoch() > self.epoch(),
        ensures
            later.stale(h),
    {
    }

    /// A stale handle dangles, and is answered as dangling by every
    /// operation that reads or writes through it, whatever the arena has
    /// come to hold since.
    pub proof fn lemma_stale_dangles(&self, h: Handle, slot: Handle, value: AtomView)
        requires
            self.stale(h),
        ensures
            !self.live(h),
            self.node(h) == Err::<NodeView, RispError>(RispError::Dangling),
            self.first(h) == Err::<Handle, RispError>(RispError::Dangling),
            self.second(h) == Err::<Handle, RispError>(RispError::Dangling),
            self.with_first(h, slot) == Err::<NodeView, RispError>(RispError::Dangling),
            self.with_second(h, slot) == Err::<NodeView, RispError>(RispError::Dangling),
            self.with_value(h, value) == Err::<NodeView, RispError>(RispError::Dangling),
            self.text(h) == Err::<Seq<char>, RispError>(RispError::Dangling),
            self.items(h) == Err::<Seq<Handle>, RispError>(RispError::Dangling),
    {
        self.lemma_text_unfold(h);
        self.lemma_items_unfold(h);
    }

    /// Staleness is for good: no operation lowers the generation of an
    /// arena, so a handle that is stale stays stale.
    pub proof fn lemma_stale_stays(&self, later: &Arena, h: Handle)
        requires
            self.stale(h),
            later.epoch() >= self.epoch(),
        ensures
            later.stale(h),
    {
    }
}

impl RispExpIter {
    /// A walk that starts at a node has the items of the list at that node
    /// to hand out.
    pub proof fn lemma_walk_starts(arena: &Arena, h: Handle)
        requires
            arena.live(h),
        ensures
            Self::rest(slots(arena@[h.slot()]), arena) is Ok <==> arena.items(h) is Ok,
            arena.items(h) is Ok ==> Self::rest(slots(arena@[h.slot()]), arena) == arena.items(h),
    {
        arena.lemma_items_unfold(h);
    }

    /// Each step hands out the first of what the walk had still to hand
    /// out and leaves the rest for the steps that follow; at the end it
    /// hands out nothing, and goes on doing so.
    pub proof fn lemma_walk_steps(state: (Option<Handle>, Option<Handle>), arena: &Arena)
        requires
            Self::rest(state, arena) is Ok,
        ensures
            Self::rest(Self::step(state, arena).1, arena) is Ok,
            match Self::step(state, arena).0 {
                Ok(Some(item)) => Self::rest(state, arena).unwrap() == seq![item] + Self::rest(
                    Self::step(state, arena).1,
                    arena,
                ).unwrap(),
                Ok(None) => Self::rest(state, arena).unwrap() == Seq::<Handle>::empty()
                    && Self::step(state, arena).1 == state,
                Err(_) => false,
            },
    {
        if let (Some(item), Some(tail)) = state {
            arena.lemma_items_unfold(tail);
            Self::lemma_walk_starts(arena, tail);
        }
    }
}

} // verus!
