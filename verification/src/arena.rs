//! The arena: the sole owner of every node, and the handles it issues.

use vstd::prelude::*;
use crate::exp::{NodeView, RispExp};

verus! {

/// Why an operation on the store was refused.
///
/// Overlapping read and write access to one node has no error of its own:
/// every mutation borrows the arena by `&mut`, so the compiler rules
/// such an access out before the program runs.
#[derive(Clone, Copy, Debug, PartialEq, Eq, Structural)]
pub enum RispError {
    /// A pair was expected and the handle resolves to an atom.
    NotAPair,
    /// An atom was expected and the handle resolves to a pair.
    NotAnAtom,
    /// The handle does not resolve to any slot of the arena.
    Dangling,
    /// The structure is nested deeper than the arena has nodes, so it runs
    /// into itself.
    Cyclic,
    /// The arena has no generation left to move on to.
    Exhausted,
}

impl RispError {
    /// The words for each refusal.
    pub open spec fn text(self) -> Seq<char> {
        match self {
            RispError::NotAPair => "not a pair"@,
            RispError::NotAnAtom => "not an atom"@,
            RispError::Dangling => "dangling handle"@,
            RispError::Cyclic => "cyclic structure"@,
            RispError::Exhausted => "generations exhausted"@,
        }
    }

    /// A short description of the refusal, for a message to the user.
    pub fn message(&self) -> (s: &'static str)
        ensures
            s@ == self.text(),
    {
        match self {
            RispError::NotAPair => "not a pair",
            RispError::NotAnAtom => "not an atom",
            RispError::Dangling => "dangling handle",
            RispError::Cyclic => "cyclic structure",
            RispError::Exhausted => "generations exhausted",
        }
    }
}

/// A non-owning reference to a node of an arena.
///
/// A handle names a slot, not an address, and remembers the generation of the
/// arena that issued it. Only [`Arena::allocate`] makes one.
#[derive(Clone, Copy, Debug, PartialEq, Eq, Hash, Structural)]
pub struct Handle {
    epoch: u64,
    slot: usize,
}

impl Handle {
    /// The position of the slot that the handle names.
    pub closed spec fn slot(self) -> int {
        self.slot as int
    }

    /// The generation of the arena that issued the handle.
    pub closed spec fn epoch(self) -> int {
        self.epoch as int
    }

    /// Handles are compared by identity: two handles are the same handle
    /// exactly when they name the same slot of the same generation.
    pub proof fn lemma_identity(self, other: Handle)
        ensures
            self == other <==> (self.slot() == other.slot() && self.epoch() == other.epoch()),
            0 <= self.slot() <= usize::MAX,
            0 <= self.epoch() <= u64::MAX,
    {
    }
}

/// The owner of all nodes of one session.
///
/// Nodes are only ever appended; a handle stays valid until the arena is
/// reset, and is recognised as dangling from then on.
pub struct Arena {
    nodes: Vec<RispExp>,
    epoch: u64,
}

impl View for Arena {
    type V = Seq<NodeView>;

    closed spec fn view(&self) -> Seq<NodeView> {
        Seq::new(self.nodes@.len(), |i: int| self.nodes@[i]@)
    }
}

impl Arena {
    /// The current generation of the arena.
    pub closed spec fn epoch(&self) -> int {
        self.epoch as int
    }

    /// Whether `h` resolves: it was issued in the current generation and
    /// names a slot that the arena holds.
    pub open spec fn live(&self, h: Handle) -> bool {
        h.epoch() == self.epoch() && 0 <= h.slot() < self@.len()
    }

    /// The handle of the slot at `slot` in the current generation.
    pub closed spec fn handle_at(&self, slot: nat) -> Handle {
        Handle { epoch: self.epoch, slot: slot as usize }
    }

    /// The handle of a slot names that slot in the current generation, and
    /// every handle that resolves is the handle of its slot.
    pub proof fn lemma_handle_at(&self, slot: nat)
        requires
            slot <= usize::MAX,
        ensures
            self.handle_at(slot).slot() == slot,
            self.handle_at(slot).epoch() == self.epoch(),
            forall|h: Handle| h.slot() == slot && h.epoch() == self.epoch() ==> h == self.handle_at(slot),
    {
    }

    /// An arena without nodes, in its first generation.
    pub fn new() -> (arena: Arena)
        ensures
            arena@ == Seq::<NodeView>::empty(),
            arena.epoch() == 0,
    {
        let arena = Arena { nodes: Vec::new(), epoch: 0 };
        assert(arena@ =~= Seq::<NodeView>::empty());
        arena
    }

    /// An arena without nodes that starts in the generation `epoch`.
    ///
    /// Arenas that are given generations of their own never resolve one
    /// another's handles.
    pub fn with_generation(epoch: u64) -> (arena: Arena)
        ensures
            arena@ == Seq::<NodeView>::empty(),
            arena.epoch() == epoch,
    {
        let arena = Arena { nodes: Vec::new(), epoch };
        assert(arena@ =~= Seq::<NodeView>::empty());
        arena
    }

    /// The number of nodes that the arena holds.
    pub fn len(&self) -> (n: usize)
        ensures
            n == self@.len(),
    {
        self.nodes.len()
    }

    /// Takes ownership of `exp`, stores it in a fresh slot behind all
    /// others and returns the handle of that slot.
    pub fn allocate(&mut self, exp: RispExp) -> (h: Handle)
        ensures
            final(self)@ == old(self)@.push(exp@),
            final(self).epoch() == old(self).epoch(),
            h.slot() == old(self)@.len(),
            h.epoch() == old(self).epoch(),
    {
        let slot = self.nodes.len();
        self.nodes.push(exp);
        assert(self@ =~= old(self)@.push(exp@));
        Handle { epoch: self.epoch, slot }
    }

    /// What `h` resolves to: the node in its slot, or nothing where the
    /// handle dangles.
    pub open spec fn node(&self, h: Handle) -> Result<NodeView, RispError> {
        if self.live(h) {
            Ok(self@[h.slot()])
        } else {
            Err(RispError::Dangling)
        }
    }

    /// Whether `h` was issued in a generation that has since been torn
    /// down.
    pub open spec fn stale(&self, h: Handle) -> bool {
        h.epoch() < self.epoch()
    }

    /// Read access to the node that `h` refers to, as the arena holds it at
    /// the time of the call.
    pub fn resolve(&self, h: Handle) -> (r: Result<&RispExp, RispError>)
        ensures
            match r {
                Ok(node) => self.node(h) == Ok::<NodeView, RispError>(node@),
                Err(e) => self.node(h) == Err::<NodeView, RispError>(e),
            },
    {
        if h.epoch == self.epoch && h.slot < self.nodes.len() {
            Ok(&self.nodes[h.slot])
        } else {
            Err(RispError::Dangling)
        }
    }

    /// Exclusive write access to the node that `h` refers to. What the
    /// caller leaves in the node is what every handle of that slot
    /// resolves to afterwards; no other slot changes.
    pub fn resolve_mut(&mut self, h: Handle) -> (r: Result<&mut RispExp, RispError>)
        ensures
            old(self).live(h) ==> r.is_ok() && (*r.unwrap())@ == old(self)@[h.slot()]
                && final(self)@ == old(self)@.update(h.slot(), (*final(r.unwrap()))@),
            !old(self).live(h) ==> r.is_err() && r.unwrap_err() == RispError::Dangling
                && final(self)@ == old(self)@,
            final(self).epoch() == old(self).epoch(),
    {
        if h.epoch == self.epoch && h.slot < self.nodes.len() {
            Ok(&mut self.nodes[h.slot])
        } else {
            Err(RispError::Dangling)
        }
    }

    /// Tears the arena down: every node is discarded and a new generation
    /// begins, in which no handle issued before resolves any more.
    ///
    /// Fails, and changes nothing, when the generations are used up.
    pub fn reset(&mut self) -> (r: Result<(), RispError>)
        ensures
            old(self).epoch() < u64::MAX ==> r == Ok::<(), RispError>(())
                && final(self)@ == Seq::<NodeView>::empty()
                && final(self).epoch() == old(self).epoch() + 1,
            old(self).epoch() >= u64::MAX ==> r == Err::<(), RispError>(RispError::Exhausted)
                && final(self)@ == old(self)@
                && final(self).epoch() == old(self).epoch(),
    {
        if self.epoch < u64::MAX {
            self.epoch = self.epoch + 1;
            self.nodes = Vec::new();
            assert(self@ =~= Seq::<NodeView>::empty());
            Ok(())
        } else {
            Err(RispError::Exhausted)
        }
    }
}

} // verus!
