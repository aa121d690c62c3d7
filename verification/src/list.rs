//! A stack of strings kept as a singly linked list, with three ways to walk
//! it: by value, by shared reference and by mutable reference.

use vstd::prelude::*;

verus! {

/// One link of the chain: a value and the rest of the chain behind it.
pub struct Node {
    val: String,
    next: Option<Box<Node>>,
}

impl View for Node {
    type V = Seq<Seq<char>>;

    /// The values from this node to the end of the chain, in order.
    closed spec fn view(&self) -> Seq<Seq<char>> {
        seq![self.val@] + link_view(self.next)
    }
}

/// The values from `link` to the end of the chain, in order.
spec fn link_view(link: Option<Box<Node>>) -> Seq<Seq<char>>
    decreases link,
{
    match link {
        None => Seq::empty(),
        Some(node) => seq![node.val@] + link_view(node.next),
    }
}

/// The text of a list of `items`: each item followed by an arrow, then the
/// word `None` for the end of the chain.
pub open spec fn list_text(items: Seq<Seq<char>>) -> Seq<char>
    decreases items.len(),
{
    if items.len() == 0 {
        seq!['N', 'o', 'n', 'e']
    } else {
        items[0] + seq![' ', '-', '>', ' '] + list_text(items.skip(1))
    }
}

/// A stack of strings. Its view lists the values from the top down.
pub struct List {
    head: Option<Box<Node>>,
}

impl View for List {
    type V = Seq<Seq<char>>;

    closed spec fn view(&self) -> Seq<Seq<char>> {
        link_view(self.head)
    }
}

impl List {
    /// The empty stack.
    pub fn new() -> (list: List)
        ensures
            list@ == Seq::<Seq<char>>::empty(),
    {
        List { head: None }
    }

    /// Puts `val` on top of the stack.
    pub fn push(&mut self, val: String)
        ensures
            final(self)@ == seq![val@] + old(self)@,
    {
        let new_node = Box::new(Node { val, next: self.head.take() });
        self.head = Some(new_node);
    }

    /// Takes the top value off the stack, if there is one.
    pub fn pop(&mut self) -> (r: Option<String>)
        ensures
            match r {
                Some(val) => {
                    &&& old(self)@.len() > 0
                    &&& val@ == old(self)@[0]
                    &&& final(self)@ == old(self)@.skip(1)
                },
                None => old(self)@.len() == 0 && final(self)@ == old(self)@,
            },
    {
        match self.head.take() {
            None => None,
            Some(node) => {
                let node = *node;
                self.head = node.next;
                assert(old(self)@.skip(1) =~= self@);
                Some(node.val)
            },
        }
    }

    /// The top value, left in place.
    pub fn peek(&self) -> (r: Option<&String>)
        ensures
            match r {
                Some(val) => self@.len() > 0 && val@ == self@[0],
                None => self@.len() == 0,
            },
    {
        match &self.head {
            None => None,
            Some(node) => Some(&node.val),
        }
    }

    /// The stack written from the top down, as `c -> b -> a -> None`.
    pub fn to_string(&self) -> (s: String)
        ensures
            s@ == list_text(self@),
    {
        let mut s = String::new();
        let mut cur = &self.head;
        proof {
            reveal_strlit(" -> ");
            reveal_strlit("None");
            assert(s@ + list_text(link_view(*cur)) =~= list_text(self@));
        }
        loop
            invariant
                s@ + list_text(link_view(*cur)) == list_text(self@),
                " -> "@ == seq![' ', '-', '>', ' '],
                "None"@ == seq!['N', 'o', 'n', 'e'],
            decreases link_view(*cur).len(),
        {
            match cur {
                None => {
                    s.append("None");
                    return s;
                },
                Some(node) => {
                    let ghost before = s@;
                    let ghost rest = link_view(*cur);
                    s.append(node.val.as_str());
                    s.append(" -> ");
                    cur = &node.next;
                    proof {
                        assert(rest.skip(1) =~= link_view(*cur));
                        assert(s@ + list_text(link_view(*cur)) =~= before + list_text(rest));
                    }
                },
            }
        }
    }
}

/// A walk that takes the values off a list, from the top down.
pub struct IntoIter {
    list: List,
}

impl View for IntoIter {
    type V = Seq<Seq<char>>;

    /// The values that the walk has still to hand out.
    closed spec fn view(&self) -> Seq<Seq<char>> {
        self.list@
    }
}

impl IntoIter {
    /// Hands out the next value, or `None` at the end.
    pub fn next(&mut self) -> (r: Option<String>)
        ensures
            match r {
                Some(val) => {
                    &&& old(self)@.len() > 0
                    &&& val@ == old(self)@[0]
                    &&& final(self)@ == old(self)@.skip(1)
                },
                None => old(self)@.len() == 0 && final(self)@ == old(self)@,
            },
    {
        self.list.pop()
    }
}

/// A walk that lends out the values of a list, from the top down.
pub struct Iter<'a> {
    link: &'a Option<Box<Node>>,
}

impl<'a> View for Iter<'a> {
    type V = Seq<Seq<char>>;

    /// The values that the walk has still to hand out.
    closed spec fn view(&self) -> Seq<Seq<char>> {
        link_view(*self.link)
    }
}

impl<'a> Iter<'a> {
    /// Lends out the next value, or `None` at the end.
    pub fn next(&mut self) -> (r: Option<&'a String>)
        ensures
            match r {
                Some(val) => {
                    &&& old(self)@.len() > 0
                    &&& val@ == old(self)@[0]
                    &&& final(self)@ == old(self)@.skip(1)
                },
                None => old(self)@.len() == 0 && final(self)@ == old(self)@,
            },
    {
        match self.link {
            None => None,
            Some(node) => {
                self.link = &node.next;
                assert(old(self)@.skip(1) =~= self@);
                Some(&node.val)
            },
        }
    }
}

impl List {
    /// Turns the list into a walk that owns it.
    pub fn into_iter(self) -> (it: IntoIter)
        ensures
            it@ == self@,
    {
        IntoIter { list: self }
    }

    /// A walk over the values of the list.
    pub fn iter(&self) -> (it: Iter<'_>)
        ensures
            it@ == self@,
    {
        Iter { link: &self.head }
    }
}

/// A walk that lends out the values of a list for writing, from the top
/// down.
pub struct IterMut<'a> {
    node: Option<&'a mut Node>,
}

impl<'a> IterMut<'a> {
    /// The borrowed node that the walk stands at, if it is not at its end.
    pub closed spec fn cursor(&self) -> Option<&'a mut Node> {
        self.node
    }

    /// The values that the walk has still to hand out, as they are now.
    pub open spec fn now(&self) -> Seq<Seq<char>> {
        match self.cursor() {
            None => Seq::empty(),
            Some(node) => node@,
        }
    }

    /// Lends out the next value for writing, or `None` at the end.
    ///
    /// The node that the walk stood at ends up holding what the caller
    /// leaves in the value, followed by what the rest of the walk leaves
    /// behind it.
    pub fn next(&mut self) -> (r: Option<&'a mut String>)
        ensures
            final(self).cursor() is Some <==> final(self).now().len() > 0,
            old(self).now().len() == 0 ==> r is None && final(self).now().len() == 0,
            old(self).now().len() > 0 ==> {
                &&& r is Some
                &&& (*r.unwrap())@ == old(self).now()[0]
                &&& final(self).now() == old(self).now().skip(1)
                &&& old(self).cursor() is Some
                &&& final(old(self).cursor().unwrap())@ == seq![(*final(r.unwrap()))@] + match final(self).cursor() {
                    None => Seq::<Seq<char>>::empty(),
                    Some(rest) => final(rest)@,
                }
            },
    {
        match self.node.take() {
            None => None,
            Some(node) => {
                self.node = match &mut node.next {
                    None => None,
                    Some(rest) => Some(&mut **rest),
                };
                Some(&mut node.val)
            },
        }
    }
}

impl List {
    /// A walk over the values of the list that lets each be overwritten.
    /// What the list holds once the walk is let go is what the walk left in
    /// the nodes it borrowed.
    pub fn iter_mut(&mut self) -> (it: IterMut<'_>)
        ensures
            it.now() == old(self)@,
            it.cursor() is Some <==> old(self)@.len() > 0,
            final(self)@ == match it.cursor() {
                None => Seq::<Seq<char>>::empty(),
                Some(node) => final(node)@,
            },
    {
        IterMut {
            node: match &mut self.head {
                None => None,
                Some(node) => Some(&mut **node),
            },
        }
    }
}

} // verus!
