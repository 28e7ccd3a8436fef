//! A singly-linked stack whose nodes are owned, one by one, by their predecessor.
use vstd::prelude::*;

verus! {

struct Node<T> {
    elem: T,
    next: Option<Box<Node<T>>>,
}

impl<T> Node<T> {
    /// The values of the chain that starts at `link`, head first.
    spec fn link_seq(link: Option<Box<Node<T>>>) -> Seq<T>
        decreases link,
    {
        match link {
            None => Seq::empty(),
            Some(node) => seq![node.elem] + Self::link_seq(node.next),
        }
    }

    /// The values of the chain that starts at a borrowed node, head first.
    spec fn ref_seq(node: Option<&Node<T>>) -> Seq<T> {
        match node {
            None => Seq::empty(),
            Some(node) => seq![node.elem] + Self::link_seq(node.next),
        }
    }

    fn borrow_link(link: &Option<Box<Node<T>>>) -> (r: Option<&Node<T>>)
        ensures
            Self::ref_seq(r) == Self::link_seq(*link),
    {
        match link {
            None => None,
            Some(node) => Some(&**node),
        }
    }
}

/// What a pop does to a stack holding `s`, head first: the value taken and
/// the contents left.
pub open spec fn pop_spec<T>(s: Seq<T>) -> (Option<T>, Seq<T>) {
    if s.len() == 0 {
        (None, s)
    } else {
        (Some(s[0]), s.drop_first())
    }
}

/// A last-in, first-out list of owned values.
pub struct List<T> {
    head: Option<Box<Node<T>>>,
}

impl<T> View for List<T> {
    type V = Seq<T>;

    /// The values, head (most recently pushed) first.
    closed spec fn view(&self) -> Seq<T> {
        Node::link_seq(self.head)
    }
}

impl<T> List<T> {
    /// An empty list.
    pub fn new() -> (r: Self)
        ensures
            r@ == Seq::<T>::empty(),
    {
        List { head: None }
    }

    /// Puts `elem` on top, in front of the old head.
    pub fn push(&mut self, elem: T)
        ensures
            final(self)@ == seq![elem] + old(self)@,
    {
        let new_node = Box::new(Node { elem: elem, next: self.head.take() });
        self.head = Some(new_node);
    }

    /// Takes the head off and returns its value; `None` when the list is
    /// empty.
    pub fn pop(&mut self) -> (r: Option<T>)
        ensures
            (r, final(self)@) == pop_spec(old(self)@),
    {
        match self.head.take() {
            None => None,
            Some(node) => {
                self.head = node.next;
                Some(node.elem)
            },
        }
    }

    /// The head value, borrowed; the list is left as it is.
    pub fn peek(&self) -> (r: Option<&T>)
        ensures
            self@.len() == 0 ==> r is None,
            self@.len() > 0 ==> r == Some(&self@[0]),
    {
        match &self.head {
            None => None,
            Some(node) => Some(&node.elem),
        }
    }

    /// The head value, borrowed for change in place.
    pub fn peek_mut(&mut self) -> (r: Option<&mut T>)
        ensures
            old(self)@.len() == 0 ==> r is None && final(self)@ == old(self)@,
            old(self)@.len() > 0 ==> {
                &&& r is Some
                &&& *r.unwrap() == old(self)@[0]
                &&& final(self)@ == old(self)@.update(0, *final(r.unwrap()))
            },
    {
        match &mut self.head {
            None => None,
            Some(node) => Some(&mut node.elem),
        }
    }

    /// Turns the list into an iterator that pops its values.
    pub fn into_iter(self) -> (r: IntoIter<T>)
        ensures
            r@ == self@,
    {
        IntoIter(self)
    }

    /// A walk over the values from head to tail that leaves the list as it
    /// is.
    pub fn iter(&self) -> (r: Iter<'_, T>)
        ensures
            r@ == self@,
    {
        Iter { next: Node::borrow_link(&self.head) }
    }
}

impl<T> Drop for List<T> {
    /// Detaches the whole chain, leaving the list empty, and hands it to
    /// `release`, so that the nodes are not dropped one inside another.
    fn drop(&mut self)
        ensures
            final(self)@ == Seq::<T>::empty(),
        opens_invariants none
        no_unwind
    {
        let mut link: Option<Box<Node<T>>> = None;
        core::mem::swap(&mut self.head, &mut link);
        release(link);
    }
}

/// Releases a chain one node at a time, so that the depth of the call stack
/// does not grow with its length.
fn release<T>(link: Option<Box<Node<T>>>)
    opens_invariants none
    no_unwind
{
    let mut cur_link = link;
    loop
        decreases Node::link_seq(cur_link).len(),
    {
        match cur_link {
            None => break,
            Some(node) => {
                cur_link = node.next;
            },
        }
    }
}

/// Hands out the values of a list, by ownership, in the order of pops.
pub struct IntoIter<T>(List<T>);

impl<T> View for IntoIter<T> {
    type V = Seq<T>;

    /// The values not handed out yet, next first.
    closed spec fn view(&self) -> Seq<T> {
        self.0@
    }
}

impl<T> IntoIter<T> {
    pub fn next(&mut self) -> (r: Option<T>)
        ensures
            (r, final(self)@) == pop_spec(old(self)@),
    {
        self.0.pop()
    }
}

/// Walks a borrowed list from head to tail.
pub struct Iter<'a, T> {
    next: Option<&'a Node<T>>,
}

impl<'a, T> View for Iter<'a, T> {
    type V = Seq<T>;

    /// The values not visited yet, next first.
    closed spec fn view(&self) -> Seq<T> {
        Node::ref_seq(self.next)
    }
}

impl<'a, T> Iter<'a, T> {
    pub fn next(&mut self) -> (r: Option<&'a T>)
        ensures
            old(self)@.len() == 0 ==> r is None,
            old(self)@.len() > 0 ==> r == Some(&old(self)@[0]),
            final(self)@ == pop_spec(old(self)@).1,
    {
        match self.next {
            None => None,
            Some(node) => {
                self.next = Node::borrow_link(&node.next);
                Some(&node.elem)
            },
        }
    }
}

/// The contents after pushing the values of `vs` in turn, first to last,
/// onto a list holding `s`.
pub open spec fn push_all<T>(s: Seq<T>, vs: Seq<T>) -> Seq<T>
    decreases vs.len(),
{
    if vs.len() == 0 {
        s
    } else {
        seq![vs.last()] + push_all(s, vs.drop_last())
    }
}

/// The values that `n` pops in turn return from a list holding `s`.
pub open spec fn pop_n<T>(s: Seq<T>, n: nat) -> Seq<Option<T>>
    decreases n,
{
    if n == 0 {
        Seq::empty()
    } else {
        seq![pop_spec(s).0] + pop_n(pop_spec(s).1, (n - 1) as nat)
    }
}

/// The contents of a list holding `s` after `n` pops.
pub open spec fn after_pops<T>(s: Seq<T>, n: nat) -> Seq<T>
    decreases n,
{
    if n == 0 {
        s
    } else {
        after_pops(pop_spec(s).1, (n - 1) as nat)
    }
}

/// Pushing `p` value by value onto `s` puts `p`, reversed, in front of it.
proof fn lemma_push_all_reverses<T>(s: Seq<T>, vs: Seq<T>)
    ensures
        push_all(s, vs) == vs.reverse() + s,
    decreases vs.len(),
{
    if vs.len() > 0 {
        lemma_push_all_reverses(s, vs.drop_last());
        assert(vs.reverse() =~= seq![vs.last()] + vs.drop_last().reverse());
        assert(seq![vs.last()] + (vs.drop_last().reverse() + s) =~= (seq![vs.last()]
            + vs.drop_last().reverse()) + s);
    } else {
        assert(vs.reverse() + s =~= s);
    }
}

/// Popping `p.len()` times from `p + s` returns the values of `p` in order
/// and leaves `s`.
proof fn lemma_pop_prefix<T>(p: Seq<T>, s: Seq<T>)
    ensures
        pop_n(p + s, p.len()) == p.map_values(|v: T| Some(v)),
        after_pops(p + s, p.len()) == s,
    decreases p.len(),
{
    if p.len() == 0 {
        assert(p + s =~= s);
        assert(p.map_values(|v: T| Some(v)) =~= Seq::<Option<T>>::empty());
    } else {
        let rest = p.drop_first();
        assert((p + s).drop_first() =~= rest + s);
        lemma_pop_prefix(rest, s);
        assert(p.map_values(|v: T| Some(v)) =~= seq![Some(p[0])] + rest.map_values(
            |v: T| Some(v),
        ));
    }
}

/// Last in, first out: after the values of `vs` are pushed in turn onto a
/// list holding `s`, as many pops return them in reverse order and leave
/// the list holding `s` again.
pub proof fn lemma_lifo<T>(s: Seq<T>, vs: Seq<T>)
    ensures
        pop_n(push_all(s, vs), vs.len()) == vs.reverse().map_values(|v: T| Some(v)),
        after_pops(push_all(s, vs), vs.len()) == s,
{
    lemma_push_all_reverses(s, vs);
    lemma_pop_prefix(vs.reverse(), s);
}

/// Draining a list holding `s`, by pops or by the steps of `IntoIter`,
/// returns its values head first, one per step, and nothing at the step
/// after the last. The steps of `Iter` return references to the same values
/// and leave the same remainder.
pub proof fn lemma_drain<T>(s: Seq<T>)
    ensures
        pop_n(s, s.len()) == s.map_values(|v: T| Some(v)),
        pop_n(s, s.len() + 1) == s.map_values(|v: T| Some(v)).push(None),
{
    lemma_pop_prefix(s, Seq::<T>::empty());
    assert(s + Seq::<T>::empty() =~= s);
    lemma_pop_n_split(s, s.len());
}

/// One more pop after `n` adds what a pop returns from the list left by them.
proof fn lemma_pop_n_split<T>(s: Seq<T>, n: nat)
    ensures
        pop_n(s, n + 1) == pop_n(s, n).push(pop_spec(after_pops(s, n)).0),
    decreases n,
{
    if n == 0 {
        assert(pop_n(pop_spec(s).1, 0) == Seq::<Option<T>>::empty());
        assert(pop_n(s, 1) =~= seq![pop_spec(s).0]);
        assert(pop_n(s, 0).push(pop_spec(after_pops(s, 0)).0) =~= seq![pop_spec(s).0]);
    } else {
        lemma_pop_n_split(pop_spec(s).1, (n - 1) as nat);
        assert(pop_n(s, n + 1) =~= seq![pop_spec(s).0] + pop_n(pop_spec(s).1, n));
        assert(pop_n(s, n + 1) =~= pop_n(s, n).push(pop_spec(after_pops(s, n)).0));
    }
}

/// A list just made holds nothing, and a pop from it returns nothing.
pub proof fn lemma_pop_new<T>()
    ensures
        pop_spec(Seq::<T>::empty()) == (None::<T>, Seq::<T>::empty()),
{
}

/// A value written through `peek_mut` is what the next pop returns, and the
/// rest of the list is as before.
pub proof fn lemma_peek_mut_then_pop<T>(s: Seq<T>, v: T)
    requires
        s.len() > 0,
    ensures
        pop_spec(s.update(0, v)) == (Some(v), s.drop_first()),
{
    assert(s.update(0, v).drop_first() =~= s.drop_first());
}

} // verus!
