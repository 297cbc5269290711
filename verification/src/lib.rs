//! A last-in-first-out stack of heap-allocated nodes.
//!
//! Each pushed value lives in a node that links to the node that was on
//! top just before it, so the stack is a finite chain ending in the empty
//! link. The chain, read from the bottom to the top, is the stack's view:
//! a `Seq<T>` of the not-yet-popped values in push order.

use vstd::prelude::*;

pub mod laws;

verus! {

/// One heap cell of the chain: a value and the link to the node that was
/// on top immediately before this one was pushed.
#[derive(Debug)]
struct Node<T> {
    value: T,
    prev: Option<Box<Node<T>>>,
}

/// A LIFO stack. `push` places a value on top; `pop` removes and returns
/// the most recently pushed value that has not been popped yet.
#[derive(Debug)]
pub struct ConStack<T> {
    top: Option<Box<Node<T>>>,
}

impl<T> Node<T> {
    /// The values stored in the chain hanging off `link`, bottom first,
    /// most recently pushed last.
    spec fn chain(link: Option<Box<Node<T>>>) -> Seq<T>
        decreases link,
    {
        match link {
            None => Seq::empty(),
            Some(node) => Node::chain(node.prev).push(node.value),
        }
    }
}

impl<T> View for ConStack<T> {
    type V = Seq<T>;

    closed spec fn view(&self) -> Seq<T> {
        Node::chain(self.top)
    }
}

impl<T> Default for ConStack<T> {
    fn default() -> (s: Self)
        ensures
            s@ == Seq::<T>::empty(),
    {
        ConStack { top: None }
    }
}

impl<T> ConStack<T> {
    /// Constructs an empty stack.
    pub fn new() -> (s: Self)
        ensures
            s@ == Seq::<T>::empty(),
    {
        Self::default()
    }

    /// Places `value` on top of the stack.
    pub fn push(&mut self, value: T)
        ensures
            final(self)@ == old(self)@.push(value),
    {
        let prev = self.top.take();
        self.top = Some(Box::new(Node { value, prev }));
    }

    /// Removes and returns the most recently pushed value that has not
    /// been popped yet, or `None` if the stack is empty. Popping an empty
    /// stack leaves it unchanged, so repeated pops on an empty stack all
    /// return `None`.
    pub fn pop(&mut self) -> (r: Option<T>)
        ensures
            old(self)@.len() == 0 ==> r is None && final(self)@ == old(self)@,
            old(self)@.len() > 0 ==> r == Some(old(self)@.last())
                && final(self)@ == old(self)@.drop_last(),
    {
        match self.top.take() {
            None => None,
            Some(boxed) => {
                let node = *boxed;
                self.top = node.prev;
                proof {
                    assert(old(self)@.drop_last() =~= Node::chain(self.top));
                }
                Some(node.value)
            }
        }
    }
}

} // verus!
