//! The stack and its chain of nodes.

use crate::model::{initial, rest, top};
use vstd::prelude::*;

verus! {

/// An owning link to the following node, or `None` at the end of the chain.
type StackNodeRef<T> = Option<Box<StackNode<T>>>;

/// One link of the chain. No node of a stack is without its value; `value`
/// is an `Option` so that a pop can hand it out as it is.
struct StackNode<T> {
    value: Option<T>,
    next: StackNodeRef<T>,
}

/// A last-in-first-out container. `head` owns the most recently pushed node,
/// and each node owns the one pushed before it.
pub struct Stack<T> {
    head: StackNodeRef<T>,
    length: usize,
}

/// The number of nodes reachable from `link`.
spec fn chain_len<T>(link: StackNodeRef<T>) -> nat
    decreases link,
{
    match link {
        Some(node) => 1 + chain_len(node.next),
        None => 0,
    }
}

/// Every node reachable from `link` holds a value.
spec fn chain_filled<T>(link: StackNodeRef<T>) -> bool
    decreases link,
{
    match link {
        Some(node) => node.value is Some && chain_filled(node.next),
        None => true,
    }
}

/// The values held by the nodes reachable from `link`, the farthest node
/// first and the node at `link` last.
spec fn chain_items<T>(link: StackNodeRef<T>) -> Seq<T>
    decreases link,
{
    match link {
        Some(node) => {
            let below = chain_items(node.next);
            match node.value {
                Some(v) => below.push(v),
                None => below,
            }
        },
        None => Seq::empty(),
    }
}

/// In a chain without empty nodes there are as many values as nodes.
proof fn lemma_filled_chain_len<T>(link: StackNodeRef<T>)
    requires
        chain_filled(link),
    ensures
        chain_items(link).len() == chain_len(link),
    decreases link,
{
    match link {
        Some(node) => lemma_filled_chain_len(node.next),
        None => {},
    }
}

impl<T> View for Stack<T> {
    type V = Seq<T>;

    /// The stored values, bottom first.
    closed spec fn view(&self) -> Seq<T> {
        chain_items(self.head)
    }
}

impl<T> Stack<T> {
    /// `length` counts the nodes of the chain, each node holds a value, and
    /// the head is absent exactly when `length` is 0.
    #[verifier::type_invariant]
    spec fn well_formed(self) -> bool {
        &&& self.length == chain_len(self.head)
        &&& chain_filled(self.head)
        &&& self.head is None <==> self.length == 0
    }

    /// A stack holding `value` alone, or an empty one.
    pub fn new(value: Option<T>) -> (stack: Self)
        ensures
            stack@ == initial(value),
    {
        match value {
            Some(value) => {
                let head = StackNode { value: Some(value), next: None };
                proof {
                    assert(chain_len(head.next) == 0);
                    assert(chain_filled(head.next));
                    assert(chain_items(head.next) =~= Seq::empty());
                }
                let stack = Stack { head: Some(Box::new(head)), length: 1 };
                assert(stack@ =~= seq![value]);
                stack
            },
            None => Stack { head: None, length: 0 },
        }
    }

    /// The number of stored values.
    pub fn length(&self) -> (n: usize)
        ensures
            n == self@.len(),
    {
        proof {
            use_type_invariant(self);
            lemma_filled_chain_len(self.head);
        }
        self.length
    }

    /// Puts `value` on top: a new node takes over the whole previous chain
    /// and becomes the head. Returns the stack itself, for chaining.
    pub fn push(&mut self, value: T) -> (stack: &Self)
        requires
            old(self)@.len() < usize::MAX,
        ensures
            final(self)@ == old(self)@.push(value),
            *stack == *final(self),
    {
        proof {
            use_type_invariant(&*self);
            lemma_filled_chain_len(self.head);
        }
        // The chain and its count are replaced together, so that the count
        // is right at every point.
        let mut prev = Stack { head: None, length: 0 };
        std::mem::swap(self, &mut prev);
        let Stack { head: next, length } = prev;
        let head = StackNode { value: Some(value), next };
        *self = Stack { head: Some(Box::new(head)), length: length + 1 };
        self
    }

    /// Takes the top value off and returns it: the head node is detached, the
    /// node below it becomes the head. On an empty stack, returns `None` and
    /// changes nothing.
    pub fn pop(&mut self) -> (value: Option<T>)
        ensures
            value == top(old(self)@),
            final(self)@ == rest(old(self)@),
    {
        proof {
            use_type_invariant(&*self);
            lemma_filled_chain_len(self.head);
        }
        let mut prev = Stack { head: None, length: 0 };
        std::mem::swap(self, &mut prev);
        let Stack { head, length } = prev;
        match head {
            Some(head) => {
                let StackNode { value, next } = *head;
                proof {
                    assert(chain_items(next).push(value->0).drop_last() =~= chain_items(next));
                    assert(next is None <==> chain_len(next) == 0);
                }
                *self = Stack { head: next, length: length - 1 };
                value
            },
            None => None,
        }
    }

    /// The top value, left in place; `None` on an empty stack.
    pub fn peek(&self) -> (value: Option<&T>)
        ensures
            value == (match top(self@) {
                Some(v) => Some(&v),
                None => None,
            }),
    {
        proof {
            use_type_invariant(self);
            lemma_filled_chain_len(self.head);
        }
        match &self.head {
            Some(head) => head.value.as_ref(),
            None => None,
        }
    }
}

} // verus!
