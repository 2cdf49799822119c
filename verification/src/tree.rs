//! A binary tree that keeps its values in the leaves, and an iterator that
//! hands them out from left to right.

use crate::iterators::{sums_fit, total};
use vstd::prelude::*;

verus! {

/// A binary tree with a value in each leaf.
pub enum Tree<A> {
    Leaf(A),
    Branch(Box<Tree<A>>, Box<Tree<A>>),
}

impl<A> Tree<A> {
    /// The values in the leaves, from left to right.
    pub open spec fn leaves(self) -> Seq<A>
        decreases self,
    {
        match self {
            Tree::Leaf(value) => seq![value],
            Tree::Branch(left, right) => left.leaves() + right.leaves(),
        }
    }

    /// The number of nodes, leaves and branches together.
    pub open spec fn size(self) -> nat
        decreases self,
    {
        match self {
            Tree::Leaf(_) => 1,
            Tree::Branch(left, right) => 1 + left.size() + right.size(),
        }
    }

    /// A tree has at least one leaf.
    pub proof fn lemma_has_a_leaf(self)
        ensures
            self.leaves().len() >= 1,
        decreases self,
    {
        match self {
            Tree::Leaf(_) => {},
            Tree::Branch(left, right) => {
                left.lemma_has_a_leaf();
            },
        }
    }

    /// An iterator over the leaves of this tree, from left to right.
    pub fn iter(&self) -> (iterator: TreeIterator<'_, A>)
        ensures
            iterator.upcoming() == self.leaves(),
            iterator.current == Some(self),
            iterator.todo@.len() == 0,
    {
        let iterator = TreeIterator { current: Some(self), todo: Vec::new() };
        assert(iterator.upcoming() =~= self.leaves()) by {
            reveal_with_fuel(pending_leaves, 1);
        }
        iterator
    }
}

/// The leaves of the trees on a stack, the top of the stack (its last
/// element) first.
pub open spec fn pending_leaves<A>(stack: Seq<&Tree<A>>) -> Seq<A>
    decreases stack.len(),
{
    if stack.len() == 0 {
        Seq::empty()
    } else {
        stack.last().leaves() + pending_leaves(stack.drop_last())
    }
}

/// The number of nodes in the trees on a stack.
pub open spec fn pending_size<A>(stack: Seq<&Tree<A>>) -> nat
    decreases stack.len(),
{
    if stack.len() == 0 {
        0
    } else {
        stack.last().size() + pending_size(stack.drop_last())
    }
}

/// A position in a walk over the leaves of a tree: the subtree that is
/// visited next, and the subtrees put aside to be visited after it, the one
/// to visit first on top.
pub struct TreeIterator<'a, A> {
    pub current: Option<&'a Tree<A>>,
    pub todo: Vec<&'a Tree<A>>,
}

impl<'a, A> TreeIterator<'a, A> {
    /// The values that are still to come, in the order in which they come.
    pub open spec fn upcoming(self) -> Seq<A> {
        match self.current {
            Some(tree) => tree.leaves() + pending_leaves(self.todo@),
            None => pending_leaves(self.todo@),
        }
    }

    /// The number of nodes that are still to be visited.
    pub open spec fn work(self) -> nat {
        match self.current {
            Some(tree) => tree.size() + pending_size(self.todo@),
            None => pending_size(self.todo@),
        }
    }

    /// Nothing is still to come exactly when no subtree is being visited and
    /// none is put aside.
    pub proof fn lemma_exhausted(self)
        ensures
            self.upcoming().len() == 0 <==> self.current is None && self.todo@.len() == 0,
    {
        match self.current {
            Some(tree) => {
                tree.lemma_has_a_leaf();
            },
            None => {
                if self.todo@.len() > 0 {
                    self.todo@.last().lemma_has_a_leaf();
                }
            },
        }
    }

    /// Every value that is still to come, in order. The iterator is used up.
    pub fn into_vec(self) -> (items: Vec<&'a A>)
        ensures
            items@.len() == self.upcoming().len(),
            forall|i: int| 0 <= i < items@.len() ==> *#[trigger] items@[i] == self.upcoming()[i],
    {
        let ghost all = self.upcoming();
        let mut iterator = self;
        let mut items: Vec<&'a A> = Vec::new();
        loop
            invariant
                all == self.upcoming(),
                items@.len() + iterator.upcoming().len() == all.len(),
                iterator.upcoming() == all.skip(items@.len() as int),
                forall|i: int| 0 <= i < items@.len() ==> *#[trigger] items@[i] == all[i],
            decreases iterator.upcoming().len(),
        {
            match iterator.next() {
                Some(value) => {
                    items.push(value);
                    proof {
                        assert(iterator.upcoming() =~= all.skip(items@.len() as int));
                    }
                },
                None => {
                    return items;
                },
            }
        }
    }
}

impl<'a, A> Iterator for TreeIterator<'a, A> {
    type Item = &'a A;

    /// The next leaf value, or `None` when every leaf has been handed out.
    /// Once it has returned `None` it keeps doing so.
    fn next(&mut self) -> (item: Option<&'a A>)
        ensures
            match item {
                Some(value) => {
                    &&& old(self).upcoming().len() > 0
                    &&& *value == old(self).upcoming()[0]
                    &&& final(self).upcoming() == old(self).upcoming().skip(1)
                },
                None => {
                    &&& old(self).upcoming().len() == 0
                    &&& final(self).current is None
                    &&& final(self).todo@.len() == 0
                },
            },
    {
        loop
            invariant
                self.upcoming() == old(self).upcoming(),
            decreases 2 * self.work() + (if self.current is None { 1nat } else { 0nat }),
        {
            match self.current {
                Some(tree) => {
                    match tree {
                        Tree::Leaf(value) => {
                            let ghost before = *self;
                            self.current = self.todo.pop();
                            proof {
                                let stack = before.todo@;
                                if stack.len() > 0 {
                                    assert(stack.drop_last() =~= self.todo@);
                                }
                                assert(self.upcoming() =~= before.upcoming().skip(1));
                            }
                            return Some(value);
                        },
                        Tree::Branch(left, right) => {
                            let ghost before = *self;
                            self.todo.push(&**right);
                            self.current = Some(&**left);
                            proof {
                                assert(self.todo@.drop_last() =~= before.todo@);
                                assert(self.todo@.last() == **right);
                                assert(self.upcoming() =~= before.upcoming());
                            }
                        },
                    }
                },
                None => {
                    let ghost before = *self;
                    match self.todo.pop() {
                        Some(tree) => {
                            proof {
                                assert(before.todo@.drop_last() =~= self.todo@);
                            }
                            self.current = Some(tree);
                        },
                        None => {
                            return None;
                        },
                    }
                },
            }
        }
    }
}

impl<'a, A> vstd::std_specs::iter::IteratorSpecImpl for TreeIterator<'a, A> {
    open spec fn obeys_prophetic_iter_laws(&self) -> bool {
        true
    }

    open spec fn remaining(&self) -> Seq<&'a A> {
        self.upcoming().map_values(|value: A| &value)
    }

    open spec fn will_return_none(&self) -> bool {
        true
    }

    open spec fn decrease(&self) -> Option<nat> {
        Some(self.upcoming().len())
    }

    open spec fn initial_value_relation(&self, init: &Self) -> bool {
        init.upcoming() == self.upcoming()
    }

    open spec fn peek(&self, index: int) -> Option<&'a A> {
        if 0 <= index < self.upcoming().len() {
            Some(&self.upcoming()[index])
        } else {
            None
        }
    }
}

impl<'a, A> IntoIterator for &'a Tree<A> {
    type Item = &'a A;

    type IntoIter = TreeIterator<'a, A>;

    /// An iterator over the leaves of the tree, from left to right.
    fn into_iter(self) -> (iterator: TreeIterator<'a, A>)
        ensures
            iterator.upcoming() == self.leaves(),
    {
        self.iter()
    }
}

/// The next leaf value of `iterator`, or `None` when every leaf has been
/// handed out.
pub fn advance<'a, A>(iterator: &mut TreeIterator<'a, A>) -> (item: Option<&'a A>)
    ensures
        match item {
            Some(value) => {
                &&& old(iterator).upcoming().len() > 0
                &&& *value == old(iterator).upcoming()[0]
                &&& final(iterator).upcoming() == old(iterator).upcoming().skip(1)
            },
            None => {
                &&& old(iterator).upcoming().len() == 0
                &&& final(iterator).current is None
                &&& final(iterator).todo@.len() == 0
            },
        },
{
    iterator.next()
}

impl Tree<i32> {
    /// The sum of the values in the leaves, added up from left to right.
    pub fn sum(&self) -> (result: i32)
        requires
            sums_fit(self.leaves()),
        ensures
            result == total(self.leaves()),
    {
        let mut result: i32 = 0;
        assert(self.leaves().take(0) =~= Seq::<i32>::empty());
        for value in it: self.iter()
            invariant
                sums_fit(self.leaves()),
                it.seq().len() == self.leaves().len(),
                forall|i: int| 0 <= i < it.seq().len() ==> *#[trigger] it.seq()[i] == self.leaves()[i],
                result == total(self.leaves().take(it.index())),
        {
            proof {
                let next = self.leaves().take(it.index() + 1);
                assert(next.drop_last() =~= self.leaves().take(it.index()));
                assert(next.last() == *value);
                assert(i32::MIN <= total(next) <= i32::MAX);
            }
            result = result + *value;
        }
        assert(self.leaves().take(self.leaves().len() as int) =~= self.leaves());
        result
    }
}

} // verus!
