//! The tree of the elements of a window, and its pruning.

use vstd::prelude::*;

verus! {

/// One element of a window, with the elements inside it.
#[derive(Debug, PartialEq, Eq)]
pub struct ElementDetails {
    pub name: String,
    pub ctrl_typ: String,
    pub bounding_rect: String,
    pub value: String,
    pub text: String,
    pub childrens: Vec<ElementDetails>,
}

/// An element as the contracts see it.
pub struct ElementTree {
    pub name: Seq<char>,
    pub ctrl_typ: Seq<char>,
    pub bounding_rect: Seq<char>,
    pub value: Seq<char>,
    pub text: Seq<char>,
    pub childrens: Seq<ElementTree>,
}

/// The tree of an element.
pub open spec fn tree(element: ElementDetails) -> ElementTree
    decreases element, 1int,
{
    ElementTree {
        name: element.name@,
        ctrl_typ: element.ctrl_typ@,
        bounding_rect: element.bounding_rect@,
        value: element.value@,
        text: element.text@,
        childrens: trees(element.childrens@),
    }
}

/// The trees of a list of elements, in the order of the list.
pub open spec fn trees(elements: Seq<ElementDetails>) -> Seq<ElementTree>
    decreases elements, 0int,
{
    if elements.len() == 0 {
        Seq::empty()
    } else {
        trees(elements.drop_last()).push(tree(elements.last()))
    }
}

impl View for ElementDetails {
    type V = ElementTree;

    open spec fn view(&self) -> ElementTree {
        tree(*self)
    }
}

/// An element is worth keeping if it has a text, a value, or elements
/// inside it.
pub open spec fn is_kept(t: ElementTree) -> bool {
    t.text.len() > 0 || t.value.len() > 0 || t.childrens.len() > 0
}

/// The element with everything pruned that lies below it: each element
/// inside it is pruned in turn, and stays only if it is then still worth
/// keeping. The element itself is never removed.
pub open spec fn cleaned(t: ElementTree) -> ElementTree
    decreases t, 1int,
{
    ElementTree { childrens: pruned(t.childrens), ..t }
}

/// A list of elements, each pruned, without those that are then not worth
/// keeping. The order of the others is kept.
pub open spec fn pruned(children: Seq<ElementTree>) -> Seq<ElementTree>
    decreases children, 0int,
{
    if children.len() == 0 {
        Seq::empty()
    } else {
        let last = cleaned(children.last());
        if is_kept(last) {
            pruned(children.drop_last()).push(last)
        } else {
            pruned(children.drop_last())
        }
    }
}

/// The tree of the element at a place of a list is the tree at that place.
pub proof fn lemma_trees_index(elements: Seq<ElementDetails>, i: int)
    requires
        0 <= i < elements.len(),
    ensures
        trees(elements).len() == elements.len(),
        trees(elements)[i] == tree(elements[i]),
    decreases elements.len(),
{
    lemma_trees_len(elements);
    if i < elements.len() - 1 {
        lemma_trees_index(elements.drop_last(), i);
    }
}

/// A list has as many trees as elements.
pub proof fn lemma_trees_len(elements: Seq<ElementDetails>)
    ensures
        trees(elements).len() == elements.len(),
    decreases elements.len(),
{
    if elements.len() > 0 {
        lemma_trees_len(elements.drop_last());
    }
}

impl ElementDetails {
    /// Prunes the tree below this element: an element with neither text nor
    /// value nor anything left inside it is removed, from the leaves up.
    pub fn clean_elements_tree(&mut self)
        ensures
            final(self)@ == cleaned(old(self)@),
        decreases *old(self),
    {
        let ghost before = self.childrens@;
        let mut waiting: Vec<ElementDetails> = Vec::new();
        while self.childrens.len() > 0
            invariant
                self.name == old(self).name,
                self.ctrl_typ == old(self).ctrl_typ,
                self.bounding_rect == old(self).bounding_rect,
                self.value == old(self).value,
                self.text == old(self).text,
                self.childrens@.len() + waiting@.len() == before.len(),
                self.childrens@ == before.take(self.childrens@.len() as int),
                forall|i: int| 0 <= i < waiting@.len() ==> waiting@[i] == before[before.len() - 1 - i],
            decreases self.childrens.len(),
        {
            let child = self.childrens.pop().unwrap();
            waiting.push(child);
        }
        let mut done: usize = 0;
        let total: usize = waiting.len();
        proof {
            lemma_trees_len(before);
            assert(before.take(0) =~= Seq::<ElementDetails>::empty());
        }
        while waiting.len() > 0
            invariant
                before == old(self).childrens@,
                self.name == old(self).name,
                self.ctrl_typ == old(self).ctrl_typ,
                self.bounding_rect == old(self).bounding_rect,
                self.value == old(self).value,
                self.text == old(self).text,
                total == before.len(),
                done + waiting@.len() == total,
                forall|i: int| 0 <= i < waiting@.len() ==> waiting@[i] == before[before.len() - 1 - i],
                trees(self.childrens@) == pruned(trees(before.take(done as int))),
            decreases waiting.len(),
        {
            let mut child = waiting.pop().unwrap();
            assert(child == before[done as int]);
            proof {
                assert(decreases_to!(*old(self) => old(self).childrens));
                assert(decreases_to!(old(self).childrens => old(self).childrens@));
                assert(decreases_to!(before => before[done as int]));
            }
            let ghost grown = before.take(done + 1);
            proof {
                assert(grown.drop_last() =~= before.take(done as int));
                assert(grown.last() == child);
                assert(trees(grown).drop_last() =~= trees(grown.drop_last()));
                assert(trees(grown).last() == tree(child));
            }
            child.clean_elements_tree();
            let keep = !child.text.as_str().is_empty() || !child.value.as_str().is_empty()
                || child.childrens.len() > 0;
            proof {
                lemma_trees_len(child.childrens@);
            }
            if keep {
                let ghost kept = self.childrens@;
                self.childrens.push(child);
                assert(self.childrens@.drop_last() =~= kept);
            }
            done = done + 1;
        }
        proof {
            assert(before.take(done as int) =~= before);
        }
    }
}

} // verus!
