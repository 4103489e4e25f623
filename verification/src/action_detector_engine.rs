//! Which actions the elements of a window tell of.

use vstd::prelude::*;
use vstd::string::*;
use vstd::std_specs::iter::IteratorSpec;
use crate::element_details::{lemma_trees_index, lemma_trees_len, tree, trees, ElementDetails, ElementTree};

verus! {

/// What tells of one action: an element of the given control type, inside
/// one of the sections, whose text holds one of the keywords.
#[derive(Clone, Debug, PartialEq, Eq)]
pub struct ActionIndicator {
    pub action: String,
    pub keywords: Vec<String>,
    pub ctrl_typ: String,
    pub sections: Vec<String>,
}

/// `needle` stands in `text` from place `at` on.
pub open spec fn occurs_at(needle: Seq<char>, text: Seq<char>, at: int) -> bool {
    0 <= at && at + needle.len() <= text.len() && text.subrange(at, at + needle.len()) == needle
}

/// `needle` stands somewhere in `text`.
pub open spec fn is_substring(needle: Seq<char>, text: Seq<char>) -> bool {
    exists|at: int| occurs_at(needle, text, at)
}

/// One of the needles stands somewhere in `text`.
pub open spec fn any_within(needles: Seq<String>, text: Seq<char>) -> bool {
    exists|k: int| 0 <= k < needles.len() && is_substring(#[trigger] needles[k]@, text)
}

/// The indicator tells of its action at an element with this control type
/// and text, below the element of this name.
pub open spec fn indicates(
    indicator: ActionIndicator,
    ctrl_typ: Seq<char>,
    parent_name: Seq<char>,
    text: Seq<char>,
) -> bool {
    &&& indicator.ctrl_typ@ == ctrl_typ
    &&& any_within(indicator.sections@, parent_name)
    &&& any_within(indicator.keywords@, text)
}

/// The actions that the indicators tell of at one element, in the order of
/// the indicators.
pub open spec fn actions_at(
    indicators: Seq<ActionIndicator>,
    ctrl_typ: Seq<char>,
    parent_name: Seq<char>,
    text: Seq<char>,
) -> Seq<Seq<char>>
    decreases indicators.len(),
{
    if indicators.len() == 0 {
        Seq::empty()
    } else {
        let before = actions_at(indicators.drop_last(), ctrl_typ, parent_name, text);
        if indicates(indicators.last(), ctrl_typ, parent_name, text) {
            before.push(indicators.last().action@)
        } else {
            before
        }
    }
}

/// The name under which the elements inside an element are looked at: its
/// own, or, if it has none, the one it was looked at under.
pub open spec fn inherited(name: Seq<char>, parent_name: Seq<char>) -> Seq<char> {
    if name.len() == 0 {
        parent_name
    } else {
        name
    }
}

/// The actions that the indicators tell of in a tree that is looked at
/// under `parent_name`: those at its root, then those in each tree below
/// it, in their order.
pub open spec fn actions_in(
    t: ElementTree,
    parent_name: Seq<char>,
    indicators: Seq<ActionIndicator>,
) -> Seq<Seq<char>>
    decreases t, 1int,
{
    actions_at(indicators, t.ctrl_typ, parent_name, t.text) + actions_below(
        t.childrens,
        inherited(t.name, parent_name),
        indicators,
    )
}

/// The actions that the indicators tell of in a list of trees.
pub open spec fn actions_below(
    children: Seq<ElementTree>,
    parent_name: Seq<char>,
    indicators: Seq<ActionIndicator>,
) -> Seq<Seq<char>>
    decreases children, 0int,
{
    if children.len() == 0 {
        Seq::empty()
    } else {
        actions_below(children.drop_last(), parent_name, indicators) + actions_in(
            children.last(),
            parent_name,
            indicators,
        )
    }
}

/// The texts of a list, each as a sequence of characters.
pub open spec fn names_view(names: Seq<String>) -> Seq<Seq<char>> {
    names.map_values(|name: String| name@)
}

/// A list without its repetitions: of each text, the first occurrence.
pub open spec fn distinct(names: Seq<Seq<char>>) -> Seq<Seq<char>>
    decreases names.len(),
{
    if names.len() == 0 {
        Seq::empty()
    } else {
        let before = distinct(names.drop_last());
        if before.contains(names.last()) {
            before
        } else {
            before.push(names.last())
        }
    }
}

/// The characters of a text.
pub fn chars_of(text: &str) -> (chars: Vec<char>)
    ensures
        chars@ == text@,
{
    broadcast use {axiom_spec_iter, next_postcondition};

    let total: usize = text.unicode_len();
    let mut chars: Vec<char> = Vec::new();
    let mut rest = text.chars();
    while chars.len() < total
        invariant
            total == text@.len(),
            rest.obeys_prophetic_iter_laws(),
            chars@ + rest.remaining() == text@,
        decreases total - chars.len(),
    {
        match rest.next() {
            Some(c) => {
                chars.push(c);
                assert(chars@ + rest.remaining() =~= text@);
            },
            None => {
                assert(chars@ =~= text@);
            },
        }
    }
    assert(chars@ =~= text@);
    chars
}

fn stands_at(needle: &Vec<char>, text: &Vec<char>, at: usize) -> (r: bool)
    requires
        at + needle.len() <= text.len(),
    ensures
        r == occurs_at(needle@, text@, at as int),
{
    let mut j: usize = 0;
    while j < needle.len()
        invariant
            j <= needle.len(),
            at + needle.len() <= text.len(),
            forall|k: int| 0 <= k < j ==> text@[at + k] == needle@[k],
        decreases needle.len() - j,
    {
        if text[at + j] != needle[j] {
            assert(text@.subrange(at as int, at + needle@.len())[j as int] == text@[at + j]);
            return false;
        }
        j = j + 1;
    }
    assert(text@.subrange(at as int, at + needle@.len()) =~= needle@);
    true
}

/// Whether `needle` stands somewhere in `text`.
pub fn contains(text: &Vec<char>, needle: &Vec<char>) -> (r: bool)
    ensures
        r == is_substring(needle@, text@),
{
    if needle.len() > text.len() {
        return false;
    }
    let last: usize = text.len() - needle.len();
    let mut at: usize = 0;
    while at < last
        invariant
            last == text.len() - needle.len(),
            at <= last,
            forall|k: int| 0 <= k < at ==> !occurs_at(needle@, text@, k),
        decreases last - at,
    {
        if stands_at(needle, text, at) {
            return true;
        }
        at = at + 1;
    }
    stands_at(needle, text, last)
}

fn any_contained(needles: &Vec<String>, text: &Vec<char>) -> (r: bool)
    ensures
        r == any_within(needles@, text@),
{
    let mut k: usize = 0;
    while k < needles.len()
        invariant
            k <= needles.len(),
            forall|i: int| 0 <= i < k ==> !is_substring(#[trigger] needles@[i]@, text@),
        decreases needles.len() - k,
    {
        let needle = chars_of(needles[k].as_str());
        if contains(text, &needle) {
            return true;
        }
        k = k + 1;
    }
    false
}

/// Finds the actions that the indicators tell of in an element and in
/// everything below it. The element is looked at under `parent_name`, the
/// name of the nearest element above it that has one. An action is listed
/// for an element exactly where the control type of the indicator is that
/// of the element, one of its sections stands in that name, and one of its
/// keywords stands in the text of the element.
pub fn find_actions_in_element(
    element: &ElementDetails,
    parent_name: &str,
    indicators: &Vec<ActionIndicator>,
) -> (actions: Vec<String>)
    ensures
        names_view(actions@) == actions_in(element@, parent_name@, indicators@),
    decreases element,
{
    let mut actions: Vec<String> = Vec::new();
    let text = chars_of(element.text.as_str());
    let above = chars_of(parent_name);
    let mut i: usize = 0;
    assert(indicators@.take(0) =~= Seq::<ActionIndicator>::empty());
    assert(names_view(actions@) =~= Seq::<Seq<char>>::empty());
    while i < indicators.len()
        invariant
            i <= indicators.len(),
            text@ == element.text@,
            above@ == parent_name@,
            names_view(actions@) == actions_at(
                indicators@.take(i as int),
                element.ctrl_typ@,
                parent_name@,
                element.text@,
            ),
        decreases indicators.len() - i,
    {
        let indicator = &indicators[i];
        let ghost grown = indicators@.take(i + 1);
        assert(grown.drop_last() =~= indicators@.take(i as int));
        assert(grown.last() == indicators@[i as int]);
        if element.ctrl_typ == indicator.ctrl_typ && any_contained(&indicator.sections, &above)
            && any_contained(&indicator.keywords, &text) {
            let ghost before = names_view(actions@);
            actions.push(indicator.action.clone());
            assert(names_view(actions@) =~= before.push(indicator.action@));
        }
        i = i + 1;
    }
    assert(indicators@.take(i as int) =~= indicators@);
    let below: &str = if element.name.as_str().is_empty() {
        parent_name
    } else {
        element.name.as_str()
    };
    let ghost at_root = names_view(actions@);
    let ghost children = trees(element.childrens@);
    let mut c: usize = 0;
    proof {
        lemma_trees_len(element.childrens@);
        assert(children.take(0) =~= Seq::<ElementTree>::empty());
        assert(names_view(actions@) =~= at_root + actions_below(children.take(0), below@, indicators@));
    }
    while c < element.childrens.len()
        invariant
            c <= element.childrens.len(),
            children == trees(element.childrens@),
            children.len() == element.childrens@.len(),
            below@ == inherited(element.name@, parent_name@),
            names_view(actions@) == at_root + actions_below(children.take(c as int), below@, indicators@),
        decreases element.childrens.len() - c,
    {
        let child = &element.childrens[c];
        proof {
            lemma_trees_index(element.childrens@, c as int);
            let grown = children.take(c + 1);
            assert(grown.drop_last() =~= children.take(c as int));
            assert(grown.last() == tree(*child));
            assert(decreases_to!(element => element.childrens));
            assert(decreases_to!(element.childrens => element.childrens@));
            assert(decreases_to!(element.childrens@ => element.childrens@[c as int]));
        }
        let mut found = find_actions_in_element(child, below, indicators);
        let ghost before = names_view(actions@);
        let ghost added = names_view(found@);
        actions.append(&mut found);
        assert(names_view(actions@) =~= before + added);
        assert(before + added =~= at_root + actions_below(children.take(c + 1), below@, indicators@));
        c = c + 1;
    }
    assert(children.take(c as int) =~= children);
    actions
}

fn listed(names: &Vec<String>, name: &String) -> (r: bool)
    ensures
        r == names_view(names@).contains(name@),
{
    let mut k: usize = 0;
    while k < names.len()
        invariant
            k <= names.len(),
            forall|i: int| 0 <= i < k ==> names_view(names@)[i] != name@,
        decreases names.len() - k,
    {
        if names[k] == *name {
            assert(names_view(names@)[k as int] == name@);
            return true;
        }
        k = k + 1;
    }
    false
}

/// Names each action once that the indicators tell of in the tree of a
/// window, in the order in which they are first found.
pub fn analyze_structured_output(structured_output: &ElementDetails, indicators: &Vec<ActionIndicator>) -> (detected: Vec<
    String,
>)
    ensures
        names_view(detected@) == distinct(actions_in(structured_output@, Seq::<char>::empty(), indicators@)),
        names_view(detected@).no_duplicates(),
        forall|name: Seq<char>|
            names_view(detected@).contains(name) <==> actions_in(
                structured_output@,
                Seq::<char>::empty(),
                indicators@,
            ).contains(name),
{
    let found = find_actions_in_element(structured_output, "", indicators);
    proof {
        reveal_strlit("");
        assert(""@ =~= Seq::<char>::empty());
    }
    let ghost all = names_view(found@);
    let mut detected: Vec<String> = Vec::new();
    let mut i: usize = 0;
    assert(all.take(0) =~= Seq::<Seq<char>>::empty());
    assert(names_view(detected@) =~= Seq::<Seq<char>>::empty());
    while i < found.len()
        invariant
            i <= found.len(),
            all == names_view(found@),
            names_view(detected@) == distinct(all.take(i as int)),
        decreases found.len() - i,
    {
        let ghost grown = all.take(i + 1);
        assert(grown.drop_last() =~= all.take(i as int));
        assert(grown.last() == found@[i as int]@);
        if !listed(&detected, &found[i]) {
            let ghost before = names_view(detected@);
            detected.push(found[i].clone());
            assert(names_view(detected@) =~= before.push(found@[i as int]@));
        }
        i = i + 1;
    }
    proof {
        assert(all.take(i as int) =~= all);
        lemma_distinct(all);
    }
    detected
}

/// A list without its repetitions repeats nothing and holds what the list
/// holds.
pub proof fn lemma_distinct(names: Seq<Seq<char>>)
    ensures
        distinct(names).no_duplicates(),
        forall|name: Seq<char>| distinct(names).contains(name) <==> names.contains(name),
    decreases names.len(),
{
    if names.len() > 0 {
        let before = distinct(names.drop_last());
        lemma_distinct(names.drop_last());
        let last = names.last();
        assert forall|name: Seq<char>| distinct(names).contains(name) <==> names.contains(name) by {
            if names.contains(name) {
                let k: int = choose|k: int| 0 <= k < names.len() && names[k] == name;
                if k < names.len() - 1 {
                    assert(names.drop_last()[k] == name);
                    assert(names.drop_last().contains(name));
                }
            }
            if names.drop_last().contains(name) {
                let k: int = choose|k: int| 0 <= k < names.drop_last().len() && names.drop_last()[k] == name;
                assert(names[k] == name);
            }
            if !before.contains(last) {
                assert(before.push(last).last() == last);
                if before.contains(name) {
                    let k: int = choose|k: int| 0 <= k < before.len() && before[k] == name;
                    assert(before.push(last)[k] == name);
                }
            }
            assert(names[names.len() - 1] == last);
        }
    }
}

} // verus!
