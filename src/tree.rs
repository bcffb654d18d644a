use vstd::prelude::*;

use crate::element::{BinaryValue, Body, Element, Header};
use crate::elements::Id;

verus! {

broadcast use {vstd::seq::group_seq_axioms, vstd::std_specs::vec::group_vec_axioms};

/// A master element together with the elements it holds.
#[derive(Debug, PartialEq)]
pub struct MasterElement {
    pub header: Header,
    pub children: Vec<ElementTree>,
}

/// A node of the element tree: a plain element, or a master with its children.
#[derive(Debug, PartialEq)]
pub enum ElementTree {
    Normal(Element),
    Master(MasterElement),
}

/// Whether an element `child` may stand inside a master element `parent`: a
/// Cluster never stands in a Cluster, and the EBML header stands in nothing.
pub open spec fn can_be_child_of(child: Id, parent: Id) -> bool {
    !((child == Id::Cluster && parent == Id::Cluster) || child == Id::Ebml)
}

impl Id {
    /// Whether this element may stand inside the master element `other`.
    pub fn can_be_children_of(&self, other: &Id) -> (r: bool)
        ensures
            r == can_be_child_of(*self, *other),
    {
        !(matches!(self, Id::Ebml) || (matches!(self, Id::Cluster) && matches!(other, Id::Cluster)))
    }
}

/// The elements of a forest in stream order: each master is followed by the
/// elements it holds.
pub open spec fn flatten(trees: Seq<ElementTree>) -> Seq<Element>
    decreases trees,
{
    if trees.len() == 0 {
        Seq::empty()
    } else {
        let head = match trees[0] {
            ElementTree::Normal(e) => seq![e],
            ElementTree::Master(m) => seq![Element { header: m.header, body: Body::Master }]
                + flatten(m.children@),
        };
        head + flatten(trees.drop_first())
    }
}

/// Every element that is not a master has a known total size.
pub open spec fn sizes_known(elements: Seq<Element>) -> bool {
    forall|k: int|
        0 <= k < elements.len() && !(#[trigger] elements[k].body is Master)
            ==> elements[k].header.size is Some
}

proof fn lemma_flatten_push(trees: Seq<ElementTree>, t: ElementTree)
    ensures
        flatten(trees.push(t)) == flatten(trees) + flatten(seq![t]),
    decreases trees.len(),
{
    if trees.len() == 0 {
        assert(trees.push(t) =~= seq![t]);
        assert(flatten(trees) =~= Seq::<Element>::empty());
        assert(flatten(seq![t]) + Seq::<Element>::empty() =~= flatten(seq![t]));
        assert(flatten(trees) + flatten(seq![t]) =~= flatten(seq![t]));
    } else {
        assert(trees.push(t).drop_first() =~= trees.drop_first().push(t));
        lemma_flatten_push(trees.drop_first(), t);
        assert(trees.push(t)[0] == trees[0]);
        let head = match trees[0] {
            ElementTree::Normal(e) => seq![e],
            ElementTree::Master(m) => seq![Element { header: m.header, body: Body::Master }]
                + flatten(m.children@),
        };
        assert(flatten(trees.push(t)) == head + flatten(trees.drop_first().push(t)));
        assert(flatten(trees) == head + flatten(trees.drop_first()));
        assert(flatten(trees.push(t)) =~= flatten(trees) + flatten(seq![t]));
    }
}

proof fn lemma_flatten_single(t: ElementTree)
    ensures
        flatten(seq![t]) == match t {
            ElementTree::Normal(e) => seq![e],
            ElementTree::Master(m) => seq![Element { header: m.header, body: Body::Master }]
                + flatten(m.children@),
        },
{
    let s = seq![t];
    assert(s.drop_first() =~= Seq::<ElementTree>::empty());
    assert(flatten(s.drop_first()) =~= Seq::<Element>::empty());
    let head = match t {
        ElementTree::Normal(e) => seq![e],
        ElementTree::Master(m) => seq![Element { header: m.header, body: Body::Master }] + flatten(
            m.children@,
        ),
    };
    assert(head + Seq::<Element>::empty() =~= head);
}

impl BinaryValue {
    /// A copy of this value.
    pub fn duplicate(&self) -> (r: BinaryValue)
        ensures
            r == *self,
    {
        match self {
            BinaryValue::Standard(s) => BinaryValue::Standard(s.clone()),
            BinaryValue::SeekId(i) => BinaryValue::SeekId(*i),
            BinaryValue::SimpleBlock(b) => BinaryValue::SimpleBlock(*b),
            BinaryValue::Block(b) => BinaryValue::Block(*b),
            BinaryValue::Void => BinaryValue::Void,
            BinaryValue::Corrupted => BinaryValue::Corrupted,
        }
    }
}

impl Body {
    /// A copy of this body.
    pub fn duplicate(&self) -> (r: Body)
        ensures
            r == *self,
    {
        match self {
            Body::Master => Body::Master,
            Body::Unsigned(u) => Body::Unsigned(*u),
            Body::Signed(v) => Body::Signed(*v),
            Body::Float(f) => Body::Float(*f),
            Body::String(s) => Body::String(s.clone()),
            Body::Utf8(s) => Body::Utf8(s.clone()),
            Body::Date(d) => Body::Date(*d),
            Body::Binary(b) => Body::Binary(b.duplicate()),
        }
    }
}

impl Element {
    /// A copy of this element.
    pub fn duplicate(&self) -> (r: Element)
        ensures
            r == *self,
    {
        Element { header: self.header, body: self.body.duplicate() }
    }
}

/// What a child uses up of its master's body size: a master child its header,
/// any other child its total size.
pub open spec fn cost(c: Element) -> nat {
    if c.body is Master {
        c.header.header_size as nat
    } else {
        match c.header.size {
            Some(size) => size as nat,
            None => 0,
        }
    }
}

/// The body size of a master, `None` standing for an unknown size.
pub open spec fn budget_of(h: Header) -> Option<nat> {
    match h.body_size {
        Some(b) => Some(b as nat),
        None => None,
    }
}

/// What is left of a budget once a child has used `used` of it; an overrun
/// leaves nothing, an unknown size is never used up.
pub open spec fn after_child(left: Option<nat>, used: nat) -> Option<nat> {
    match left {
        Some(r) => Some(
            if used >= r {
                0
            } else {
                (r - used) as nat
            },
        ),
        None => None,
    }
}

/// Where the children of a master with identifier `parent` end in `s`,
/// scanning from `j` with `left` of its body size remaining: at the end of
/// `s`, once the budget is used up, or at the first element that may not be
/// its child.
pub open spec fn children_end(s: Seq<Element>, parent: Id, left: Option<nat>, j: int) -> int
    decreases s.len() - j,
{
    if j < 0 || j >= s.len() || left == Some(0nat) {
        j
    } else if !can_be_child_of(s[j].header.id, parent) {
        j
    } else {
        children_end(s, parent, after_child(left, cost(s[j])), j + 1)
    }
}

/// `trees` is the forest built from `els`: an element that is not a master
/// is a leaf; a master is a node whose children are the trees built from the
/// elements that `children_end` gives it, and the forest goes on after them.
pub open spec fn built_from(trees: Seq<ElementTree>, els: Seq<Element>) -> bool
    decreases els.len(),
{
    if els.len() == 0 {
        trees.len() == 0
    } else if trees.len() == 0 {
        false
    } else if els[0].body is Master {
        let j = children_end(els, els[0].header.id, budget_of(els[0].header), 1);
        if 1 <= j <= els.len() {
            match trees[0] {
                ElementTree::Master(m) => {
                    &&& m.header == els[0].header
                    &&& built_from(m.children@, els.subrange(1, j))
                    &&& built_from(trees.drop_first(), els.subrange(j, els.len() as int))
                },
                ElementTree::Normal(_) => false,
            }
        } else {
            false
        }
    } else {
        &&& trees[0] == ElementTree::Normal(els[0])
        &&& built_from(trees.drop_first(), els.drop_first())
    }
}

/// Builds the element trees of a sequence of elements in stream order. A
/// master takes the elements after it as children while its body size is not
/// used up (an unknown size is never used up), the next element may be its
/// child, and elements remain; a master child uses up its header size, any
/// other child its total size.
pub fn build_element_trees(elements: &[Element]) -> (r: Vec<ElementTree>)
    requires
        sizes_known(elements@),
    ensures
        built_from(r@, elements@),
        flatten(r@) == elements@,
    decreases elements@.len(),
{
    let mut trees: Vec<ElementTree> = Vec::new();
    let mut index: usize = 0;
    assert(elements@.subrange(0, 0) =~= Seq::<Element>::empty());
    assert(elements@.subrange(0, elements@.len() as int) =~= elements@);
    assert forall|rest: Seq<ElementTree>| built_from(rest, elements@.subrange(0, elements@.len() as int))
        implies #[trigger] built_from(trees@ + rest, elements@) by {
        assert(trees@ + rest =~= rest);
    }
    assert(flatten(trees@) =~= Seq::<Element>::empty());
    while index < elements.len()
        invariant
            index <= elements@.len(),
            sizes_known(elements@),
            flatten(trees@) == elements@.subrange(0, index as int),
            forall|rest: Seq<ElementTree>|
                built_from(rest, elements@.subrange(index as int, elements@.len() as int))
                    ==> #[trigger] built_from(trees@ + rest, elements@),
        decreases elements@.len() - index,
    {
        let ghost s = elements@.subrange(index as int, elements@.len() as int);
        let element = &elements[index];
        if element.body.is_master() {
            let mut remaining: Option<usize> = element.header.body_size;
            let mut used_up: bool = matches!(remaining, Some(0));
            let mut end: usize = index + 1;
            let ghost pid = element.header.id;
            let ghost start_end = children_end(s, pid, budget_of(element.header), 1);
            while end < elements.len() && !used_up
                invariant
                    index < end <= elements@.len(),
                    sizes_known(elements@),
                    s == elements@.subrange(index as int, elements@.len() as int),
                    pid == element.header.id,
                    used_up == (remaining == Some(0usize)),
                    start_end == children_end(
                        s,
                        pid,
                        match remaining {
                            Some(b) => Some(b as nat),
                            None => None,
                        },
                        end - index,
                    ),
                ensures
                    index < end <= elements@.len(),
                    sizes_known(elements@),
                    start_end == end - index,
                decreases elements@.len() - end,
            {
                let child = &elements[end];
                if !child.header.id.can_be_children_of(&element.header.id) {
                    break;
                }
                let used: usize = if child.body.is_master() {
                    child.header.header_size
                } else {
                    child.header.size.unwrap()
                };
                remaining = match remaining {
                    Some(left) => Some(
                        if used >= left {
                            0
                        } else {
                            left - used
                        },
                    ),
                    None => None,
                };
                used_up = matches!(remaining, Some(0));
                end = end + 1;
            }
            let ghost inner = elements@.subrange(index + 1, end as int);
            assert(sizes_known(inner)) by {
                assert forall|k: int|
                    0 <= k < inner.len() && !(#[trigger] inner[k].body is Master) implies inner[k].header.size is Some by {
                    assert(inner[k] == elements@[index + 1 + k]);
                }
            }
            let children = build_element_trees(&elements[index + 1..end]);
            let t = ElementTree::Master(MasterElement { header: element.header, children });
            proof {
                assert(start_end == end - index);
                assert(s.subrange(1, end - index) =~= inner);
                assert(s.subrange(end - index, s.len() as int) =~= elements@.subrange(
                    end as int,
                    elements@.len() as int,
                ));
                assert forall|rest: Seq<ElementTree>|
                    built_from(rest, elements@.subrange(end as int, elements@.len() as int))
                        implies #[trigger] built_from(trees@.push(t) + rest, elements@) by {
                    let ts = seq![t] + rest;
                    assert(ts[0] == t);
                    assert(ts.drop_first() =~= rest);
                    assert(built_from(ts, s));
                    assert(trees@.push(t) + rest =~= trees@ + ts);
                }
                lemma_flatten_push(trees@, t);
                lemma_flatten_single(t);
                assert(*element == Element { header: element.header, body: Body::Master });
                assert(elements@.subrange(0, end as int) =~= elements@.subrange(0, index as int)
                    + seq![*element] + inner);
            }
            trees.push(t);
            index = end;
        } else {
            let t = ElementTree::Normal(element.duplicate());
            proof {
                assert forall|rest: Seq<ElementTree>|
                    built_from(rest, elements@.subrange(index + 1, elements@.len() as int))
                        implies #[trigger] built_from(trees@.push(t) + rest, elements@) by {
                    let ts = seq![t] + rest;
                    assert(ts[0] == t);
                    assert(ts.drop_first() =~= rest);
                    assert(s.drop_first() =~= elements@.subrange(index + 1, elements@.len() as int));
                    assert(built_from(ts, s));
                    assert(trees@.push(t) + rest =~= trees@ + ts);
                }
                lemma_flatten_push(trees@, t);
                lemma_flatten_single(t);
                assert(elements@.subrange(0, index + 1) =~= elements@.subrange(0, index as int)
                    + seq![*element]);
            }
            trees.push(t);
            index = index + 1;
        }
    }
    assert(elements@.subrange(0, elements@.len() as int) =~= elements@);
    proof {
        let empty = Seq::<ElementTree>::empty();
        assert(elements@.subrange(elements@.len() as int, elements@.len() as int) =~= Seq::<
            Element,
        >::empty());
        assert(built_from(empty, Seq::<Element>::empty()));
        assert(built_from(trees@ + empty, elements@));
        assert(trees@ + empty =~= trees@);
    }
    trees
}

} // verus!
