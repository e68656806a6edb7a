//! A generic configuration document: nested tables of key/value pairs,
//! arrays, and text.  Arrays keep document order, which the `domains`
//! list preserves; table entries come in whatever order the reader
//! hands them over.  The schema validator walks a value of this type;
//! the mathematical model is `SpecNode`.
//!
//! A scalar that the schema can never accept (an integer, a float, a
//! boolean, a datetime) is kept only as the marker `Scalar`: every such
//! value is a type error wherever the schema expects text, a table or an
//! array.

use vstd::prelude::*;

verus! {

broadcast use vstd::std_specs::vec::group_vec_axioms, vstd::seq::group_seq_axioms;

/// Mathematical model of a document node.
pub enum SpecNode {
    Text(Seq<char>),
    Array(Seq<SpecNode>),
    Table(Seq<SpecPair>),
    Scalar,
}

/// Mathematical model of one table entry.
pub struct SpecPair {
    pub key: Seq<char>,
    pub value: SpecNode,
}

/// One key/value entry of a document table.
pub struct TomlPair {
    pub key: String,
    pub value: TomlNode,
}

/// A document node: text, an array, a table, or an unusable scalar.
pub enum TomlNode {
    Text(String),
    Array(Vec<TomlNode>),
    Table(Vec<TomlPair>),
    Scalar,
}

pub open spec fn node_view(v: TomlNode) -> SpecNode
    decreases v,
{
    match v {
        TomlNode::Text(s) => SpecNode::Text(s@),
        TomlNode::Array(items) => SpecNode::Array(nodes_view(items@)),
        TomlNode::Table(pairs) => SpecNode::Table(pairs_view(pairs@)),
        TomlNode::Scalar => SpecNode::Scalar,
    }
}

pub open spec fn nodes_view(items: Seq<TomlNode>) -> Seq<SpecNode>
    decreases items,
{
    if items.len() == 0 {
        Seq::empty()
    } else {
        seq![node_view(items[0])] + nodes_view(items.subrange(1, items.len() as int))
    }
}

pub open spec fn pairs_view(pairs: Seq<TomlPair>) -> Seq<SpecPair>
    decreases pairs,
{
    if pairs.len() == 0 {
        Seq::empty()
    } else {
        seq![pair_view(pairs[0])] + pairs_view(pairs.subrange(1, pairs.len() as int))
    }
}

pub open spec fn pair_view(p: TomlPair) -> SpecPair
    decreases p,
{
    SpecPair { key: p.key@, value: node_view(p.value) }
}

impl DeepView for TomlNode {
    type V = SpecNode;

    open spec fn deep_view(&self) -> SpecNode {
        node_view(*self)
    }
}

impl DeepView for TomlPair {
    type V = SpecPair;

    open spec fn deep_view(&self) -> SpecPair {
        pair_view(*self)
    }
}

pub broadcast proof fn lemma_nodes_view_len(items: Seq<TomlNode>)
    ensures
        #[trigger] nodes_view(items).len() == items.len(),
    decreases items,
{
    if items.len() != 0 {
        lemma_nodes_view_len(items.subrange(1, items.len() as int));
    }
}

pub broadcast proof fn lemma_nodes_view_index(items: Seq<TomlNode>, i: int)
    requires
        0 <= i < items.len(),
    ensures
        nodes_view(items).len() == items.len(),
        #[trigger] nodes_view(items)[i] == node_view(items[i]),
    decreases items,
{
    lemma_nodes_view_len(items);
    if i > 0 {
        lemma_nodes_view_index(items.subrange(1, items.len() as int), i - 1);
    }
}

pub broadcast proof fn lemma_pairs_view_len(pairs: Seq<TomlPair>)
    ensures
        #[trigger] pairs_view(pairs).len() == pairs.len(),
    decreases pairs,
{
    if pairs.len() != 0 {
        lemma_pairs_view_len(pairs.subrange(1, pairs.len() as int));
    }
}

pub broadcast proof fn lemma_pairs_view_index(pairs: Seq<TomlPair>, i: int)
    requires
        0 <= i < pairs.len(),
    ensures
        pairs_view(pairs).len() == pairs.len(),
        #[trigger] pairs_view(pairs)[i] == pair_view(pairs[i]),
    decreases pairs,
{
    lemma_pairs_view_len(pairs);
    if i > 0 {
        lemma_pairs_view_index(pairs.subrange(1, pairs.len() as int), i - 1);
    }
}

/// The value under the first entry of `pairs` whose key is `k`, if any.
pub open spec fn spec_lookup(pairs: Seq<SpecPair>, k: Seq<char>) -> Option<SpecNode>
    decreases pairs.len(),
{
    if pairs.len() == 0 {
        None
    } else if pairs[0].key == k {
        Some(pairs[0].value)
    } else {
        spec_lookup(pairs.skip(1), k)
    }
}

/// The first key of `pairs` that is not among `allowed`, if any.
pub open spec fn spec_first_unknown(pairs: Seq<SpecPair>, allowed: Seq<Seq<char>>) -> Option<
    Seq<char>,
>
    decreases pairs.len(),
{
    if pairs.len() == 0 {
        None
    } else if !allowed.contains(pairs[0].key) {
        Some(pairs[0].key)
    } else {
        spec_first_unknown(pairs.skip(1), allowed)
    }
}

/// Looks `k` up among `pairs`, returning the value under the first entry
/// whose key matches.
pub fn lookup<'a>(pairs: &'a Vec<TomlPair>, k: &str) -> (r: Option<&'a TomlNode>)
    ensures
        match r {
            Some(v) => spec_lookup(pairs_view(pairs@), k@) == Some(v.deep_view()),
            None => spec_lookup(pairs_view(pairs@), k@) is None,
        },
{
    broadcast use lemma_pairs_view_index;

    let ghost pv = pairs_view(pairs@);
    proof {
        lemma_pairs_view_len(pairs@);
        assert(pv.skip(0) =~= pv);
    }
    let n: usize = pairs.len();
    for i in 0..n
        invariant
            n == pairs.len(),
            pv == pairs_view(pairs@),
            pv.len() == n,
            spec_lookup(pv, k@) == spec_lookup(pv.skip(i as int), k@),
    {
        proof {
            lemma_pairs_view_index(pairs@, i as int);
            assert(pv.skip(i as int)[0] == pv[i as int]);
        }
        if crate::text::str_eq(pairs[i].key.as_str(), k) {
            return Some(&pairs[i].value);
        }
        proof {
            assert(pv.skip(i as int).skip(1) =~= pv.skip(i as int + 1));
        }
    }
    proof {
        assert(pv.skip(n as int) =~= Seq::<SpecPair>::empty());
    }
    None
}

/// Looks for a key of `pairs` that is not among `allowed`, returning the
/// first such key.
pub fn first_unknown(pairs: &Vec<TomlPair>, allowed: &Vec<&'static str>) -> (r: Option<String>)
    ensures
        match r {
            Some(k) => spec_first_unknown(pairs_view(pairs@), allowed.deep_view()) == Some(k@),
            None => spec_first_unknown(pairs_view(pairs@), allowed.deep_view()) is None,
        },
{
    broadcast use lemma_pairs_view_index;

    let ghost pv = pairs_view(pairs@);
    proof {
        lemma_pairs_view_len(pairs@);
        assert(pv.skip(0) =~= pv);
    }
    let n: usize = pairs.len();
    for i in 0..n
        invariant
            n == pairs.len(),
            pv == pairs_view(pairs@),
            pv.len() == n,
            spec_first_unknown(pv, allowed.deep_view()) == spec_first_unknown(
                pv.skip(i as int),
                allowed.deep_view(),
            ),
    {
        proof {
            lemma_pairs_view_index(pairs@, i as int);
            assert(pv.skip(i as int)[0] == pv[i as int]);
        }
        if !key_is_allowed(&pairs[i].key, allowed) {
            return Some(pairs[i].key.clone());
        }
        proof {
            assert(pv.skip(i as int).skip(1) =~= pv.skip(i as int + 1));
        }
    }
    proof {
        assert(pv.skip(n as int) =~= Seq::<SpecPair>::empty());
    }
    None
}

fn key_is_allowed(key: &String, allowed: &Vec<&'static str>) -> (r: bool)
    ensures
        r == allowed.deep_view().contains(key@),
{
    let n: usize = allowed.len();
    for i in 0..n
        invariant
            n == allowed.len(),
            forall|j: int| 0 <= j < i ==> allowed.deep_view()[j] != key@,
    {
        if crate::text::str_eq(key.as_str(), allowed[i]) {
            assert(allowed.deep_view()[i as int] == key@);
            return true;
        }
    }
    assert(forall|j: int| 0 <= j < allowed.deep_view().len() ==> allowed.deep_view()[j] != key@);
    false
}

} // verus!
