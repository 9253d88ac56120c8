//! Block permutations: a Molang condition together with the components
//! that apply while it holds.

use crate::block::component::{
    clone_components, kinds_texts, serialize_components, BlockComponentKind,
};
use crate::text::{join_texts, push_join, texts_view};
use crate::vio::IntoText;
use vstd::prelude::*;
use vstd::string::StringExecFns;

verus! {

/// One conditional component set of a block.
#[derive(Debug)]
pub struct BlockPermutation {
    pub condition: String,
    pub components: Vec<BlockComponentKind>,
}

/// The serialized permutation: its condition, verbatim, and its component
/// entries.
pub open spec fn perm_text(p: BlockPermutation) -> Seq<char> {
    "{\"condition\": \""@ + p.condition@ + "\", \"components\": {"@ + join_texts(
        kinds_texts(p.components@),
        ", "@,
    ) + "}}"@
}

/// The serialized permutations of a list, in order.
pub open spec fn perms_texts(ps: Seq<BlockPermutation>) -> Seq<Seq<char>> {
    Seq::new(ps.len(), |i: int| perm_text(ps[i]))
}

impl BlockPermutation {
    pub fn new<S: IntoText>(condition: S, components: Vec<BlockComponentKind>) -> (r: Self)
        ensures
            r.condition@ == condition.chars(),
            r.components@ == components@,
    {
        Self { components, condition: condition.to_text() }
    }

    /// Serializes the permutation.
    pub fn serialize(&self) -> (r: String)
        ensures
            r@ == perm_text(*self),
    {
        proof {
            reveal_strlit("{\"condition\": \"");
            reveal_strlit("\", \"components\": {");
            reveal_strlit("}}");
        }
        let parts = serialize_components(&self.components);
        let mut s = String::new();
        s.append("{\"condition\": \"");
        s.append(self.condition.as_str());
        s.append("\", \"components\": {");
        push_join(&mut s, &parts, ", ");
        s.append("}}");
        assert(s@ =~= perm_text(*self));
        s
    }

    /// Copies the permutation, its text preserved.
    pub fn duplicate(&self) -> (r: Self)
        ensures
            perm_text(r) == perm_text(*self),
            r.condition == self.condition,
    {
        let r = BlockPermutation {
            condition: self.condition.clone(),
            components: clone_components(&self.components),
        };
        r
    }
}

/// Copies a permutation list, entry texts preserved.
pub fn clone_permutations(ps: &Vec<BlockPermutation>) -> (r: Vec<BlockPermutation>)
    ensures
        perms_texts(r@) == perms_texts(ps@),
{
    let mut out: Vec<BlockPermutation> = Vec::new();
    let mut i: usize = 0;
    while i < ps.len()
        invariant
            i <= ps@.len(),
            out@.len() == i,
            forall|j: int| 0 <= j < i ==> perm_text(out@[j]) == perm_text(ps@[j]),
        decreases ps@.len() - i,
    {
        out.push(ps[i].duplicate());
        i = i + 1;
    }
    proof {
        assert(perms_texts(out@) =~= perms_texts(ps@));
    }
    out
}

/// Serializes each permutation of a list, in order.
pub fn serialize_permutations(ps: &Vec<BlockPermutation>) -> (r: Vec<String>)
    ensures
        texts_view(r@) == perms_texts(ps@),
{
    let mut out: Vec<String> = Vec::new();
    let mut i: usize = 0;
    while i < ps.len()
        invariant
            i <= ps@.len(),
            out@.len() == i,
            forall|j: int| 0 <= j < i ==> out@[j]@ == perm_text(ps@[j]),
        decreases ps@.len() - i,
    {
        out.push(ps[i].serialize());
        i = i + 1;
    }
    proof {
        assert(texts_view(out@) =~= perms_texts(ps@));
    }
    out
}

} // verus!
