//! Blocks: a typed identifier, a format version, and the components,
//! states and permutations that serialize into one block definition
//! document.

pub mod block_registry;
pub mod component;
pub mod permutation;
pub mod state;
pub mod utils;

use crate::block::component::{
    clone_components, kinds_texts, serialize_components, BlockComponentKind,
};
use crate::block::permutation::{
    clone_permutations, perms_texts, serialize_permutations, BlockPermutation,
};
use crate::block::state::{clone_states, serialize_states, states_texts, BlockStateKind};
use crate::text::{join_texts, push_join, texts_view};
use crate::vio::{Identifier, SemVer};
use vstd::prelude::*;
use vstd::string::StringExecFns;

verus! {

/// One custom block.
#[derive(Debug)]
pub struct Block {
    pub type_id: Identifier,
    pub format_version: SemVer,
    pub components: Vec<BlockComponentKind>,
    pub permutations: Vec<BlockPermutation>,
    pub states: Vec<BlockStateKind>,
}

/// The serialized block definition document.
pub open spec fn block_text(b: Block) -> Seq<char> {
    "{ \"format_version\": \""@ + b.format_version.text()
        + "\", \"minecraft:block\": { \"description\": { \"identifier\": \""@ + b.type_id.text()
        + "\", \"states\": {"@ + join_texts(states_texts(b.states@), ", "@) + "} }, \"components\": {"@
        + join_texts(kinds_texts(b.components@), ", "@) + "}, \"permutations\": ["@ + join_texts(
        perms_texts(b.permutations@),
        ", "@,
    ) + "] } }"@
}

impl Block {
    /// Serializes the whole block definition.
    pub fn serialize(&self) -> (r: String)
        ensures
            r@ == block_text(*self),
    {
        proof {
            reveal_strlit("{ \"format_version\": \"");
            reveal_strlit("\", \"minecraft:block\": { \"description\": { \"identifier\": \"");
            reveal_strlit("\", \"states\": {");
            reveal_strlit("} }, \"components\": {");
            reveal_strlit("}, \"permutations\": [");
            reveal_strlit("] } }");
        }
        let states = serialize_states(&self.states);
        let components = serialize_components(&self.components);
        let permutations = serialize_permutations(&self.permutations);
        let mut s = String::new();
        s.append("{ \"format_version\": \"");
        let fv = self.format_version.render();
        s.append(fv.as_str());
        s.append("\", \"minecraft:block\": { \"description\": { \"identifier\": \"");
        let id = self.type_id.render();
        s.append(id.as_str());
        s.append("\", \"states\": {");
        push_join(&mut s, &states, ", ");
        s.append("} }, \"components\": {");
        push_join(&mut s, &components, ", ");
        s.append("}, \"permutations\": [");
        push_join(&mut s, &permutations, ", ");
        s.append("] } }");
        assert(s@ =~= block_text(*self));
        s
    }

    /// A block with the given identifier, no components, states or
    /// permutations, at the current format version.
    pub fn new(type_id: Identifier) -> (r: Self)
        ensures
            r.type_id == type_id,
            r.format_version == (SemVer { major: 1, minor: 21, patch: 50, beta: false }),
            r.components@.len() == 0,
            r.permutations@.len() == 0,
            r.states@.len() == 0,
    {
        Self {
            type_id,
            states: Vec::new(),
            permutations: Vec::new(),
            components: Vec::new(),
            format_version: SemVer::current(),
        }
    }

    /// A copy of the block with the given components; the receiver stays
    /// untouched.
    pub fn using_components(&mut self, components: Vec<BlockComponentKind>) -> (r: Self)
        ensures
            *final(self) == *old(self),
            r.components@ == components@,
            r.type_id == old(self).type_id,
            r.format_version == old(self).format_version,
            states_texts(r.states@) == states_texts(old(self).states@),
            perms_texts(r.permutations@) == perms_texts(old(self).permutations@),
    {
        Block {
            type_id: self.type_id.duplicate(),
            format_version: self.format_version,
            components,
            permutations: clone_permutations(&self.permutations),
            states: clone_states(&self.states),
        }
    }

    /// A copy of the block with the given states; the receiver stays
    /// untouched.
    pub fn using_states(&mut self, states: Vec<BlockStateKind>) -> (r: Self)
        ensures
            *final(self) == *old(self),
            r.states@ == states@,
            r.type_id == old(self).type_id,
            r.format_version == old(self).format_version,
            kinds_texts(r.components@) == kinds_texts(old(self).components@),
            perms_texts(r.permutations@) == perms_texts(old(self).permutations@),
    {
        Block {
            type_id: self.type_id.duplicate(),
            format_version: self.format_version,
            components: clone_components(&self.components),
            permutations: clone_permutations(&self.permutations),
            states,
        }
    }

    /// A copy of the block with the given permutations; the receiver stays
    /// untouched.
    pub fn using_permutations(&mut self, permutations: Vec<BlockPermutation>) -> (r: Self)
        ensures
            *final(self) == *old(self),
            r.permutations@ == permutations@,
            r.type_id == old(self).type_id,
            r.format_version == old(self).format_version,
            kinds_texts(r.components@) == kinds_texts(old(self).components@),
            states_texts(r.states@) == states_texts(old(self).states@),
    {
        Block {
            type_id: self.type_id.duplicate(),
            format_version: self.format_version,
            components: clone_components(&self.components),
            permutations,
            states: clone_states(&self.states),
        }
    }

    /// A copy of the block with the given format version; the receiver
    /// stays untouched.
    pub fn using_format_version(&self, format_version: SemVer) -> (r: Self)
        ensures
            r.format_version == format_version,
            r.type_id == self.type_id,
            kinds_texts(r.components@) == kinds_texts(self.components@),
            states_texts(r.states@) == states_texts(self.states@),
            perms_texts(r.permutations@) == perms_texts(self.permutations@),
    {
        Block {
            type_id: self.type_id.duplicate(),
            format_version,
            components: clone_components(&self.components),
            permutations: clone_permutations(&self.permutations),
            states: clone_states(&self.states),
        }
    }

    /// The block's identifier.
    pub fn type_id(&self) -> (r: Identifier)
        ensures
            r == self.type_id,
    {
        self.type_id.duplicate()
    }
}

} // verus!
