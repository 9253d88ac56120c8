//! Items: a typed identifier, a format version and the components that
//! serialize into one item definition document.

pub mod component;
pub mod utils;

use crate::item::component::{
    clone_item_components, item_kinds_texts, serialize_item_components, ItemComponentKind,
};
use crate::text::{join_texts, push_join};
use crate::vio::{Identifier, SemVer};
use vstd::prelude::*;
use vstd::string::StrSliceExecFns;
use vstd::string::StringExecFns;

verus! {

/// One custom item.
#[derive(Debug)]
pub struct Item {
    pub type_id: Identifier,
    pub format_version: SemVer,
    pub components: Vec<ItemComponentKind>,
}

/// The serialized item definition document.
pub open spec fn item_text(it: Item) -> Seq<char> {
    "{ \"format_version\": \""@ + it.format_version.text()
        + "\", \"minecraft:item\": { \"description\": { \"identifier\": \""@ + it.type_id.text()
        + "\" }, \"components\": {"@ + join_texts(item_kinds_texts(it.components@), ", "@)
        + "} } }"@
}

impl Item {
    /// Serializes the whole item definition.
    pub fn serialize(&self) -> (r: String)
        ensures
            r@ == item_text(*self),
    {
        proof {
            reveal_strlit("{ \"format_version\": \"");
            reveal_strlit("\", \"minecraft:item\": { \"description\": { \"identifier\": \"");
            reveal_strlit("\" }, \"components\": {");
            reveal_strlit("} } }");
        }
        let components = serialize_item_components(&self.components);
        let mut s = String::new();
        s.append("{ \"format_version\": \"");
        let fv = self.format_version.render();
        s.append(fv.as_str());
        s.append("\", \"minecraft:item\": { \"description\": { \"identifier\": \"");
        let id = self.type_id.render();
        s.append(id.as_str());
        s.append("\" }, \"components\": {");
        push_join(&mut s, &components, ", ");
        s.append("} } }");
        assert(s@ =~= item_text(*self));
        s
    }

    /// An item with the given identifier and no components, at the current
    /// format version.
    pub fn new(type_id: Identifier) -> (r: Self)
        ensures
            r.type_id == type_id,
            r.format_version == (SemVer { major: 1, minor: 21, patch: 50, beta: false }),
            r.components@.len() == 0,
    {
        Item { type_id, components: Vec::new(), format_version: SemVer::current() }
    }

    /// Adds one component to the item and hands back a copy of the result.
    pub fn with_component(&mut self, component: ItemComponentKind) -> (r: Self)
        ensures
            final(self).type_id == old(self).type_id,
            final(self).format_version == old(self).format_version,
            final(self).components@ == old(self).components@.push(component),
            r.type_id == final(self).type_id,
            r.format_version == final(self).format_version,
            item_kinds_texts(r.components@) == item_kinds_texts(final(self).components@),
    {
        self.components.push(component);
        Item {
            type_id: self.type_id.duplicate(),
            format_version: self.format_version,
            components: clone_item_components(&self.components),
        }
    }

    /// A copy of the item with the given components; the receiver stays
    /// untouched.
    pub fn using_components(&mut self, components: Vec<ItemComponentKind>) -> (r: Self)
        ensures
            *final(self) == *old(self),
            r.components@ == components@,
            r.type_id == old(self).type_id,
            r.format_version == old(self).format_version,
    {
        Item {
            type_id: self.type_id.duplicate(),
            format_version: self.format_version,
            components,
        }
    }

    /// The item's identifier.
    pub fn type_id(&self) -> (r: Identifier)
        ensures
            r == self.type_id,
    {
        self.type_id.duplicate()
    }

    /// A copy of the item with the given identifier.
    pub fn using_type_id(&self, type_id: Identifier) -> (r: Self)
        ensures
            r.type_id == type_id,
            r.format_version == self.format_version,
            item_kinds_texts(r.components@) == item_kinds_texts(self.components@),
    {
        Item {
            type_id,
            format_version: self.format_version,
            components: clone_item_components(&self.components),
        }
    }

    /// A copy of the item with the given format version.
    pub fn using_format_version(&self, format_version: SemVer) -> (r: Self)
        ensures
            r.format_version == format_version,
            r.type_id == self.type_id,
            item_kinds_texts(r.components@) == item_kinds_texts(self.components@),
    {
        Item {
            type_id: self.type_id.duplicate(),
            format_version,
            components: clone_item_components(&self.components),
        }
    }
}

/// The characters of an atlas key: the identifier with every namespace
/// colon replaced by an underscore.
pub open spec fn atlas_key_text(id: Seq<char>) -> Seq<char> {
    Seq::new(
        id.len(),
        |i: int|
            if id[i] == ':' {
                '_'
            } else {
                id[i]
            },
    )
}

/// The atlas key of a rendered identifier: colons become underscores.
pub fn atlas_key(id: &str) -> (r: String)
    ensures
        r@ == atlas_key_text(id@),
{
    let n = id.unicode_len();
    let mut s = String::new();
    let mut i: usize = 0;
    while i < n
        invariant
            n == id@.len(),
            i <= n,
            s@ =~= atlas_key_text(id@).subrange(0, i as int),
        decreases n - i,
    {
        let c = id.get_char(i);
        if c == ':' {
            crate::text::push_char(&mut s, '_');
        } else {
            crate::text::push_char(&mut s, c);
        }
        proof {
            assert(s@ =~= atlas_key_text(id@).subrange(0, i as int + 1));
        }
        i = i + 1;
    }
    proof {
        assert(atlas_key_text(id@).subrange(0, n as int) =~= atlas_key_text(id@));
    }
    s
}

/// The item atlas document around its serialized entries.
#[derive(Debug)]
pub struct ItemAtlasTemplate {
    pub name: String,
    pub contents: String,
}

} // verus!
