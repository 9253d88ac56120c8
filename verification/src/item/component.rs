//! Item components. An item component is declared through the component
//! grammar and constructed as a [`crate::instance::ComponentInstance`];
//! its serialized entry is carried here.

use crate::instance::{component_entry_text, ComponentInstance};
use vstd::prelude::*;
use vstd::string::StringExecFns;

verus! {

/// A record that serializes to one tagged entry of an item's components.
pub trait ItemComponent {
    /// The serialized entry.
    spec fn serial_text(&self) -> Seq<char>;

    fn serialize(&self) -> (r: String)
        ensures
            r@ == self.serial_text(),
    ;
}

/// One component of an item.
#[derive(Debug)]
pub enum ItemComponentKind {
    Custom(String),
}

/// The serialized entry of an item component.
pub open spec fn item_kind_text(c: ItemComponentKind) -> Seq<char> {
    match c {
        ItemComponentKind::Custom(s) => s@,
    }
}

/// The serialized entries of an item component list, in order.
pub open spec fn item_kinds_texts(cs: Seq<ItemComponentKind>) -> Seq<Seq<char>> {
    Seq::new(cs.len(), |i: int| item_kind_text(cs[i]))
}

impl ItemComponentKind {
    /// Wraps a component constructed from a declaration: its entry is the
    /// instance's serialization.
    pub fn custom(inst: &ComponentInstance) -> (r: Self)
        ensures
            item_kind_text(r) == component_entry_text(inst.tag@, inst.transparent, inst.fields@),
    {
        ItemComponentKind::Custom(inst.serialize())
    }

    /// Copies the component.
    pub fn duplicate(&self) -> (r: Self)
        ensures
            item_kind_text(r) == item_kind_text(*self),
    {
        match self {
            ItemComponentKind::Custom(s) => ItemComponentKind::Custom(s.clone()),
        }
    }
}

impl ItemComponent for ItemComponentKind {
    open spec fn serial_text(&self) -> Seq<char> {
        item_kind_text(*self)
    }

    fn serialize(&self) -> (r: String) {
        match self {
            ItemComponentKind::Custom(s) => s.clone(),
        }
    }
}

/// Copies an item component list, entry texts preserved.
pub fn clone_item_components(cs: &Vec<ItemComponentKind>) -> (r: Vec<ItemComponentKind>)
    ensures
        item_kinds_texts(r@) == item_kinds_texts(cs@),
{
    let mut out: Vec<ItemComponentKind> = Vec::new();
    let mut i: usize = 0;
    while i < cs.len()
        invariant
            i <= cs@.len(),
            out@.len() == i,
            forall|j: int| 0 <= j < i ==> item_kind_text(out@[j]) == item_kind_text(cs@[j]),
        decreases cs@.len() - i,
    {
        out.push(cs[i].duplicate());
        i = i + 1;
    }
    proof {
        assert(item_kinds_texts(out@) =~= item_kinds_texts(cs@));
    }
    out
}

/// Serializes each item component of a list, in order.
pub fn serialize_item_components(cs: &Vec<ItemComponentKind>) -> (r: Vec<String>)
    ensures
        crate::text::texts_view(r@) == item_kinds_texts(cs@),
{
    let mut out: Vec<String> = Vec::new();
    let mut i: usize = 0;
    while i < cs.len()
        invariant
            i <= cs@.len(),
            out@.len() == i,
            forall|j: int| 0 <= j < i ==> out@[j]@ == item_kind_text(cs@[j]),
        decreases cs@.len() - i,
    {
        out.push(cs[i].serialize());
        i = i + 1;
    }
    proof {
        assert(crate::text::texts_view(out@) =~= item_kinds_texts(cs@));
    }
    out
}

} // verus!
