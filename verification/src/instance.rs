//! The runtime behavior of an emitted component: a record value whose
//! serialization is one tagged entry of the surrounding document.
//!
//! An instance carries its serialization tag, the transparency flag and its
//! field values under their serialization names, in declaration order. Its
//! serialized form is `"tag": body`, where the body is the record's JSON
//! object — or, for a transparent single-field record, the bare JSON value
//! of that one field.

use crate::component::ComponentData;
use crate::json::{json_entries, json_text, push_json_entries_all, JsonValue};
use crate::text::push_char;
use vstd::prelude::*;
use vstd::string::StringExecFns;

verus! {

/// The serialized body of a component record: its JSON object, or the bare
/// value of its single field when the record is transparent.
pub open spec fn component_body_text(transparent: bool, fields: Seq<(String, JsonValue)>) -> Seq<
    char,
> {
    if transparent && fields.len() == 1 {
        json_text(fields[0].1)
    } else {
        seq!['{'] + json_entries(fields) + seq!['}']
    }
}

/// The serialized component entry: the tag, verbatim between double
/// quotes, a colon and one space, then the record body.
pub open spec fn component_entry_text(
    tag: Seq<char>,
    transparent: bool,
    fields: Seq<(String, JsonValue)>,
) -> Seq<char> {
    seq!['"'] + tag + seq!['"'] + ": "@ + component_body_text(transparent, fields)
}

/// A constructed component value.
pub struct ComponentInstance {
    pub tag: String,
    pub transparent: bool,
    pub fields: Vec<(String, JsonValue)>,
}

impl ComponentInstance {
    /// The constructed record of a declaration, one value per field, in
    /// declaration order: the generated constructor applied to `values`.
    pub fn instance_of(decl: &ComponentData, transparent: bool, values: Vec<JsonValue>) -> (r:
        ComponentInstance)
        requires
            values@.len() == decl@.props.len(),
        ensures
            r.tag@ == decl.property_id@,
            r.transparent == transparent,
            r.fields@.len() == decl@.props.len(),
            forall|i: int|
                0 <= i < decl@.props.len() ==> {
                    &&& (#[trigger] r.fields@[i]).0@ == decl@.props[i].property_id
                    &&& r.fields@[i].1 == values@[i]
                },
    {
        let ghost values0 = values@;
        let mut rest = values;
        let mut fields: Vec<(String, JsonValue)> = Vec::new();
        let mut i: usize = 0;
        while i < decl.props.len()
            invariant
                i <= decl.props@.len(),
                fields@.len() == i,
                values0.len() == decl@.props.len(),
                rest@ =~= values0.subrange(i as int, values0.len() as int),
                forall|j: int|
                    0 <= j < i ==> {
                        &&& (#[trigger] fields@[j]).0@ == decl@.props[j].property_id
                        &&& fields@[j].1 == values0[j]
                    },
            decreases decl.props@.len() - i,
        {
            let v = rest.remove(0);
            fields.push((decl.props[i].property_id.clone(), v));
            proof {
                assert(rest@ =~= values0.subrange(i as int + 1, values0.len() as int));
            }
            i = i + 1;
        }
        ComponentInstance { tag: decl.property_id.clone(), transparent, fields }
    }

    /// Serializes the instance as its tagged entry.
    pub fn serialize(&self) -> (r: String)
        ensures
            r@ == component_entry_text(self.tag@, self.transparent, self.fields@),
    {
        proof {
            reveal_strlit(": ");
        }
        let mut s = String::new();
        push_char(&mut s, '"');
        s.append(self.tag.as_str());
        push_char(&mut s, '"');
        s.append(": ");
        if self.transparent && self.fields.len() == 1 {
            crate::json::push_json(&mut s, &self.fields[0].1);
        } else {
            push_char(&mut s, '{');
            push_json_entries_all(&mut s, &self.fields);
            push_char(&mut s, '}');
        }
        assert(s@ =~= component_entry_text(self.tag@, self.transparent, self.fields@));
        s
    }
}

/// Serializes one component entry from its parts.
pub fn serialize_component_entry(tag: &str, transparent: bool, fields: &Vec<(String, JsonValue)>)
    -> (r: String)
    ensures
        r@ == component_entry_text(tag@, transparent, fields@),
{
    proof {
        reveal_strlit(": ");
    }
    let mut s = String::new();
    push_char(&mut s, '"');
    s.append(tag);
    push_char(&mut s, '"');
    s.append(": ");
    if transparent && fields.len() == 1 {
        crate::json::push_json(&mut s, &fields[0].1);
    } else {
        push_char(&mut s, '{');
        push_json_entries_all(&mut s, fields);
        push_char(&mut s, '}');
    }
    assert(s@ =~= component_entry_text(tag@, transparent, fields@));
    s
}

/// The serialized entry of a component that is not transparent opens with
/// its tag, exactly as declared: one double quote, the tag's characters
/// unaltered, and the closing quote, before the colon and the record body.
pub proof fn lemma_tag_fidelity(tag: Seq<char>, fields: Seq<(String, JsonValue)>)
    ensures
        component_entry_text(tag, false, fields).subrange(1, 1 + tag.len() as int) == tag,
        component_entry_text(tag, false, fields)[0] == '"',
        component_entry_text(tag, false, fields)[1 + tag.len() as int] == '"',
{
    let t = component_entry_text(tag, false, fields);
    assert(t.subrange(1, 1 + tag.len() as int) =~= tag);
}

/// A transparent single-field component serializes without an enclosing
/// object: after the tag, its body is exactly the inline JSON of that one
/// field's value.
pub proof fn lemma_transparent_flattening(tag: Seq<char>, fields: Seq<(String, JsonValue)>)
    requires
        fields.len() == 1,
    ensures
        component_entry_text(tag, true, fields) == seq!['"'] + tag + seq!['"'] + ": "@ + json_text(
            fields[0].1,
        ),
{
}

} // verus!
