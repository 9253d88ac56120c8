//! The default-value provider: collecting per-field default expressions
//! attached to a struct declaration, emitting the provider impl, and the
//! default-fill semantics an object literal relies on.
//!
//! The collector reads `field = expression` entries in order and keeps one
//! entry per field name, the later of two duplicates winning. The fill
//! step resolves every field of a target type: to the literal's bound value
//! where one is bound, and to the provider's value — the declared override,
//! or beneath it the type's native default — for exactly the others.

use crate::emit_text::tokens_text;
use crate::json::{clone_json, JsonV, JsonValue};
use crate::tokens::{clone_token_range, text_eq, Token};
use crate::vio::IntoText;
use vstd::pervasive::VecAdditionalExecFns;
use vstd::prelude::*;
use vstd::string::StringExecFns;

verus! {

/// The collected default declarations of one struct.
#[derive(Debug)]
pub struct ViolaDefaultDec {
    pub struct_ident: String,
    pub values: Vec<(String, Vec<Token>)>,
}

/// The key/value shapes of collected entries.
pub open spec fn entries_view(vs: Seq<(String, Vec<Token>)>) -> Seq<(Seq<char>, Seq<Token>)> {
    Seq::new(vs.len(), |i: int| (vs[i].0@, vs[i].1@))
}

/// The key/value shapes of bound values.
pub open spec fn bindings_view(vs: Seq<(String, JsonValue)>) -> Seq<(Seq<char>, JsonV)> {
    Seq::new(vs.len(), |i: int| (vs[i].0@, vs[i].1@))
}

/// The position of a key in the collected entries, if it is there.
pub open spec fn spec_find_key(acc: Seq<(Seq<char>, Seq<Token>)>, k: Seq<char>) -> Option<int>
    decreases acc.len(),
{
    if acc.len() == 0 {
        None
    } else if acc[0].0 == k {
        Some(0)
    } else {
        match spec_find_key(acc.subrange(1, acc.len() as int), k) {
            Some(i) => Some(i + 1),
            None => None,
        }
    }
}

/// One attribute entry added to the collection: a fresh key is appended, a
/// known key's value is overwritten in place.
pub open spec fn spec_upsert(
    acc: Seq<(Seq<char>, Seq<Token>)>,
    k: Seq<char>,
    v: Seq<Token>,
) -> Seq<(Seq<char>, Seq<Token>)> {
    match spec_find_key(acc, k) {
        Some(i) => acc.update(i, (k, v)),
        None => acc.push((k, v)),
    }
}

/// The whole collection, entries processed in order, the last duplicate
/// winning.
pub open spec fn spec_collect(
    acc: Seq<(Seq<char>, Seq<Token>)>,
    attrs: Seq<(Seq<char>, Seq<Token>)>,
) -> Seq<(Seq<char>, Seq<Token>)>
    decreases attrs.len(),
{
    if attrs.len() == 0 {
        acc
    } else {
        spec_collect(spec_upsert(acc, attrs[0].0, attrs[0].1), attrs.subrange(1, attrs.len() as int))
    }
}

proof fn lemma_find_key_bounds(acc: Seq<(Seq<char>, Seq<Token>)>, k: Seq<char>)
    ensures
        spec_find_key(acc, k) matches Some(i) ==> 0 <= i < acc.len() && acc[i].0 == k,
    decreases acc.len(),
{
    if acc.len() > 0 && acc[0].0 != k {
        lemma_find_key_bounds(acc.subrange(1, acc.len() as int), k);
    }
}

fn find_key(values: &Vec<(String, Vec<Token>)>, k: &str) -> (r: Option<usize>)
    ensures
        match r {
            Some(i) => spec_find_key(entries_view(values@), k@) == Some(i as int) && i
                < values@.len(),
            None => spec_find_key(entries_view(values@), k@) is None,
        },
{
    let ghost whole = entries_view(values@);
    proof {
        assert(whole.len() == values@.len());
        assert(whole.subrange(0, values@.len() as int) =~= whole);
    }
    let mut i: usize = 0;
    loop
        invariant
            i <= values@.len(),
            whole == entries_view(values@),
            spec_find_key(whole, k@) == match spec_find_key(
                whole.subrange(i as int, values@.len() as int),
                k@,
            ) {
                Some(j) => Some(j + i),
                None => None::<int>,
            },
        decreases values@.len() - i,
    {
        let ghost rest = whole.subrange(i as int, values@.len() as int);
        if i >= values.len() {
            proof {
                assert(rest =~= Seq::<(Seq<char>, Seq<Token>)>::empty());
            }
            return None;
        }
        proof {
            assert(rest[0] == whole[i as int]);
            assert(rest.subrange(1, rest.len() as int) =~= whole.subrange(
                i as int + 1,
                values@.len() as int,
            ));
        }
        if text_eq(values[i].0.as_str(), k) {
            return Some(i);
        }
        i = i + 1;
    }
}

/// Collects the attribute entries of a struct declaration into the
/// per-field defaults, processing them in order with the last duplicate
/// winning.
pub fn collect_defaults<S: IntoText>(struct_ident: S, attrs: &Vec<(String, Vec<Token>)>) -> (r:
    ViolaDefaultDec)
    ensures
        r.struct_ident@ == struct_ident.chars(),
        entries_view(r.values@) == spec_collect(Seq::empty(), entries_view(attrs@)),
{
    let ghost attrs_v = entries_view(attrs@);
    let mut values: Vec<(String, Vec<Token>)> = Vec::new();
    proof {
        assert(entries_view(values@) =~= Seq::<(Seq<char>, Seq<Token>)>::empty());
    }
    proof {
        assert(attrs_v.subrange(0, attrs@.len() as int) =~= attrs_v);
    }
    let mut i: usize = 0;
    while i < attrs.len()
        invariant
            i <= attrs@.len(),
            attrs_v == entries_view(attrs@),
            attrs_v.len() == attrs@.len(),
            spec_collect(Seq::empty(), attrs_v) == spec_collect(
                entries_view(values@),
                attrs_v.subrange(i as int, attrs@.len() as int),
            ),
        decreases attrs@.len() - i,
    {
        let ghost rest = attrs_v.subrange(i as int, attrs@.len() as int);
        proof {
            assert(rest[0] == attrs_v[i as int]);
            assert(rest.subrange(1, rest.len() as int) =~= attrs_v.subrange(
                i as int + 1,
                attrs@.len() as int,
            ));
        }
        let key = attrs[i].0.clone();
        let val = clone_token_range(&attrs[i].1, 0, attrs[i].1.len());
        proof {
            assert(attrs@[i as int].1@.subrange(0, attrs@[i as int].1@.len() as int)
                =~= attrs@[i as int].1@);
            lemma_find_key_bounds(entries_view(values@), key@);
            assert(attrs_v[i as int] == (attrs@[i as int].0@, attrs@[i as int].1@));
        }
        let ghost before = entries_view(values@);
        match find_key(&values, key.as_str()) {
            Some(j) => {
                values.set(j, (key, val));
                proof {
                    assert(entries_view(values@) =~= before.update(j as int, attrs_v[i as int]));
                }
            },
            None => {
                values.push((key, val));
                proof {
                    assert(entries_view(values@) =~= before.push(attrs_v[i as int]));
                }
            },
        }
        proof {
            assert(entries_view(values@) == spec_upsert(
                before,
                attrs_v[i as int].0,
                attrs_v[i as int].1,
            ));
        }
        i = i + 1;
    }
    proof {
        assert(attrs_v.subrange(attrs@.len() as int, attrs@.len() as int) =~= Seq::<
            (Seq<char>, Seq<Token>),
        >::empty());
    }
    ViolaDefaultDec { struct_ident: struct_ident.to_text(), values }
}

/// One emitted entry of the provider impl.
pub open spec fn default_entry_line(key: Seq<char>, value: Seq<Token>) -> Seq<char> {
    "            "@ + key + ": "@ + tokens_text(value) + ",\n"@
}

/// The emitted entries of the provider impl, in collection order.
pub open spec fn default_entry_lines(values: Seq<(Seq<char>, Seq<Token>)>) -> Seq<char>
    decreases values.len(),
{
    if values.len() == 0 {
        Seq::empty()
    } else {
        default_entry_line(values[0].0, values[0].1) + default_entry_lines(
            values.subrange(1, values.len() as int),
        )
    }
}

/// The provider impl a struct's collected defaults expand to: every
/// declared field uses its override expression, everything else falls back
/// to the type's native default construction.
pub open spec fn default_impl_source(
    struct_ident: Seq<char>,
    values: Seq<(Seq<char>, Seq<Token>)>,
) -> Seq<char> {
    "impl ViolaDefault for "@ + struct_ident
        + " {\n    fn viola_default() -> Self {\n        Self {\n"@ + default_entry_lines(values)
        + "            ..Default::default()\n        }\n    }\n}\n"@
}

fn push_default_entries(s: &mut String, values: &Vec<(String, Vec<Token>)>, from: usize)
    requires
        from <= values@.len(),
    ensures
        final(s)@ == old(s)@ + default_entry_lines(
            entries_view(values@).subrange(from as int, values@.len() as int),
        ),
    decreases values@.len() - from,
{
    let ghost rest = entries_view(values@).subrange(from as int, values@.len() as int);
    if from < values.len() {
        proof {
            reveal_strlit("            ");
            assert(rest[0] == entries_view(values@)[from as int]);
        }
        s.append("            ");
        s.append(values[from].0.as_str());
        s.append(": ");
        crate::emit_text::push_tokens_all(s, &values[from].1);
        s.append(",\n");
        proof {
            assert(s@ =~= old(s)@ + default_entry_line(rest[0].0, rest[0].1));
        }
        push_default_entries(s, values, from + 1);
        proof {
            assert(rest.subrange(1, rest.len() as int) =~= entries_view(values@).subrange(
                from as int + 1,
                values@.len() as int,
            ));
            assert(final(s)@ =~= old(s)@ + default_entry_lines(rest));
        }
    } else {
        proof {
            assert(rest =~= Seq::<(Seq<char>, Seq<Token>)>::empty());
        }
    }
}

impl ViolaDefaultDec {
    /// Renders the provider impl the collection expands to.
    pub fn render(&self) -> (r: String)
        ensures
            r@ == default_impl_source(self.struct_ident@, entries_view(self.values@)),
    {
        proof {
            reveal_strlit("impl ViolaDefault for ");
            reveal_strlit(" {\n    fn viola_default() -> Self {\n        Self {\n");
            reveal_strlit("            ..Default::default()\n        }\n    }\n}\n");
        }
        let mut s = String::new();
        s.append("impl ViolaDefault for ");
        s.append(self.struct_ident.as_str());
        s.append(" {\n    fn viola_default() -> Self {\n        Self {\n");
        push_default_entries(&mut s, &self.values, 0);
        s.append("            ..Default::default()\n        }\n    }\n}\n");
        proof {
            assert(entries_view(self.values@).subrange(0, self.values@.len() as int)
                =~= entries_view(self.values@));
            assert(s@ =~= default_impl_source(self.struct_ident@, entries_view(self.values@)));
        }
        s
    }
}

/// The first value bound to a key, if any.
pub open spec fn spec_lookup(bound: Seq<(Seq<char>, JsonV)>, key: Seq<char>) -> Option<JsonV>
    decreases bound.len(),
{
    if bound.len() == 0 {
        None
    } else if bound[0].0 == key {
        Some(bound[0].1)
    } else {
        spec_lookup(bound.subrange(1, bound.len() as int), key)
    }
}

/// Every field of the target type, resolved: the bound value where one is
/// bound, the default where none is.
pub open spec fn spec_fill(
    bound: Seq<(Seq<char>, JsonV)>,
    defaults: Seq<(Seq<char>, JsonV)>,
) -> Seq<(Seq<char>, JsonV)> {
    Seq::new(
        defaults.len(),
        |i: int|
            (
                defaults[i].0,
                match spec_lookup(bound, defaults[i].0) {
                    Some(v) => v,
                    None => defaults[i].1,
                },
            ),
    )
}

fn lookup_index(bound: &Vec<(String, JsonValue)>, key: &str) -> (r: Option<usize>)
    ensures
        match r {
            Some(j) => j < bound@.len() && spec_lookup(bindings_view(bound@), key@) == Some(
                bound@[j as int].1@,
            ),
            None => spec_lookup(bindings_view(bound@), key@) is None,
        },
{
    let ghost whole = bindings_view(bound@);
    proof {
        assert(whole.len() == bound@.len());
        assert(whole.subrange(0, bound@.len() as int) =~= whole);
    }
    let mut i: usize = 0;
    loop
        invariant
            i <= bound@.len(),
            whole == bindings_view(bound@),
            spec_lookup(whole, key@) == spec_lookup(
                whole.subrange(i as int, bound@.len() as int),
                key@,
            ),
        decreases bound@.len() - i,
    {
        let ghost rest = whole.subrange(i as int, bound@.len() as int);
        if i >= bound.len() {
            proof {
                assert(rest =~= Seq::<(Seq<char>, JsonV)>::empty());
            }
            return None;
        }
        proof {
            assert(rest[0] == whole[i as int]);
            assert(rest.subrange(1, rest.len() as int) =~= whole.subrange(
                i as int + 1,
                bound@.len() as int,
            ));
        }
        if text_eq(bound[i].0.as_str(), key) {
            return Some(i);
        }
        i = i + 1;
    }
}

/// Builds the full field list of a construction: one entry per field of
/// the target type, in the type's field order, each carrying the literal's
/// bound value where the literal binds the field and the default value
/// where it does not. A bound field never takes the default, however
/// trivial its bound value.
pub fn fill_defaults(bound: &Vec<(String, JsonValue)>, defaults: &Vec<(String, JsonValue)>) -> (r:
    Vec<(String, JsonValue)>)
    ensures
        bindings_view(r@) == spec_fill(bindings_view(bound@), bindings_view(defaults@)),
{
    let ghost target = spec_fill(bindings_view(bound@), bindings_view(defaults@));
    let mut out: Vec<(String, JsonValue)> = Vec::new();
    let mut i: usize = 0;
    while i < defaults.len()
        invariant
            i <= defaults@.len(),
            target == spec_fill(bindings_view(bound@), bindings_view(defaults@)),
            out@.len() == i,
            forall|k: int| 0 <= k < i ==> bindings_view(out@)[k] == target[k],
        decreases defaults@.len() - i,
    {
        let key = defaults[i].0.clone();
        let value = match lookup_index(bound, key.as_str()) {
            Some(j) => clone_json(&bound[j].1),
            None => clone_json(&defaults[i].1),
        };
        proof {
            assert(bindings_view(defaults@)[i as int].0 == key@);
            assert(value@ == target[i as int].1);
        }
        out.push((key, value));
        i = i + 1;
    }
    proof {
        assert(bindings_view(out@) =~= target);
    }
    out
}

/// Resolution of a field through both levels of defaulting: a literal that
/// binds only part of a type's fields yields, for every field, the bound
/// value when the field is bound, and otherwise the provider's value — the
/// declared override when there is one, the type's native default beneath
/// it.
pub proof fn lemma_default_fill(
    bound: Seq<(Seq<char>, JsonV)>,
    overrides: Seq<(Seq<char>, JsonV)>,
    native: Seq<(Seq<char>, JsonV)>,
)
    ensures
        forall|i: int|
            0 <= i < native.len() ==> spec_fill(bound, spec_fill(overrides, native))[i] == (
                native[i].0,
                match spec_lookup(bound, native[i].0) {
                    Some(v) => v,
                    None => match spec_lookup(overrides, native[i].0) {
                        Some(v) => v,
                        None => native[i].1,
                    },
                },
            ),
{
}

} // verus!
