//! A small JSON document model and a renderer proved to produce exactly the
//! text the spec functions describe.
//!
//! Components and registries of this crate serialize by building a
//! [`JsonValue`] and rendering it; the layout is compact: object entries and
//! array elements are separated by `", "`, and a colon is followed by one
//! space.

use crate::text::{bool_text, dec_int, push_bool, push_char, push_dec_i32};
use vstd::prelude::*;
use vstd::string::StrSliceExecFns;
use vstd::string::StringExecFns;

verus! {

/// One JSON value.
pub enum JsonValue {
    Null,
    Bool(bool),
    Int(i32),
    Str(String),
    Arr(Vec<JsonValue>),
    Obj(Vec<(String, JsonValue)>),
}

/// The escape sequence a character is written as inside a JSON string:
/// quotes and backslashes are escaped, everything else stands for itself.
pub open spec fn escaped_char(c: char) -> Seq<char> {
    if c == '"' {
        seq!['\\', '"']
    } else if c == '\\' {
        seq!['\\', '\\']
    } else {
        seq![c]
    }
}

/// The body of a JSON string: every character escaped.
pub open spec fn escaped(s: Seq<char>) -> Seq<char>
    decreases s.len(),
{
    if s.len() == 0 {
        Seq::<char>::empty()
    } else {
        escaped_char(s[0]) + escaped(s.subrange(1, s.len() as int))
    }
}

/// A JSON string literal: the escaped body between double quotes.
pub open spec fn quoted(s: Seq<char>) -> Seq<char> {
    seq!['"'] + escaped(s) + seq!['"']
}

/// The text of a JSON value.
pub open spec fn json_text(v: JsonValue) -> Seq<char>
    decreases v, 0int,
{
    match v {
        JsonValue::Null => "null"@,
        JsonValue::Bool(b) => bool_text(b),
        JsonValue::Int(n) => dec_int(n as int),
        JsonValue::Str(s) => quoted(s@),
        JsonValue::Arr(items) => seq!['['] + json_list(items@) + seq![']'],
        JsonValue::Obj(entries) => seq!['{'] + json_entries(entries@) + seq!['}'],
    }
}

/// The comma-separated texts of array elements.
pub open spec fn json_list(items: Seq<JsonValue>) -> Seq<char>
    decreases items, 1int,
{
    if items.len() == 0 {
        Seq::<char>::empty()
    } else if items.len() == 1 {
        json_text(items[0])
    } else {
        json_text(items[0]) + ", "@ + json_list(items.subrange(1, items.len() as int))
    }
}

/// One `"key": value` entry of a JSON object.
pub open spec fn json_entry(key: Seq<char>, v: JsonValue) -> Seq<char>
    decreases v, 1int,
{
    quoted(key) + ": "@ + json_text(v)
}

/// The comma-separated entries of a JSON object.
pub open spec fn json_entries(entries: Seq<(String, JsonValue)>) -> Seq<char>
    decreases entries, 1int,
{
    if entries.len() == 0 {
        Seq::<char>::empty()
    } else if entries.len() == 1 {
        json_entry(entries[0].0@, entries[0].1)
    } else {
        json_entry(entries[0].0@, entries[0].1) + ", "@ + json_entries(
            entries.subrange(1, entries.len() as int),
        )
    }
}

proof fn lemma_escaped_snoc(s: Seq<char>, c: char)
    ensures
        escaped(s.push(c)) == escaped(s) + escaped_char(c),
    decreases s.len(),
{
    if s.len() == 0 {
        assert(s =~= Seq::<char>::empty());
        assert(s.push(c) =~= seq![c]);
        assert(s.push(c).subrange(1, 1) =~= Seq::<char>::empty());
        assert(escaped(Seq::<char>::empty()) == Seq::<char>::empty());
        assert(escaped(s.push(c)) =~= escaped(s) + escaped_char(c));
    } else {
        let t = s.subrange(1, s.len() as int);
        assert(s.push(c)[0] == s[0]);
        assert(s.push(c).subrange(1, s.push(c).len() as int) =~= t.push(c));
        lemma_escaped_snoc(t, c);
        assert(escaped(s.push(c)) =~= escaped(s) + escaped_char(c));
    }
}

/// Appends the escape sequence of one character.
fn push_escaped_char(s: &mut String, c: char)
    ensures
        final(s)@ == old(s)@ + escaped_char(c),
{
    if c == '"' {
        proof {
            reveal_strlit("\\\"");
        }
        s.append("\\\"");
    } else if c == '\\' {
        proof {
            reveal_strlit("\\\\");
        }
        s.append("\\\\");
    } else {
        push_char(s, c);
    }
}

/// Appends a JSON string literal for the given text.
pub fn push_quoted(s: &mut String, text: &str)
    ensures
        final(s)@ == old(s)@ + quoted(text@),
{
    push_char(s, '"');
    let n = text.unicode_len();
    let mut i: usize = 0;
    while i < n
        invariant
            n == text@.len(),
            i <= n,
            s@ == old(s)@ + seq!['"'] + escaped(text@.subrange(0, i as int)),
        decreases n - i,
    {
        let c = text.get_char(i);
        push_escaped_char(s, c);
        proof {
            assert(text@.subrange(0, i as int).push(text@[i as int]) =~= text@.subrange(
                0,
                i as int + 1,
            ));
            lemma_escaped_snoc(text@.subrange(0, i as int), text@[i as int]);
        }
        i = i + 1;
    }
    push_char(s, '"');
    proof {
        assert(text@.subrange(0, text@.len() as int) =~= text@);
        assert(final(s)@ =~= old(s)@ + quoted(text@));
    }
}

/// Appends the text of a JSON value.
pub fn push_json(s: &mut String, v: &JsonValue)
    ensures
        final(s)@ == old(s)@ + json_text(*v),
    decreases *v, 0int,
{
    match v {
        JsonValue::Null => {
            s.append("null");
        },
        JsonValue::Bool(b) => {
            push_bool(s, *b);
        },
        JsonValue::Int(n) => {
            push_dec_i32(s, *n);
        },
        JsonValue::Str(t) => {
            push_quoted(s, t.as_str());
        },
        JsonValue::Arr(items) => {
            push_char(s, '[');
            push_json_list(s, items, 0);
            push_char(s, ']');
            proof {
                assert(items@.subrange(0, items@.len() as int) =~= items@);
                assert(final(s)@ =~= old(s)@ + json_text(*v));
            }
        },
        JsonValue::Obj(entries) => {
            push_char(s, '{');
            push_json_entries(s, entries, 0);
            push_char(s, '}');
            proof {
                assert(entries@.subrange(0, entries@.len() as int) =~= entries@);
                assert(final(s)@ =~= old(s)@ + json_text(*v));
            }
        },
    }
}

/// Appends the texts of the array elements from `from` on, comma separated.
fn push_json_list(s: &mut String, items: &Vec<JsonValue>, from: usize)
    requires
        from <= items@.len(),
    ensures
        final(s)@ == old(s)@ + json_list(items@.subrange(from as int, items@.len() as int)),
    decreases *items, 1int, items@.len() - from,
{
    if from < items.len() {
        push_json(s, &items[from]);
        if from + 1 < items.len() {
            s.append(", ");
            push_json_list(s, items, from + 1);
            proof {
                let rest = items@.subrange(from as int, items@.len() as int);
                assert(rest[0] == items@[from as int]);
                assert(rest.subrange(1, rest.len() as int) =~= items@.subrange(
                    from as int + 1,
                    items@.len() as int,
                ));
                assert(final(s)@ =~= old(s)@ + json_list(rest));
            }
        } else {
            proof {
                let rest = items@.subrange(from as int, items@.len() as int);
                assert(rest.len() == 1);
                assert(rest[0] == items@[from as int]);
            }
        }
    }
}

/// Appends the object entries from `from` on, comma separated.
fn push_json_entries(s: &mut String, entries: &Vec<(String, JsonValue)>, from: usize)
    requires
        from <= entries@.len(),
    ensures
        final(s)@ == old(s)@ + json_entries(entries@.subrange(from as int, entries@.len() as int)),
    decreases *entries, 1int, entries@.len() - from,
{
    if from < entries.len() {
        push_quoted(s, entries[from].0.as_str());
        s.append(": ");
        push_json(s, &entries[from].1);
        if from + 1 < entries.len() {
            s.append(", ");
            push_json_entries(s, entries, from + 1);
            proof {
                let rest = entries@.subrange(from as int, entries@.len() as int);
                assert(rest[0] == entries@[from as int]);
                assert(rest.subrange(1, rest.len() as int) =~= entries@.subrange(
                    from as int + 1,
                    entries@.len() as int,
                ));
                assert(json_entry(rest[0].0@, rest[0].1) == quoted(rest[0].0@) + ": "@
                    + json_text(rest[0].1));
                assert(final(s)@ =~= old(s)@ + json_entries(rest));
            }
        } else {
            proof {
                let rest = entries@.subrange(from as int, entries@.len() as int);
                assert(rest.len() == 1);
                assert(rest[0] == entries@[from as int]);
                assert(json_entry(rest[0].0@, rest[0].1) == quoted(rest[0].0@) + ": "@
                    + json_text(rest[0].1));
                assert(final(s)@ =~= old(s)@ + json_entries(rest));
            }
        }
    }
}

/// Appends all entries of an object body, comma separated.
pub fn push_json_entries_all(s: &mut String, entries: &Vec<(String, JsonValue)>)
    ensures
        final(s)@ == old(s)@ + json_entries(entries@),
{
    push_json_entries(s, entries, 0);
    proof {
        assert(entries@.subrange(0, entries@.len() as int) =~= entries@);
    }
}

/// Renders a JSON value on its own.
pub fn render_json(v: &JsonValue) -> (r: String)
    ensures
        r@ == json_text(*v),
{
    let mut s = String::new();
    push_json(&mut s, v);
    assert(s@ =~= json_text(*v));
    s
}

} // verus!

use vstd::prelude::*;

verus! {

/// The mathematical shape of a JSON value.
pub ghost enum JsonV {
    Null,
    Bool(bool),
    Int(int),
    Str(Seq<char>),
    Arr(Seq<JsonV>),
    Obj(Seq<(Seq<char>, JsonV)>),
}

/// The shape of a JSON value.
pub open spec fn json_view(v: JsonValue) -> JsonV
    decreases v, 0int,
{
    match v {
        JsonValue::Null => JsonV::Null,
        JsonValue::Bool(b) => JsonV::Bool(b),
        JsonValue::Int(n) => JsonV::Int(n as int),
        JsonValue::Str(s) => JsonV::Str(s@),
        JsonValue::Arr(items) => JsonV::Arr(json_views(items@)),
        JsonValue::Obj(entries) => JsonV::Obj(json_entry_views(entries@)),
    }
}

/// The shapes of a sequence of JSON values.
pub open spec fn json_views(items: Seq<JsonValue>) -> Seq<JsonV>
    decreases items, 1int,
{
    if items.len() == 0 {
        Seq::empty()
    } else {
        seq![json_view(items[0])] + json_views(items.subrange(1, items.len() as int))
    }
}

/// The shapes of a sequence of object entries.
pub open spec fn json_entry_views(entries: Seq<(String, JsonValue)>) -> Seq<(Seq<char>, JsonV)>
    decreases entries, 1int,
{
    if entries.len() == 0 {
        Seq::empty()
    } else {
        seq![(entries[0].0@, json_view(entries[0].1))] + json_entry_views(
            entries.subrange(1, entries.len() as int),
        )
    }
}

impl View for JsonValue {
    type V = JsonV;

    open spec fn view(&self) -> JsonV {
        json_view(*self)
    }
}

impl DeepView for JsonValue {
    type V = JsonV;

    open spec fn deep_view(&self) -> JsonV {
        json_view(*self)
    }
}

/// Copies a JSON value.
pub fn clone_json(v: &JsonValue) -> (r: JsonValue)
    ensures
        r@ == v@,
    decreases *v, 0int,
{
    match v {
        JsonValue::Null => JsonValue::Null,
        JsonValue::Bool(b) => JsonValue::Bool(*b),
        JsonValue::Int(n) => JsonValue::Int(*n),
        JsonValue::Str(s) => JsonValue::Str(s.clone()),
        JsonValue::Arr(items) => {
            let r = JsonValue::Arr(clone_json_list(items, 0));
            proof {
                assert(items@.subrange(0, items@.len() as int) =~= items@);
            }
            r
        },
        JsonValue::Obj(entries) => {
            let r = JsonValue::Obj(clone_json_entries(entries, 0));
            proof {
                assert(entries@.subrange(0, entries@.len() as int) =~= entries@);
            }
            r
        },
    }
}

fn clone_json_list(items: &Vec<JsonValue>, from: usize) -> (r: Vec<JsonValue>)
    requires
        from <= items@.len(),
    ensures
        json_views(r@) == json_views(items@.subrange(from as int, items@.len() as int)),
    decreases *items, 1int, items@.len() - from,
{
    if from < items.len() {
        let x = clone_json(&items[from]);
        let rest = clone_json_list(items, from + 1);
        let ghost rest0 = rest@;
        let ghost xv = x@;
        let mut out = rest;
        out.insert(0, x);
        proof {
            let whole = items@.subrange(from as int, items@.len() as int);
            assert(whole[0] == items@[from as int]);
            assert(whole.subrange(1, whole.len() as int) =~= items@.subrange(
                from as int + 1,
                items@.len() as int,
            ));
            assert(out@ =~= seq![out@[0]] + rest0);
            assert(out@.subrange(1, out@.len() as int) =~= rest0);
            assert(json_views(out@) == seq![json_view(out@[0])] + json_views(rest0));
            assert(json_views(whole) == seq![json_view(whole[0])] + json_views(
                items@.subrange(from as int + 1, items@.len() as int),
            ));
            assert(json_views(out@) =~= json_views(whole));
        }
        out
    } else {
        let out: Vec<JsonValue> = Vec::new();
        proof {
            assert(items@.subrange(from as int, items@.len() as int)
                =~= Seq::<JsonValue>::empty());
            assert(out@ =~= Seq::<JsonValue>::empty());
        }
        out
    }
}

fn clone_json_entries(entries: &Vec<(String, JsonValue)>, from: usize) -> (r: Vec<
    (String, JsonValue),
>)
    requires
        from <= entries@.len(),
    ensures
        json_entry_views(r@) == json_entry_views(
            entries@.subrange(from as int, entries@.len() as int),
        ),
    decreases *entries, 1int, entries@.len() - from,
{
    if from < entries.len() {
        let x = (entries[from].0.clone(), clone_json(&entries[from].1));
        let rest = clone_json_entries(entries, from + 1);
        let ghost rest0 = rest@;
        let mut out = rest;
        out.insert(0, x);
        proof {
            let whole = entries@.subrange(from as int, entries@.len() as int);
            assert(whole[0] == entries@[from as int]);
            assert(whole.subrange(1, whole.len() as int) =~= entries@.subrange(
                from as int + 1,
                entries@.len() as int,
            ));
            assert(out@ =~= seq![out@[0]] + rest0);
            assert(out@.subrange(1, out@.len() as int) =~= rest0);
            assert(json_entry_views(out@) == seq![(out@[0].0@, json_view(out@[0].1))]
                + json_entry_views(rest0));
            assert(json_entry_views(whole) == seq![(whole[0].0@, json_view(whole[0].1))]
                + json_entry_views(entries@.subrange(from as int + 1, entries@.len() as int)));
            assert(json_entry_views(out@) =~= json_entry_views(whole));
        }
        out
    } else {
        let out: Vec<(String, JsonValue)> = Vec::new();
        proof {
            assert(entries@.subrange(from as int, entries@.len() as int) =~= Seq::<
                (String, JsonValue),
            >::empty());
            assert(out@ =~= Seq::<(String, JsonValue)>::empty());
        }
        out
    }
}

} // verus!
