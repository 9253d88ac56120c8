//! Localization tables: display names for items and blocks and free-form
//! entries, collected per language and serialized as `key=value` text.

use crate::vio::{Identifier, IntoText};
use vstd::pervasive::VecAdditionalExecFns;
use vstd::prelude::*;
use vstd::string::StringExecFns;

verus! {

/// The key/value shapes of a name table.
pub open spec fn pairs_view(vs: Seq<(String, String)>) -> Seq<(Seq<char>, Seq<char>)> {
    Seq::new(vs.len(), |i: int| (vs[i].0@, vs[i].1@))
}

/// The position of a key in a name table, if it is there.
pub open spec fn spec_pair_key(acc: Seq<(Seq<char>, Seq<char>)>, k: Seq<char>) -> Option<int>
    decreases acc.len(),
{
    if acc.len() == 0 {
        None
    } else if acc[0].0 == k {
        Some(0)
    } else {
        match spec_pair_key(acc.subrange(1, acc.len() as int), k) {
            Some(i) => Some(i + 1),
            None => None,
        }
    }
}

/// One entry added to a name table: a fresh key is appended, a known key's
/// value is replaced.
pub open spec fn spec_pair_upsert(
    acc: Seq<(Seq<char>, Seq<char>)>,
    k: Seq<char>,
    v: Seq<char>,
) -> Seq<(Seq<char>, Seq<char>)> {
    match spec_pair_key(acc, k) {
        Some(i) => acc.update(i, (k, v)),
        None => acc.push((k, v)),
    }
}

fn find_pair_key(table: &Vec<(String, String)>, k: &str) -> (r: Option<usize>)
    ensures
        match r {
            Some(i) => spec_pair_key(pairs_view(table@), k@) == Some(i as int) && i < table@.len(),
            None => spec_pair_key(pairs_view(table@), k@) is None,
        },
{
    let ghost whole = pairs_view(table@);
    proof {
        assert(whole.subrange(0, table@.len() as int) =~= whole);
    }
    let mut i: usize = 0;
    loop
        invariant
            i <= table@.len(),
            whole == pairs_view(table@),
            spec_pair_key(whole, k@) == match spec_pair_key(
                whole.subrange(i as int, table@.len() as int),
                k@,
            ) {
                Some(j) => Some(j + i),
                None => None::<int>,
            },
        decreases table@.len() - i,
    {
        let ghost rest = whole.subrange(i as int, table@.len() as int);
        if i >= table.len() {
            proof {
                assert(rest =~= Seq::<(Seq<char>, Seq<char>)>::empty());
            }
            return None;
        }
        proof {
            assert(rest[0] == whole[i as int]);
            assert(rest.subrange(1, rest.len() as int) =~= whole.subrange(
                i as int + 1,
                table@.len() as int,
            ));
        }
        if crate::tokens::text_eq(table[i].0.as_str(), k) {
            return Some(i);
        }
        i = i + 1;
    }
}

fn upsert_pair(table: &mut Vec<(String, String)>, key: String, value: String)
    ensures
        pairs_view(final(table)@) == spec_pair_upsert(pairs_view(old(table)@), key@, value@),
{
    let ghost before = pairs_view(table@);
    match find_pair_key(table, key.as_str()) {
        Some(i) => {
            table.set(i, (key, value));
            proof {
                assert(pairs_view(table@) =~= before.update(i as int, (key@, value@)));
            }
        },
        None => {
            table.push((key, value));
            proof {
                assert(pairs_view(table@) =~= before.push((key@, value@)));
            }
        },
    }
}

/// The `prefix key mid value` lines of a name table, in order, nothing in
/// between.
pub open spec fn named_lines(
    ps: Seq<(Seq<char>, Seq<char>)>,
    pre: Seq<char>,
    mid: Seq<char>,
) -> Seq<char>
    decreases ps.len(),
{
    if ps.len() == 0 {
        Seq::<char>::empty()
    } else {
        pre + ps[0].0 + mid + ps[0].1 + named_lines(ps.subrange(1, ps.len() as int), pre, mid)
    }
}

/// The display-name tables of one language.
#[derive(Debug)]
pub struct Localization {
    pub language: String,
    pub item_names: Vec<(String, String)>,
    pub block_names: Vec<(String, String)>,
    pub customs: Vec<(String, String)>,
}

/// The serialized localization: the item names, the block names, then the
/// free-form entries.
pub open spec fn loc_text(l: Localization) -> Seq<char> {
    named_lines(pairs_view(l.item_names@), "item."@, ".name="@) + named_lines(
        pairs_view(l.block_names@),
        "tile."@,
        ".name="@,
    ) + named_lines(pairs_view(l.customs@), Seq::<char>::empty(), "="@)
}

fn push_named_lines(
    s: &mut String,
    table: &Vec<(String, String)>,
    pre: &str,
    mid: &str,
    from: usize,
)
    requires
        from <= table@.len(),
    ensures
        final(s)@ == old(s)@ + named_lines(
            pairs_view(table@).subrange(from as int, table@.len() as int),
            pre@,
            mid@,
        ),
    decreases table@.len() - from,
{
    let ghost whole = pairs_view(table@);
    let ghost rest = whole.subrange(from as int, table@.len() as int);
    if from < table.len() {
        proof {
            assert(rest[0] == whole[from as int]);
        }
        s.append(pre);
        s.append(table[from].0.as_str());
        s.append(mid);
        s.append(table[from].1.as_str());
        push_named_lines(s, table, pre, mid, from + 1);
        proof {
            assert(rest.subrange(1, rest.len() as int) =~= whole.subrange(
                from as int + 1,
                table@.len() as int,
            ));
            assert(final(s)@ =~= old(s)@ + named_lines(rest, pre@, mid@));
        }
    } else {
        proof {
            assert(rest =~= Seq::<(Seq<char>, Seq<char>)>::empty());
        }
    }
}

impl Localization {
    /// A localization for one language, identified like `en_US`.
    pub fn new<S: IntoText>(language: S) -> (r: Self)
        ensures
            r.language@ == language.chars(),
            r.item_names@.len() == 0,
            r.block_names@.len() == 0,
            r.customs@.len() == 0,
    {
        Self {
            language: language.to_text(),
            item_names: Vec::new(),
            block_names: Vec::new(),
            customs: Vec::new(),
        }
    }

    /// Names a block; an earlier name of the same block is replaced.
    pub fn add_block_name<S: IntoText>(&mut self, identifier: Identifier, name: S)
        ensures
            pairs_view(final(self).block_names@) == spec_pair_upsert(
                pairs_view(old(self).block_names@),
                identifier.text(),
                name.chars(),
            ),
            final(self).language == old(self).language,
            final(self).item_names == old(self).item_names,
            final(self).customs == old(self).customs,
    {
        upsert_pair(&mut self.block_names, identifier.render(), name.to_text());
    }

    /// Names an item; an earlier name of the same item is replaced.
    pub fn add_item_name<S: IntoText>(&mut self, identifier: Identifier, name: S)
        ensures
            pairs_view(final(self).item_names@) == spec_pair_upsert(
                pairs_view(old(self).item_names@),
                identifier.text(),
                name.chars(),
            ),
            final(self).language == old(self).language,
            final(self).block_names == old(self).block_names,
            final(self).customs == old(self).customs,
    {
        upsert_pair(&mut self.item_names, identifier.render(), name.to_text());
    }

    /// Adds a free-form entry; an earlier entry under the same key is
    /// replaced.
    pub fn add_custom<A: IntoText, B: IntoText>(&mut self, key: A, value: B)
        ensures
            pairs_view(final(self).customs@) == spec_pair_upsert(
                pairs_view(old(self).customs@),
                key.chars(),
                value.chars(),
            ),
            final(self).language == old(self).language,
            final(self).item_names == old(self).item_names,
            final(self).block_names == old(self).block_names,
    {
        upsert_pair(&mut self.customs, key.to_text(), value.to_text());
    }

    /// Serializes the tables.
    pub fn serialize(&self) -> (r: String)
        ensures
            r@ == loc_text(*self),
    {
        proof {
            reveal_strlit("item.");
            reveal_strlit("tile.");
            reveal_strlit(".name=");
            reveal_strlit("=");
            reveal_strlit("");
        }
        let mut s = String::new();
        push_named_lines(&mut s, &self.item_names, "item.", ".name=", 0);
        push_named_lines(&mut s, &self.block_names, "tile.", ".name=", 0);
        push_named_lines(&mut s, &self.customs, "", "=", 0);
        proof {
            assert(pairs_view(self.item_names@).subrange(0, self.item_names@.len() as int)
                =~= pairs_view(self.item_names@));
            assert(pairs_view(self.block_names@).subrange(0, self.block_names@.len() as int)
                =~= pairs_view(self.block_names@));
            assert(pairs_view(self.customs@).subrange(0, self.customs@.len() as int)
                =~= pairs_view(self.customs@));
            assert(""@ =~= Seq::<char>::empty());
            assert(s@ =~= loc_text(*self));
        }
        s
    }
}

} // verus!
