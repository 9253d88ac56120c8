//! Block states: the named value ranges a block varies over, each
//! serializing to one entry of the block description's `states` object.

use crate::text::{dec_int, join_texts, push_char, push_dec_i32, push_join, texts_view};
use crate::vio::{Identifier, IntoText};
use vstd::prelude::*;
use vstd::string::StringExecFns;

verus! {

/// A named state of a block.
pub trait BlockState {
    /// The serialized `"identifier": values` entry.
    spec fn state_text(&self) -> Seq<char>;

    fn serialize(&self) -> (r: String)
        ensures
            r@ == self.state_text(),
    ;
}

/// A state over the two booleans.
#[derive(Clone, Debug)]
pub struct BoolBlockState {
    pub id: Identifier,
}

impl BoolBlockState {
    pub open spec fn text(&self) -> Seq<char> {
        seq!['"'] + self.id.text() + "\": [false, true]"@
    }
}

impl BlockState for BoolBlockState {
    open spec fn state_text(&self) -> Seq<char> {
        self.text()
    }

    fn serialize(&self) -> (r: String) {
        proof {
            reveal_strlit("\": [false, true]");
        }
        let mut s = String::new();
        push_char(&mut s, '"');
        let id = self.id.render();
        s.append(id.as_str());
        s.append("\": [false, true]");
        assert(s@ =~= self.text());
        s
    }
}

/// The decimal texts of a sequence of numbers.
pub open spec fn ints_texts(vs: Seq<i32>) -> Seq<Seq<char>> {
    Seq::new(vs.len(), |i: int| dec_int(vs[i] as int))
}

/// A state over an explicit list of numbers.
#[derive(Clone, Debug)]
pub struct NumericBlockState {
    pub id: Identifier,
    pub values: Vec<i32>,
}

impl NumericBlockState {
    pub open spec fn text(&self) -> Seq<char> {
        seq!['"'] + self.id.text() + "\": ["@ + join_texts(ints_texts(self.values@), ", "@)
            + seq![']']
    }

    pub fn new(id: Identifier, values: Vec<i32>) -> (r: Self)
        ensures
            r.id == id,
            r.values@ == values@,
    {
        Self { id, values }
    }
}

impl BlockState for NumericBlockState {
    open spec fn state_text(&self) -> Seq<char> {
        self.text()
    }

    fn serialize(&self) -> (r: String) {
        proof {
            reveal_strlit("\": [");
        }
        let mut parts: Vec<String> = Vec::new();
        let mut i: usize = 0;
        while i < self.values.len()
            invariant
                i <= self.values@.len(),
                parts@.len() == i,
                forall|j: int| 0 <= j < i ==> parts@[j]@ == dec_int(self.values@[j] as int),
            decreases self.values@.len() - i,
        {
            let mut t = String::new();
            push_dec_i32(&mut t, self.values[i]);
            assert(t@ =~= dec_int(self.values@[i as int] as int));
            parts.push(t);
            i = i + 1;
        }
        proof {
            assert(texts_view(parts@) =~= ints_texts(self.values@));
        }
        let mut s = String::new();
        push_char(&mut s, '"');
        let id = self.id.render();
        s.append(id.as_str());
        s.append("\": [");
        push_join(&mut s, &parts, ", ");
        push_char(&mut s, ']');
        assert(s@ =~= self.text());
        s
    }
}

/// The quoted texts of a sequence of strings, inserted verbatim.
pub open spec fn quoted_texts(vs: Seq<String>) -> Seq<Seq<char>> {
    Seq::new(vs.len(), |i: int| seq!['"'] + vs[i]@ + seq!['"'])
}

/// A state over an explicit list of names.
#[derive(Clone, Debug)]
pub struct StringBlockState {
    pub id: Identifier,
    pub values: Vec<String>,
}

impl StringBlockState {
    pub open spec fn text(&self) -> Seq<char> {
        seq!['"'] + self.id.text() + "\": ["@ + join_texts(quoted_texts(self.values@), ", "@)
            + seq![']']
    }

    pub fn new<S: IntoText>(id: Identifier, values: Vec<S>) -> (r: Self)
        ensures
            r.id == id,
            r.values@.len() == values@.len(),
            forall|i: int|
                0 <= i < values@.len() ==> (#[trigger] r.values@[i])@ == values@[i].chars(),
    {
        let mut owned: Vec<String> = Vec::new();
        let mut i: usize = 0;
        while i < values.len()
            invariant
                i <= values@.len(),
                owned@.len() == i,
                forall|j: int| 0 <= j < i ==> (#[trigger] owned@[j])@ == values@[j].chars(),
            decreases values@.len() - i,
        {
            owned.push(values[i].to_text());
            i = i + 1;
        }
        Self { id, values: owned }
    }
}

impl BlockState for StringBlockState {
    open spec fn state_text(&self) -> Seq<char> {
        self.text()
    }

    fn serialize(&self) -> (r: String) {
        proof {
            reveal_strlit("\": [");
        }
        let mut parts: Vec<String> = Vec::new();
        let mut i: usize = 0;
        while i < self.values.len()
            invariant
                i <= self.values@.len(),
                parts@.len() == i,
                forall|j: int|
                    0 <= j < i ==> (#[trigger] parts@[j])@ == seq!['"'] + self.values@[j]@
                        + seq!['"'],
            decreases self.values@.len() - i,
        {
            let mut t = String::new();
            push_char(&mut t, '"');
            t.append(self.values[i].as_str());
            push_char(&mut t, '"');
            assert(t@ =~= seq!['"'] + self.values@[i as int]@ + seq!['"']);
            parts.push(t);
            i = i + 1;
        }
        proof {
            assert(texts_view(parts@) =~= quoted_texts(self.values@));
        }
        let mut s = String::new();
        push_char(&mut s, '"');
        let id = self.id.render();
        s.append(id.as_str());
        s.append("\": [");
        push_join(&mut s, &parts, ", ");
        push_char(&mut s, ']');
        assert(s@ =~= self.text());
        s
    }
}

/// A state over a whole range of numbers.
#[derive(Clone, Debug)]
pub struct RangedBlockState {
    pub id: Identifier,
    pub min: i32,
    pub max: i32,
}

impl RangedBlockState {
    pub open spec fn text(&self) -> Seq<char> {
        seq!['"'] + self.id.text() + "\": {\"min\": "@ + dec_int(self.min as int) + ", \"max\": "@
            + dec_int(self.max as int) + seq!['}']
    }

    pub fn new(id: Identifier, min: i32, max: i32) -> (r: Self)
        ensures
            r.id == id,
            r.min == min,
            r.max == max,
    {
        Self { id, min, max }
    }
}

impl BlockState for RangedBlockState {
    open spec fn state_text(&self) -> Seq<char> {
        self.text()
    }

    fn serialize(&self) -> (r: String) {
        proof {
            reveal_strlit("\": {\"min\": ");
            reveal_strlit(", \"max\": ");
        }
        let mut s = String::new();
        push_char(&mut s, '"');
        let id = self.id.render();
        s.append(id.as_str());
        s.append("\": {\"min\": ");
        push_dec_i32(&mut s, self.min);
        s.append(", \"max\": ");
        push_dec_i32(&mut s, self.max);
        push_char(&mut s, '}');
        assert(s@ =~= self.text());
        s
    }
}

/// One state of a block, whichever shape it takes.
#[derive(Debug)]
pub enum BlockStateKind {
    Bool(BoolBlockState),
    Numeric(NumericBlockState),
    Named(StringBlockState),
    Ranged(RangedBlockState),
}

/// The serialized entry of a state, whichever shape it takes.
pub open spec fn state_text(s: BlockStateKind) -> Seq<char> {
    match s {
        BlockStateKind::Bool(x) => x.text(),
        BlockStateKind::Numeric(x) => x.text(),
        BlockStateKind::Named(x) => x.text(),
        BlockStateKind::Ranged(x) => x.text(),
    }
}

/// The serialized entries of a state list, in order.
pub open spec fn states_texts(ss: Seq<BlockStateKind>) -> Seq<Seq<char>> {
    Seq::new(ss.len(), |i: int| state_text(ss[i]))
}

impl BlockStateKind {
    /// Copies the state.
    pub fn duplicate(&self) -> (r: Self)
        ensures
            state_text(r) == state_text(*self),
    {
        match self {
            BlockStateKind::Bool(x) => {
                BlockStateKind::Bool(BoolBlockState { id: x.id.duplicate() })
            },
            BlockStateKind::Numeric(x) => {
                let mut values: Vec<i32> = Vec::new();
                let mut i: usize = 0;
                while i < x.values.len()
                    invariant
                        i <= x.values@.len(),
                        values@.len() == i,
                        forall|j: int| 0 <= j < i ==> values@[j] == x.values@[j],
                    decreases x.values@.len() - i,
                {
                    values.push(x.values[i]);
                    i = i + 1;
                }
                let r = BlockStateKind::Numeric(
                    NumericBlockState { id: x.id.duplicate(), values },
                );
                proof {
                    assert(ints_texts(values@) =~= ints_texts(x.values@));
                }
                r
            },
            BlockStateKind::Named(x) => {
                let mut values: Vec<String> = Vec::new();
                let mut i: usize = 0;
                while i < x.values.len()
                    invariant
                        i <= x.values@.len(),
                        values@.len() == i,
                        forall|j: int| 0 <= j < i ==> values@[j] == x.values@[j],
                    decreases x.values@.len() - i,
                {
                    values.push(x.values[i].clone());
                    i = i + 1;
                }
                let r = BlockStateKind::Named(StringBlockState { id: x.id.duplicate(), values });
                proof {
                    assert(quoted_texts(values@) =~= quoted_texts(x.values@));
                }
                r
            },
            BlockStateKind::Ranged(x) => {
                BlockStateKind::Ranged(
                    RangedBlockState { id: x.id.duplicate(), min: x.min, max: x.max },
                )
            },
        }
    }
}

impl BlockState for BlockStateKind {
    open spec fn state_text(&self) -> Seq<char> {
        state_text(*self)
    }

    fn serialize(&self) -> (r: String) {
        match self {
            BlockStateKind::Bool(x) => x.serialize(),
            BlockStateKind::Numeric(x) => x.serialize(),
            BlockStateKind::Named(x) => x.serialize(),
            BlockStateKind::Ranged(x) => x.serialize(),
        }
    }
}

/// Copies a state list, entry texts preserved.
pub fn clone_states(ss: &Vec<BlockStateKind>) -> (r: Vec<BlockStateKind>)
    ensures
        states_texts(r@) == states_texts(ss@),
{
    let mut out: Vec<BlockStateKind> = Vec::new();
    let mut i: usize = 0;
    while i < ss.len()
        invariant
            i <= ss@.len(),
            out@.len() == i,
            forall|j: int| 0 <= j < i ==> state_text(out@[j]) == state_text(ss@[j]),
        decreases ss@.len() - i,
    {
        out.push(ss[i].duplicate());
        i = i + 1;
    }
    proof {
        assert(states_texts(out@) =~= states_texts(ss@));
    }
    out
}

/// Serializes each state of a list, in order.
pub fn serialize_states(ss: &Vec<BlockStateKind>) -> (r: Vec<String>)
    ensures
        texts_view(r@) == states_texts(ss@),
{
    let mut out: Vec<String> = Vec::new();
    let mut i: usize = 0;
    while i < ss.len()
        invariant
            i <= ss@.len(),
            out@.len() == i,
            forall|j: int| 0 <= j < i ==> out@[j]@ == state_text(ss@[j]),
        decreases ss@.len() - i,
    {
        out.push(ss[i].serialize());
        i = i + 1;
    }
    proof {
        assert(texts_view(out@) =~= states_texts(ss@));
    }
    out
}

impl crate::vio::Buildable for BoolBlockState {

}

impl crate::vio::Buildable for NumericBlockState {

}

impl crate::vio::Buildable for StringBlockState {

}

impl crate::vio::Buildable for RangedBlockState {

}

} // verus!
