//! Recipes: furnace, shapeless and shaped, each serializing into one
//! recipe document, with a shared ingredient record.

use crate::block::state::quoted_texts;
use crate::text::{dec_int, join_texts, push_char, push_dec_i32, push_join, texts_view};
use crate::vio::{Identifier, IntoText};
use vstd::prelude::*;
use vstd::string::StringExecFns;

verus! {

/// A serializable recipe with a registry identifier.
pub trait Recipe {
    /// The serialized recipe document.
    spec fn recipe_text(&self) -> Seq<char>;

    fn serialize(&self) -> (r: String)
        ensures
            r@ == self.recipe_text(),
    ;

    fn id(&self) -> Identifier;
}

/// One input or output of a recipe: a typed item or a tag, an optional
/// count, and an optional pattern key.
#[derive(Clone, Debug)]
pub struct RecipeIO {
    pub use_tag: bool,
    pub item: Option<Identifier>,
    pub data: Option<i32>,
    pub count: Option<i32>,
    pub tag: Option<String>,
    pub key: Option<char>,
}

impl RecipeIO {
    /// The serialized ingredient: its pattern key, when it has one, in
    /// front of the item-or-tag object with the optional count.
    pub open spec fn io_text(&self) -> Seq<char> {
        let key_part = match self.key {
            Some(k) => seq!['"', k, '"'] + ": "@,
            None => Seq::<char>::empty(),
        };
        let main = if self.use_tag {
            "\"tag\": \""@ + (match self.tag {
                Some(t) => t@,
                None => "null"@,
            }) + seq!['"']
        } else {
            "\"item\": \""@ + (match self.item {
                Some(id) => id.text(),
                None => "null:null"@,
            }) + "\", \"data\": "@ + dec_int(
                match self.data {
                    Some(d) => d as int,
                    None => 0,
                },
            )
        };
        let count_part = match self.count {
            Some(c) => ", \"count\": "@ + dec_int(c as int),
            None => Seq::<char>::empty(),
        };
        key_part + seq!['{'] + main + count_part + seq!['}']
    }

    /// An ingredient naming an item type, at data value zero.
    pub fn new_typed(item: Identifier) -> (r: Self)
        ensures
            r.use_tag == false,
            r.item == Some(item),
            r.data == Some(0i32),
            r.count is None,
            r.tag is None,
            r.key is None,
    {
        Self { use_tag: false, item: Some(item), data: Some(0), count: None, tag: None, key: None }
    }

    /// An ingredient naming an item tag.
    pub fn new_tagged<S: IntoText>(tag: S) -> (r: Self)
        ensures
            r.use_tag == true,
            r.item is None,
            r.data is None,
            r.count is None,
            r.tag matches Some(t) && t@ == tag.chars(),
            r.key is None,
    {
        Self {
            use_tag: true,
            item: None,
            data: None,
            count: None,
            tag: Some(tag.to_text()),
            key: None,
        }
    }

    /// Copies the ingredient.
    pub fn duplicate(&self) -> (r: Self)
        ensures
            r == *self,
    {
        Self {
            use_tag: self.use_tag,
            item: match &self.item {
                Some(id) => Some(id.duplicate()),
                None => None,
            },
            data: self.data,
            count: self.count,
            tag: match &self.tag {
                Some(t) => Some(t.clone()),
                None => None,
            },
            key: self.key,
        }
    }

    /// A copy with the given pattern key; the receiver stays untouched.
    pub fn using_key(&mut self, key: char) -> (r: Self)
        ensures
            *final(self) == *old(self),
            r == (RecipeIO { key: Some(key), ..*old(self) }),
    {
        let d = self.duplicate();
        Self {
            key: Some(key),
            use_tag: d.use_tag,
            item: d.item,
            data: d.data,
            count: d.count,
            tag: d.tag,
        }
    }

    /// A copy with the given count; the receiver stays untouched.
    pub fn using_count(&mut self, count: i32) -> (r: Self)
        ensures
            *final(self) == *old(self),
            r == (RecipeIO { count: Some(count), ..*old(self) }),
    {
        let d = self.duplicate();
        Self {
            count: Some(count),
            use_tag: d.use_tag,
            item: d.item,
            data: d.data,
            tag: d.tag,
            key: d.key,
        }
    }

    /// A copy with the given data value; the receiver stays untouched.
    pub fn using_data(&mut self, data: i32) -> (r: Self)
        ensures
            *final(self) == *old(self),
            r == (RecipeIO { data: Some(data), ..*old(self) }),
    {
        let d = self.duplicate();
        Self {
            data: Some(data),
            use_tag: d.use_tag,
            item: d.item,
            count: d.count,
            tag: d.tag,
            key: d.key,
        }
    }

    /// Serializes the ingredient.
    pub fn serialize(&self) -> (r: String)
        ensures
            r@ == self.io_text(),
    {
        proof {
            reveal_strlit(": ");
            reveal_strlit("\"tag\": \"");
            reveal_strlit("\"item\": \"");
            reveal_strlit("\", \"data\": ");
            reveal_strlit(", \"count\": ");
            reveal_strlit("null");
            reveal_strlit("null:null");
        }
        let mut s = String::new();
        match &self.key {
            Some(k) => {
                push_char(&mut s, '"');
                push_char(&mut s, *k);
                push_char(&mut s, '"');
                s.append(": ");
            },
            None => {},
        }
        push_char(&mut s, '{');
        if self.use_tag {
            s.append("\"tag\": \"");
            match &self.tag {
                Some(t) => s.append(t.as_str()),
                None => s.append("null"),
            }
            push_char(&mut s, '"');
        } else {
            s.append("\"item\": \"");
            match &self.item {
                Some(id) => {
                    let t = id.render();
                    s.append(t.as_str());
                },
                None => s.append("null:null"),
            }
            s.append("\", \"data\": ");
            match self.data {
                Some(d) => push_dec_i32(&mut s, d),
                None => push_dec_i32(&mut s, 0),
            }
        }
        match self.count {
            Some(c) => {
                s.append(", \"count\": ");
                push_dec_i32(&mut s, c);
            },
            None => {},
        }
        push_char(&mut s, '}');
        assert(s@ =~= self.io_text());
        s
    }
}

/// The serialized ingredients of a list, in order.
pub open spec fn ios_texts(ios: Seq<RecipeIO>) -> Seq<Seq<char>> {
    Seq::new(ios.len(), |i: int| ios[i].io_text())
}

/// Serializes a list of ingredients, comma separated, in order.
pub fn serialize_ingredients(ingredients: &Vec<RecipeIO>) -> (r: String)
    ensures
        r@ == join_texts(ios_texts(ingredients@), ","@),
{
    let mut parts: Vec<String> = Vec::new();
    let mut i: usize = 0;
    while i < ingredients.len()
        invariant
            i <= ingredients@.len(),
            parts@.len() == i,
            forall|j: int| 0 <= j < i ==> parts@[j]@ == ingredients@[j].io_text(),
        decreases ingredients@.len() - i,
    {
        parts.push(ingredients[i].serialize());
        i = i + 1;
    }
    proof {
        assert(texts_view(parts@) =~= ios_texts(ingredients@));
    }
    let mut s = String::new();
    push_join(&mut s, &parts, ",");
    assert(s@ =~= join_texts(ios_texts(ingredients@), ","@));
    s
}

fn clone_ingredients(ios: &Vec<RecipeIO>) -> (r: Vec<RecipeIO>)
    ensures
        r@ == ios@,
{
    let mut out: Vec<RecipeIO> = Vec::new();
    let mut i: usize = 0;
    while i < ios.len()
        invariant
            i <= ios@.len(),
            out@.len() == i,
            forall|j: int| 0 <= j < i ==> out@[j] == ios@[j],
        decreases ios@.len() - i,
    {
        out.push(ios[i].duplicate());
        i = i + 1;
    }
    proof {
        assert(out@ =~= ios@);
    }
    out
}

fn clone_strings(ss: &Vec<String>) -> (r: Vec<String>)
    ensures
        r@ == ss@,
{
    let mut out: Vec<String> = Vec::new();
    let mut i: usize = 0;
    while i < ss.len()
        invariant
            i <= ss@.len(),
            out@.len() == i,
            forall|j: int| 0 <= j < i ==> out@[j] == ss@[j],
        decreases ss@.len() - i,
    {
        out.push(ss[i].clone());
        i = i + 1;
    }
    proof {
        assert(out@ =~= ss@);
    }
    out
}

fn owned_strings<S: IntoText>(ss: &Vec<S>) -> (r: Vec<String>)
    ensures
        r@.len() == ss@.len(),
        forall|i: int| 0 <= i < ss@.len() ==> (#[trigger] r@[i])@ == ss@[i].chars(),
{
    let mut out: Vec<String> = Vec::new();
    let mut i: usize = 0;
    while i < ss.len()
        invariant
            i <= ss@.len(),
            out@.len() == i,
            forall|j: int| 0 <= j < i ==> (#[trigger] out@[j])@ == ss@[j].chars(),
        decreases ss@.len() - i,
    {
        out.push(ss[i].to_text());
        i = i + 1;
    }
    out
}

/// A recipe smelted in a furnace.
#[derive(Clone, Debug)]
pub struct FurnaceRecipe {
    pub id: Identifier,
    pub tags: Vec<String>,
    pub input: RecipeIO,
    pub output: Identifier,
}

/// The serialized furnace recipe document.
pub open spec fn furnace_text(r: FurnaceRecipe) -> Seq<char> {
    "{ \"minecraft:recipe_furnace\": { \"description\": { \"identifier\": \""@ + r.id.text()
        + "\" }, \"tags\": ["@ + join_texts(quoted_texts(r.tags@), ", "@) + "], \"input\": "@
        + r.input.io_text() + ", \"output\": \""@ + r.output.text() + "\" } }"@
}

impl FurnaceRecipe {
    pub fn new(id: Identifier, input: RecipeIO, output: Identifier) -> (r: Self)
        ensures
            r.id == id,
            r.tags@.len() == 0,
            r.input == input,
            r.output == output,
    {
        Self { id, tags: Vec::new(), input, output }
    }

    /// A copy with the given crafting-station tags; the receiver stays
    /// untouched.
    pub fn using_tags<S: IntoText>(&mut self, tags: Vec<S>) -> (r: Self)
        ensures
            *final(self) == *old(self),
            r.id == old(self).id,
            r.input == old(self).input,
            r.output == old(self).output,
            r.tags@.len() == tags@.len(),
            forall|i: int| 0 <= i < tags@.len() ==> (#[trigger] r.tags@[i])@ == tags@[i].chars(),
    {
        Self {
            id: self.id.duplicate(),
            tags: owned_strings(&tags),
            input: self.input.duplicate(),
            output: self.output.duplicate(),
        }
    }
}

impl Recipe for FurnaceRecipe {
    open spec fn recipe_text(&self) -> Seq<char> {
        furnace_text(*self)
    }

    fn serialize(&self) -> (r: String) {
        proof {
            reveal_strlit("{ \"minecraft:recipe_furnace\": { \"description\": { \"identifier\": \"");
            reveal_strlit("\" }, \"tags\": [");
            reveal_strlit("], \"input\": ");
            reveal_strlit(", \"output\": \"");
            reveal_strlit("\" } }");
        }
        let mut tag_parts: Vec<String> = Vec::new();
        let mut i: usize = 0;
        while i < self.tags.len()
            invariant
                i <= self.tags@.len(),
                tag_parts@.len() == i,
                forall|j: int|
                    0 <= j < i ==> (#[trigger] tag_parts@[j])@ == seq!['"'] + self.tags@[j]@
                        + seq!['"'],
            decreases self.tags@.len() - i,
        {
            let mut t = String::new();
            push_char(&mut t, '"');
            t.append(self.tags[i].as_str());
            push_char(&mut t, '"');
            assert(t@ =~= seq!['"'] + self.tags@[i as int]@ + seq!['"']);
            tag_parts.push(t);
            i = i + 1;
        }
        proof {
            assert(texts_view(tag_parts@) =~= quoted_texts(self.tags@));
        }
        let mut s = String::new();
        s.append("{ \"minecraft:recipe_furnace\": { \"description\": { \"identifier\": \"");
        let id = self.id.render();
        s.append(id.as_str());
        s.append("\" }, \"tags\": [");
        push_join(&mut s, &tag_parts, ", ");
        s.append("], \"input\": ");
        let input = self.input.serialize();
        s.append(input.as_str());
        s.append(", \"output\": \"");
        let output = self.output.render();
        s.append(output.as_str());
        s.append("\" } }");
        assert(s@ =~= furnace_text(*self));
        s
    }

    fn id(&self) -> (r: Identifier) {
        self.id.duplicate()
    }
}

impl crate::vio::Buildable for FurnaceRecipe {

}

/// A crafting recipe whose ingredients have no arrangement.
#[derive(Clone, Debug)]
pub struct ShapelessRecipe {
    pub id: Identifier,
    pub tags: Vec<String>,
    pub ingredients: Vec<RecipeIO>,
    pub result: RecipeIO,
}

/// The serialized shapeless recipe document.
pub open spec fn shapeless_text(r: ShapelessRecipe) -> Seq<char> {
    "{ \"minecraft:recipe_shapeless\": { \"description\": { \"identifier\": \""@ + r.id.text()
        + "\" }, \"tags\": ["@ + join_texts(quoted_texts(r.tags@), ", "@) + "], \"ingredients\": ["@
        + join_texts(ios_texts(r.ingredients@), ","@) + "], \"result\": "@ + r.result.io_text()
        + " } }"@
}

impl ShapelessRecipe {
    pub fn new(id: Identifier, result: RecipeIO) -> (r: Self)
        ensures
            r.id == id,
            r.tags@.len() == 0,
            r.ingredients@.len() == 0,
            r.result == result,
    {
        Self { id, tags: Vec::new(), ingredients: Vec::new(), result }
    }

    /// A copy with the given crafting-station tags; the receiver stays
    /// untouched.
    pub fn using_tags<S: IntoText>(&mut self, tags: Vec<S>) -> (r: Self)
        ensures
            *final(self) == *old(self),
            r.id == old(self).id,
            r.ingredients@ == old(self).ingredients@,
            r.result == old(self).result,
            r.tags@.len() == tags@.len(),
            forall|i: int| 0 <= i < tags@.len() ==> (#[trigger] r.tags@[i])@ == tags@[i].chars(),
    {
        Self {
            id: self.id.duplicate(),
            tags: owned_strings(&tags),
            ingredients: clone_ingredients(&self.ingredients),
            result: self.result.duplicate(),
        }
    }

    /// A copy with the given ingredients; the receiver stays untouched.
    pub fn using_ingredients(&mut self, ingredients: Vec<RecipeIO>) -> (r: Self)
        ensures
            *final(self) == *old(self),
            r.id == old(self).id,
            r.tags@ == old(self).tags@,
            r.result == old(self).result,
            r.ingredients@ == ingredients@,
    {
        Self {
            id: self.id.duplicate(),
            tags: clone_strings(&self.tags),
            ingredients,
            result: self.result.duplicate(),
        }
    }
}

impl Recipe for ShapelessRecipe {
    open spec fn recipe_text(&self) -> Seq<char> {
        shapeless_text(*self)
    }

    fn serialize(&self) -> (r: String) {
        proof {
            reveal_strlit(
                "{ \"minecraft:recipe_shapeless\": { \"description\": { \"identifier\": \"",
            );
            reveal_strlit("\" }, \"tags\": [");
            reveal_strlit("], \"ingredients\": [");
            reveal_strlit("], \"result\": ");
            reveal_strlit(" } }");
        }
        let mut tag_parts: Vec<String> = Vec::new();
        let mut i: usize = 0;
        while i < self.tags.len()
            invariant
                i <= self.tags@.len(),
                tag_parts@.len() == i,
                forall|j: int|
                    0 <= j < i ==> (#[trigger] tag_parts@[j])@ == seq!['"'] + self.tags@[j]@
                        + seq!['"'],
            decreases self.tags@.len() - i,
        {
            let mut t = String::new();
            push_char(&mut t, '"');
            t.append(self.tags[i].as_str());
            push_char(&mut t, '"');
            assert(t@ =~= seq!['"'] + self.tags@[i as int]@ + seq!['"']);
            tag_parts.push(t);
            i = i + 1;
        }
        proof {
            assert(texts_view(tag_parts@) =~= quoted_texts(self.tags@));
        }
        let mut s = String::new();
        s.append("{ \"minecraft:recipe_shapeless\": { \"description\": { \"identifier\": \"");
        let id = self.id.render();
        s.append(id.as_str());
        s.append("\" }, \"tags\": [");
        push_join(&mut s, &tag_parts, ", ");
        s.append("], \"ingredients\": [");
        let ingredients = serialize_ingredients(&self.ingredients);
        s.append(ingredients.as_str());
        s.append("], \"result\": ");
        let result = self.result.serialize();
        s.append(result.as_str());
        s.append(" } }");
        assert(s@ =~= shapeless_text(*self));
        s
    }

    fn id(&self) -> (r: Identifier) {
        self.id.duplicate()
    }
}

impl crate::vio::Buildable for ShapelessRecipe {

}

/// A crafting recipe whose ingredients sit in a keyed pattern.
#[derive(Clone, Debug)]
pub struct ShapedRecipe {
    pub id: Identifier,
    pub tags: Vec<String>,
    pub ingredients: Vec<RecipeIO>,
    pub result: RecipeIO,
    pub pattern: Vec<String>,
}

/// The serialized shaped recipe document.
pub open spec fn shaped_text(r: ShapedRecipe) -> Seq<char> {
    "{ \"minecraft:recipe_shaped\": { \"description\": { \"identifier\": \""@ + r.id.text()
        + "\" }, \"tags\": ["@ + join_texts(quoted_texts(r.tags@), ", "@) + "], \"pattern\": ["@
        + join_texts(quoted_texts(r.pattern@), ", "@) + "], \"key\": {"@ + join_texts(
        ios_texts(r.ingredients@),
        ","@,
    ) + "}, \"result\": "@ + r.result.io_text() + " } }"@
}

impl ShapedRecipe {
    pub fn new(id: Identifier, result: RecipeIO) -> (r: Self)
        ensures
            r.id == id,
            r.tags@.len() == 0,
            r.ingredients@.len() == 0,
            r.pattern@.len() == 0,
            r.result == result,
    {
        Self { id, tags: Vec::new(), ingredients: Vec::new(), result, pattern: Vec::new() }
    }

    /// A copy with the given crafting-station tags; the receiver stays
    /// untouched.
    pub fn using_tags<S: IntoText>(&mut self, tags: Vec<S>) -> (r: Self)
        ensures
            *final(self) == *old(self),
            r.id == old(self).id,
            r.ingredients@ == old(self).ingredients@,
            r.result == old(self).result,
            r.pattern@ == old(self).pattern@,
            r.tags@.len() == tags@.len(),
            forall|i: int| 0 <= i < tags@.len() ==> (#[trigger] r.tags@[i])@ == tags@[i].chars(),
    {
        Self {
            id: self.id.duplicate(),
            tags: owned_strings(&tags),
            ingredients: clone_ingredients(&self.ingredients),
            result: self.result.duplicate(),
            pattern: clone_strings(&self.pattern),
        }
    }

    /// A copy with the given pattern rows; the receiver stays untouched.
    pub fn using_pattern<S: IntoText>(&mut self, pattern: Vec<S>) -> (r: Self)
        ensures
            *final(self) == *old(self),
            r.id == old(self).id,
            r.ingredients@ == old(self).ingredients@,
            r.result == old(self).result,
            r.tags@ == old(self).tags@,
            r.pattern@.len() == pattern@.len(),
            forall|i: int|
                0 <= i < pattern@.len() ==> (#[trigger] r.pattern@[i])@ == pattern@[i].chars(),
    {
        Self {
            id: self.id.duplicate(),
            tags: clone_strings(&self.tags),
            ingredients: clone_ingredients(&self.ingredients),
            result: self.result.duplicate(),
            pattern: owned_strings(&pattern),
        }
    }

    /// A copy with the given keyed ingredients; the receiver stays
    /// untouched.
    pub fn using_ingredients(&mut self, ingredients: Vec<RecipeIO>) -> (r: Self)
        ensures
            *final(self) == *old(self),
            r.id == old(self).id,
            r.tags@ == old(self).tags@,
            r.result == old(self).result,
            r.pattern@ == old(self).pattern@,
            r.ingredients@ == ingredients@,
    {
        Self {
            id: self.id.duplicate(),
            tags: clone_strings(&self.tags),
            ingredients,
            result: self.result.duplicate(),
            pattern: clone_strings(&self.pattern),
        }
    }
}

impl Recipe for ShapedRecipe {
    open spec fn recipe_text(&self) -> Seq<char> {
        shaped_text(*self)
    }

    fn serialize(&self) -> (r: String) {
        proof {
            reveal_strlit("{ \"minecraft:recipe_shaped\": { \"description\": { \"identifier\": \"");
            reveal_strlit("\" }, \"tags\": [");
            reveal_strlit("], \"pattern\": [");
            reveal_strlit("], \"key\": {");
            reveal_strlit("}, \"result\": ");
            reveal_strlit(" } }");
        }
        let mut tag_parts: Vec<String> = Vec::new();
        let mut i: usize = 0;
        while i < self.tags.len()
            invariant
                i <= self.tags@.len(),
                tag_parts@.len() == i,
                forall|j: int|
                    0 <= j < i ==> (#[trigger] tag_parts@[j])@ == seq!['"'] + self.tags@[j]@
                        + seq!['"'],
            decreases self.tags@.len() - i,
        {
            let mut t = String::new();
            push_char(&mut t, '"');
            t.append(self.tags[i].as_str());
            push_char(&mut t, '"');
            assert(t@ =~= seq!['"'] + self.tags@[i as int]@ + seq!['"']);
            tag_parts.push(t);
            i = i + 1;
        }
        let mut pattern_parts: Vec<String> = Vec::new();
        let mut k: usize = 0;
        while k < self.pattern.len()
            invariant
                k <= self.pattern@.len(),
                pattern_parts@.len() == k,
                forall|j: int|
                    0 <= j < k ==> (#[trigger] pattern_parts@[j])@ == seq!['"'] + self.pattern@[j]@
                        + seq!['"'],
            decreases self.pattern@.len() - k,
        {
            let mut t = String::new();
            push_char(&mut t, '"');
            t.append(self.pattern[k].as_str());
            push_char(&mut t, '"');
            assert(t@ =~= seq!['"'] + self.pattern@[k as int]@ + seq!['"']);
            pattern_parts.push(t);
            k = k + 1;
        }
        proof {
            assert(texts_view(tag_parts@) =~= quoted_texts(self.tags@));
            assert(texts_view(pattern_parts@) =~= quoted_texts(self.pattern@));
        }
        let mut s = String::new();
        s.append("{ \"minecraft:recipe_shaped\": { \"description\": { \"identifier\": \"");
        let id = self.id.render();
        s.append(id.as_str());
        s.append("\" }, \"tags\": [");
        push_join(&mut s, &tag_parts, ", ");
        s.append("], \"pattern\": [");
        push_join(&mut s, &pattern_parts, ", ");
        s.append("], \"key\": {");
        let ingredients = serialize_ingredients(&self.ingredients);
        s.append(ingredients.as_str());
        s.append("}, \"result\": ");
        let result = self.result.serialize();
        s.append(result.as_str());
        s.append(" } }");
        assert(s@ =~= shaped_text(*self));
        s
    }

    fn id(&self) -> (r: Identifier) {
        self.id.duplicate()
    }
}

impl crate::vio::Buildable for ShapedRecipe {

}

} // verus!
