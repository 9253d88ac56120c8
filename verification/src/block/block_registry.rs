//! The block texture atlases: per-block entries of the blocks atlas and
//! the terrain texture atlas, and the templates the whole files are built
//! from.

use crate::text::{join_texts, push_char, push_join, texts_view};
use crate::vio::{Identifier, IntoText};
use vstd::prelude::*;
use vstd::string::StringExecFns;

verus! {

/// The blocks atlas document around its serialized entries.
#[derive(Debug)]
pub struct BlockAtlasTemplate {
    pub content: String,
}

/// The terrain texture document around its serialized entries.
#[derive(Debug)]
pub struct TerrainAtlasTemplate {
    pub content: String,
    pub pack_name: String,
}

/// An entry of the blocks atlas.
pub trait BlockAtlasEntry {
    /// The serialized `"identifier": { ... }` entry.
    spec fn entry_text(&self) -> Seq<char>;

    fn serialize(&self) -> (r: String)
        ensures
            r@ == self.entry_text(),
    ;

    fn id(&self) -> Identifier;
}

/// An atlas entry with one texture on all faces.
#[derive(Clone, Debug)]
pub struct AllBlockAtlasEntry {
    pub id: Identifier,
    pub textures: String,
    pub sound: String,
}

impl AllBlockAtlasEntry {
    pub open spec fn text(&self) -> Seq<char> {
        seq!['"'] + self.id.text() + "\": {\"sound\": \""@ + self.sound@ + "\", \"textures\": \""@
            + self.textures@ + "\"}"@
    }

    pub fn new<A: IntoText, B: IntoText>(id: Identifier, textures: A, sound: B) -> (r: Self)
        ensures
            r.id == id,
            r.textures@ == textures.chars(),
            r.sound@ == sound.chars(),
    {
        Self { id, textures: textures.to_text(), sound: sound.to_text() }
    }
}

impl BlockAtlasEntry for AllBlockAtlasEntry {
    open spec fn entry_text(&self) -> Seq<char> {
        self.text()
    }

    fn serialize(&self) -> (r: String) {
        proof {
            reveal_strlit("\": {\"sound\": \"");
            reveal_strlit("\", \"textures\": \"");
            reveal_strlit("\"}");
        }
        let mut s = String::new();
        push_char(&mut s, '"');
        let id = self.id.render();
        s.append(id.as_str());
        s.append("\": {\"sound\": \"");
        s.append(self.sound.as_str());
        s.append("\", \"textures\": \"");
        s.append(self.textures.as_str());
        s.append("\"}");
        assert(s@ =~= self.text());
        s
    }

    fn id(&self) -> (r: Identifier) {
        self.id.duplicate()
    }
}

/// The six per-face textures of an atlas entry.
#[derive(Clone, Debug)]
pub struct Faces {
    pub up: String,
    pub down: String,
    pub north: String,
    pub south: String,
    pub east: String,
    pub west: String,
}

impl Faces {
    /// The face object of the serialized entry.
    pub open spec fn text(&self) -> Seq<char> {
        "{\"up\": \""@ + self.up@ + "\", \"down\": \""@ + self.down@ + "\", \"north\": \""@
            + self.north@ + "\", \"south\": \""@ + self.south@ + "\", \"east\": \""@ + self.east@
            + "\", \"west\": \""@ + self.west@ + "\"}"@
    }

    pub fn new<A: IntoText, B: IntoText, C: IntoText, D: IntoText, E: IntoText, F: IntoText>(
        up: A,
        down: B,
        north: C,
        south: D,
        east: E,
        west: F,
    ) -> (r: Self)
        ensures
            r.up@ == up.chars(),
            r.down@ == down.chars(),
            r.north@ == north.chars(),
            r.south@ == south.chars(),
            r.east@ == east.chars(),
            r.west@ == west.chars(),
    {
        Self {
            up: up.to_text(),
            down: down.to_text(),
            north: north.to_text(),
            south: south.to_text(),
            east: east.to_text(),
            west: west.to_text(),
        }
    }

    /// The same constructor over rendered identifiers.
    pub fn new_identifiers(
        up: Identifier,
        down: Identifier,
        north: Identifier,
        south: Identifier,
        east: Identifier,
        west: Identifier,
    ) -> (r: Self)
        ensures
            r.up@ == up.text(),
            r.down@ == down.text(),
            r.north@ == north.text(),
            r.south@ == south.text(),
            r.east@ == east.text(),
            r.west@ == west.text(),
    {
        Self {
            up: up.render(),
            down: down.render(),
            north: north.render(),
            south: south.render(),
            east: east.render(),
            west: west.render(),
        }
    }

    fn push_text(&self, s: &mut String)
        ensures
            final(s)@ == old(s)@ + self.text(),
    {
        proof {
            reveal_strlit("{\"up\": \"");
            reveal_strlit("\", \"down\": \"");
            reveal_strlit("\", \"north\": \"");
            reveal_strlit("\", \"south\": \"");
            reveal_strlit("\", \"east\": \"");
            reveal_strlit("\", \"west\": \"");
            reveal_strlit("\"}");
        }
        let mut t = String::new();
        t.append("{\"up\": \"");
        t.append(self.up.as_str());
        t.append("\", \"down\": \"");
        t.append(self.down.as_str());
        t.append("\", \"north\": \"");
        t.append(self.north.as_str());
        t.append("\", \"south\": \"");
        t.append(self.south.as_str());
        t.append("\", \"east\": \"");
        t.append(self.east.as_str());
        t.append("\", \"west\": \"");
        t.append(self.west.as_str());
        t.append("\"}");
        assert(t@ =~= self.text());
        s.append(t.as_str());
    }
}

/// An atlas entry with one texture per face.
#[derive(Clone, Debug)]
pub struct PerFaceBlockAtlasEntry {
    pub id: Identifier,
    pub textures: Faces,
    pub sound: String,
}

impl PerFaceBlockAtlasEntry {
    pub open spec fn text(&self) -> Seq<char> {
        seq!['"'] + self.id.text() + "\": {\"sound\": \""@ + self.sound@ + "\", \"textures\": "@
            + self.textures.text() + seq!['}']
    }

    pub fn new<S: IntoText>(id: Identifier, textures: Faces, sound: S) -> (r: Self)
        ensures
            r.id == id,
            r.textures == textures,
            r.sound@ == sound.chars(),
    {
        Self { id, textures, sound: sound.to_text() }
    }
}

impl BlockAtlasEntry for PerFaceBlockAtlasEntry {
    open spec fn entry_text(&self) -> Seq<char> {
        self.text()
    }

    fn serialize(&self) -> (r: String) {
        proof {
            reveal_strlit("\": {\"sound\": \"");
            reveal_strlit("\", \"textures\": ");
        }
        let mut s = String::new();
        push_char(&mut s, '"');
        let id = self.id.render();
        s.append(id.as_str());
        s.append("\": {\"sound\": \"");
        s.append(self.sound.as_str());
        s.append("\", \"textures\": ");
        self.textures.push_text(&mut s);
        push_char(&mut s, '}');
        assert(s@ =~= self.text());
        s
    }

    fn id(&self) -> (r: Identifier) {
        self.id.duplicate()
    }
}

/// One entry of the blocks atlas, whichever shape it takes.
#[derive(Debug)]
pub enum BlockAtlasEntryKind {
    All(AllBlockAtlasEntry),
    PerFace(PerFaceBlockAtlasEntry),
}

/// The serialized entry of an atlas entry, whichever shape it takes.
pub open spec fn atlas_entry_text(e: BlockAtlasEntryKind) -> Seq<char> {
    match e {
        BlockAtlasEntryKind::All(x) => x.text(),
        BlockAtlasEntryKind::PerFace(x) => x.text(),
    }
}

/// The serialized entries of an atlas, in order.
pub open spec fn atlas_texts(es: Seq<BlockAtlasEntryKind>) -> Seq<Seq<char>> {
    Seq::new(es.len(), |i: int| atlas_entry_text(es[i]))
}

impl BlockAtlasEntry for BlockAtlasEntryKind {
    open spec fn entry_text(&self) -> Seq<char> {
        atlas_entry_text(*self)
    }

    fn serialize(&self) -> (r: String) {
        match self {
            BlockAtlasEntryKind::All(x) => x.serialize(),
            BlockAtlasEntryKind::PerFace(x) => x.serialize(),
        }
    }

    fn id(&self) -> (r: Identifier) {
        match self {
            BlockAtlasEntryKind::All(x) => x.id.duplicate(),
            BlockAtlasEntryKind::PerFace(x) => x.id.duplicate(),
        }
    }
}

/// Serializes the blocks atlas: the entries, in order, comma separated.
pub fn serialize_block_atlas(atlas: &Vec<BlockAtlasEntryKind>) -> (r: String)
    ensures
        r@ == join_texts(atlas_texts(atlas@), ","@),
{
    let mut parts: Vec<String> = Vec::new();
    let mut i: usize = 0;
    while i < atlas.len()
        invariant
            i <= atlas@.len(),
            parts@.len() == i,
            forall|j: int| 0 <= j < i ==> parts@[j]@ == atlas_entry_text(atlas@[j]),
        decreases atlas@.len() - i,
    {
        parts.push(atlas[i].serialize());
        i = i + 1;
    }
    proof {
        assert(texts_view(parts@) =~= atlas_texts(atlas@));
        reveal_strlit(",");
    }
    let mut s = String::new();
    push_join(&mut s, &parts, ",");
    assert(s@ =~= join_texts(atlas_texts(atlas@), ","@));
    s
}

/// One entry of the terrain texture atlas.
#[derive(Clone, Debug)]
pub struct TerrainAtlasEntry {
    pub id: String,
    pub texture_path: String,
}

impl TerrainAtlasEntry {
    /// The serialized `"id": { "textures": path }` entry.
    pub open spec fn text(&self) -> Seq<char> {
        seq!['"'] + self.id@ + "\": {\"textures\": \""@ + self.texture_path@ + "\"}"@
    }

    /// Serializes the entry.
    pub fn serialize(&self) -> (r: String)
        ensures
            r@ == self.text(),
    {
        proof {
            reveal_strlit("\": {\"textures\": \"");
            reveal_strlit("\"}");
        }
        let mut s = String::new();
        push_char(&mut s, '"');
        s.append(self.id.as_str());
        s.append("\": {\"textures\": \"");
        s.append(self.texture_path.as_str());
        s.append("\"}");
        assert(s@ =~= self.text());
        s
    }
}

/// The serialized entries of the terrain atlas, in order.
pub open spec fn terrain_texts(es: Seq<TerrainAtlasEntry>) -> Seq<Seq<char>> {
    Seq::new(es.len(), |i: int| es[i].text())
}

/// Serializes the terrain texture atlas: the entries, in order, comma
/// separated.
pub fn serialize_terrain_atlas(atlas: &Vec<TerrainAtlasEntry>) -> (r: String)
    ensures
        r@ == join_texts(terrain_texts(atlas@), ","@),
{
    let mut parts: Vec<String> = Vec::new();
    let mut i: usize = 0;
    while i < atlas.len()
        invariant
            i <= atlas@.len(),
            parts@.len() == i,
            forall|j: int| 0 <= j < i ==> parts@[j]@ == atlas@[j].text(),
        decreases atlas@.len() - i,
    {
        parts.push(atlas[i].serialize());
        i = i + 1;
    }
    proof {
        assert(texts_view(parts@) =~= terrain_texts(atlas@));
        reveal_strlit(",");
    }
    let mut s = String::new();
    push_join(&mut s, &parts, ",");
    assert(s@ =~= join_texts(terrain_texts(atlas@), ","@));
    s
}

impl crate::vio::Buildable for AllBlockAtlasEntry {

}

impl crate::vio::Buildable for PerFaceBlockAtlasEntry {

}

} // verus!
