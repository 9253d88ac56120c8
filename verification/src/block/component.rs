//! Block components: small records that each serialize to one tagged entry
//! of a block's `components` object. These are the expansions the component
//! declarations generate, written out with their serialization contracts;
//! any further component enters a block through [`BlockComponentKind::custom`]
//! as a constructed [`crate::instance::ComponentInstance`].

use crate::instance::{component_entry_text, ComponentInstance};
use crate::text::{bool_text, dec_int, push_bool, push_char, push_dec_i32};
use crate::vio::{push_vec3, Vec3};
use vstd::prelude::*;
use vstd::string::StringExecFns;

verus! {

/// A record that serializes to one tagged entry of a block's components.
pub trait BlockComponent {
    /// The serialized entry.
    spec fn serial_text(&self) -> Seq<char>;

    fn serialize(&self) -> (r: String)
        ensures
            r@ == self.serial_text(),
    ;
}

/// The collision bounds of a block.
#[derive(Clone, Copy, Debug)]
pub struct BlockCollisionBoxComponent {
    pub origin: Vec3,
    pub size: Vec3,
}

impl BlockCollisionBoxComponent {
    pub open spec fn text(&self) -> Seq<char> {
        "\"minecraft:collision_box\": {\"origin\": "@ + self.origin.arr_text() + ", \"size\": "@
            + self.size.arr_text() + seq!['}']
    }

    pub fn new(origin: Vec3, size: Vec3) -> (r: Self)
        ensures
            r == (BlockCollisionBoxComponent { origin, size }),
    {
        Self { origin, size }
    }

    /// A box covering the whole block.
    pub fn full() -> (r: Self)
        ensures
            r.origin == (Vec3 { x: -8i32, y: 0i32, z: -8i32 }),
            r.size == (Vec3 { x: 16i32, y: 16i32, z: 16i32 }),
    {
        Self { origin: Vec3 { x: -8, y: 0, z: -8 }, size: Vec3 { x: 16, y: 16, z: 16 } }
    }

    /// The component that turns collision off altogether.
    pub fn disabled() -> (r: BlockNoCollisionBoxComponent)
        ensures
            r.enabled == false,
    {
        BlockNoCollisionBoxComponent::new(false)
    }
}

impl BlockComponent for BlockCollisionBoxComponent {
    open spec fn serial_text(&self) -> Seq<char> {
        self.text()
    }

    fn serialize(&self) -> (r: String) {
        proof {
            reveal_strlit("\"minecraft:collision_box\": {\"origin\": ");
            reveal_strlit(", \"size\": ");
        }
        let mut s = String::new();
        s.append("\"minecraft:collision_box\": {\"origin\": ");
        push_vec3(&mut s, &self.origin);
        s.append(", \"size\": ");
        push_vec3(&mut s, &self.size);
        push_char(&mut s, '}');
        assert(s@ =~= self.text());
        s
    }
}

/// The transparent collision switch: its one field serializes bare under
/// the collision tag.
#[derive(Clone, Copy, Debug)]
pub struct BlockNoCollisionBoxComponent {
    pub enabled: bool,
}

impl BlockNoCollisionBoxComponent {
    pub open spec fn text(&self) -> Seq<char> {
        "\"minecraft:collision_box\": "@ + bool_text(self.enabled)
    }

    pub fn new(enabled: bool) -> (r: Self)
        ensures
            r.enabled == enabled,
    {
        Self { enabled }
    }
}

impl BlockComponent for BlockNoCollisionBoxComponent {
    open spec fn serial_text(&self) -> Seq<char> {
        self.text()
    }

    fn serialize(&self) -> (r: String) {
        proof {
            reveal_strlit("\"minecraft:collision_box\": ");
        }
        let mut s = String::new();
        s.append("\"minecraft:collision_box\": ");
        push_bool(&mut s, self.enabled);
        assert(s@ =~= self.text());
        s
    }
}

/// The blast resistance of a block.
#[derive(Clone, Copy, Debug)]
pub struct BlockDestructibleByExplosionComponent {
    pub explosion_resistance: i32,
}

impl BlockDestructibleByExplosionComponent {
    pub open spec fn text(&self) -> Seq<char> {
        "\"minecraft:destructible_by_explosion\": {\"explosion_resistance\": "@ + dec_int(
            self.explosion_resistance as int,
        ) + seq!['}']
    }

    pub fn new(explosion_resistance: i32) -> (r: Self)
        ensures
            r.explosion_resistance == explosion_resistance,
    {
        Self { explosion_resistance }
    }

    /// The component that makes the block survive any explosion.
    pub fn indestructible() -> (r: BlockIndestructibleByExplosionComponent)
        ensures
            r.destructible == false,
    {
        BlockIndestructibleByExplosionComponent::new(false)
    }
}

impl BlockComponent for BlockDestructibleByExplosionComponent {
    open spec fn serial_text(&self) -> Seq<char> {
        self.text()
    }

    fn serialize(&self) -> (r: String) {
        proof {
            reveal_strlit("\"minecraft:destructible_by_explosion\": {\"explosion_resistance\": ");
        }
        let mut s = String::new();
        s.append("\"minecraft:destructible_by_explosion\": {\"explosion_resistance\": ");
        push_dec_i32(&mut s, self.explosion_resistance);
        push_char(&mut s, '}');
        assert(s@ =~= self.text());
        s
    }
}

/// The transparent explosion switch.
#[derive(Clone, Copy, Debug)]
pub struct BlockIndestructibleByExplosionComponent {
    pub destructible: bool,
}

impl BlockIndestructibleByExplosionComponent {
    pub open spec fn text(&self) -> Seq<char> {
        "\"minecraft:destructible_by_explosion\": "@ + bool_text(self.destructible)
    }

    pub fn new(destructible: bool) -> (r: Self)
        ensures
            r.destructible == destructible,
    {
        Self { destructible }
    }
}

impl BlockComponent for BlockIndestructibleByExplosionComponent {
    open spec fn serial_text(&self) -> Seq<char> {
        self.text()
    }

    fn serialize(&self) -> (r: String) {
        proof {
            reveal_strlit("\"minecraft:destructible_by_explosion\": ");
        }
        let mut s = String::new();
        s.append("\"minecraft:destructible_by_explosion\": ");
        push_bool(&mut s, self.destructible);
        assert(s@ =~= self.text());
        s
    }
}

/// How long a block takes to mine, in whole seconds.
#[derive(Clone, Copy, Debug)]
pub struct BlockDestructibleByMiningComponent {
    pub seconds_to_destroy: i32,
}

impl BlockDestructibleByMiningComponent {
    pub open spec fn text(&self) -> Seq<char> {
        "\"minecraft:destructible_by_mining\": {\"seconds_to_destroy\": "@ + dec_int(
            self.seconds_to_destroy as int,
        ) + seq!['}']
    }

    pub fn new(seconds_to_destroy: i32) -> (r: Self)
        ensures
            r.seconds_to_destroy == seconds_to_destroy,
    {
        Self { seconds_to_destroy }
    }

    /// A block that breaks the moment it is mined.
    pub fn instant_mine() -> (r: Self)
        ensures
            r.seconds_to_destroy == 0,
    {
        Self { seconds_to_destroy: 0 }
    }

    /// The component that makes the block unmineable.
    pub fn indestructible() -> (r: BlockIndestructibleByMiningComponent)
        ensures
            r.destructible == false,
    {
        BlockIndestructibleByMiningComponent::new(false)
    }
}

impl BlockComponent for BlockDestructibleByMiningComponent {
    open spec fn serial_text(&self) -> Seq<char> {
        self.text()
    }

    fn serialize(&self) -> (r: String) {
        proof {
            reveal_strlit("\"minecraft:destructible_by_mining\": {\"seconds_to_destroy\": ");
        }
        let mut s = String::new();
        s.append("\"minecraft:destructible_by_mining\": {\"seconds_to_destroy\": ");
        push_dec_i32(&mut s, self.seconds_to_destroy);
        push_char(&mut s, '}');
        assert(s@ =~= self.text());
        s
    }
}

/// The transparent mining switch.
#[derive(Clone, Copy, Debug)]
pub struct BlockIndestructibleByMiningComponent {
    pub destructible: bool,
}

impl BlockIndestructibleByMiningComponent {
    pub open spec fn text(&self) -> Seq<char> {
        "\"minecraft:destructible_by_mining\": "@ + bool_text(self.destructible)
    }

    pub fn new(destructible: bool) -> (r: Self)
        ensures
            r.destructible == destructible,
    {
        Self { destructible }
    }
}

impl BlockComponent for BlockIndestructibleByMiningComponent {
    open spec fn serial_text(&self) -> Seq<char> {
        self.text()
    }

    fn serialize(&self) -> (r: String) {
        proof {
            reveal_strlit("\"minecraft:destructible_by_mining\": ");
        }
        let mut s = String::new();
        s.append("\"minecraft:destructible_by_mining\": ");
        push_bool(&mut s, self.destructible);
        assert(s@ =~= self.text());
        s
    }
}

/// How readily a block catches and spreads fire.
#[derive(Clone, Copy, Debug)]
pub struct BlockFlammableComponent {
    pub catch_chance_modifier: i32,
    pub destroy_chance_modifier: i32,
}

impl BlockFlammableComponent {
    pub open spec fn text(&self) -> Seq<char> {
        "\"minecraft:flammable\": {\"catch_chance_modifier\": "@ + dec_int(
            self.catch_chance_modifier as int,
        ) + ", \"destroy_chance_modifier\": "@ + dec_int(self.destroy_chance_modifier as int)
            + seq!['}']
    }

    pub fn new(catch_chance_modifier: i32, destroy_chance_modifier: i32) -> (r: Self)
        ensures
            r == (BlockFlammableComponent { catch_chance_modifier, destroy_chance_modifier }),
    {
        Self { catch_chance_modifier, destroy_chance_modifier }
    }

    /// The vanilla flammability of wood.
    pub fn default() -> (r: Self)
        ensures
            r.catch_chance_modifier == 5,
            r.destroy_chance_modifier == 2,
    {
        Self { catch_chance_modifier: 5, destroy_chance_modifier: 2 }
    }
}

impl BlockComponent for BlockFlammableComponent {
    open spec fn serial_text(&self) -> Seq<char> {
        self.text()
    }

    fn serialize(&self) -> (r: String) {
        proof {
            reveal_strlit("\"minecraft:flammable\": {\"catch_chance_modifier\": ");
            reveal_strlit(", \"destroy_chance_modifier\": ");
        }
        let mut s = String::new();
        s.append("\"minecraft:flammable\": {\"catch_chance_modifier\": ");
        push_dec_i32(&mut s, self.catch_chance_modifier);
        s.append(", \"destroy_chance_modifier\": ");
        push_dec_i32(&mut s, self.destroy_chance_modifier);
        push_char(&mut s, '}');
        assert(s@ =~= self.text());
        s
    }
}

/// The selection bounds of a block.
#[derive(Clone, Copy, Debug)]
pub struct BlockSelectionBoxComponent {
    pub origin: Vec3,
    pub size: Vec3,
}

impl BlockSelectionBoxComponent {
    pub open spec fn text(&self) -> Seq<char> {
        "\"minecraft:selection_box\": {\"origin\": "@ + self.origin.arr_text() + ", \"size\": "@
            + self.size.arr_text() + seq!['}']
    }

    pub fn new(origin: Vec3, size: Vec3) -> (r: Self)
        ensures
            r == (BlockSelectionBoxComponent { origin, size }),
    {
        Self { origin, size }
    }

    /// A box covering the whole block.
    pub fn full() -> (r: Self)
        ensures
            r.origin == (Vec3 { x: -8i32, y: 0i32, z: -8i32 }),
            r.size == (Vec3 { x: 16i32, y: 16i32, z: 16i32 }),
    {
        Self { origin: Vec3 { x: -8, y: 0, z: -8 }, size: Vec3 { x: 16, y: 16, z: 16 } }
    }

    /// The component that turns the selection box off.
    pub fn disabled() -> (r: BlockNoSelectionBoxComponent)
        ensures
            r.enabled == false,
    {
        BlockNoSelectionBoxComponent::new(false)
    }
}

impl BlockComponent for BlockSelectionBoxComponent {
    open spec fn serial_text(&self) -> Seq<char> {
        self.text()
    }

    fn serialize(&self) -> (r: String) {
        proof {
            reveal_strlit("\"minecraft:selection_box\": {\"origin\": ");
            reveal_strlit(", \"size\": ");
        }
        let mut s = String::new();
        s.append("\"minecraft:selection_box\": {\"origin\": ");
        push_vec3(&mut s, &self.origin);
        s.append(", \"size\": ");
        push_vec3(&mut s, &self.size);
        push_char(&mut s, '}');
        assert(s@ =~= self.text());
        s
    }
}

/// The transparent selection switch.
#[derive(Clone, Copy, Debug)]
pub struct BlockNoSelectionBoxComponent {
    pub enabled: bool,
}

impl BlockNoSelectionBoxComponent {
    pub open spec fn text(&self) -> Seq<char> {
        "\"minecraft:selection_box\": "@ + bool_text(self.enabled)
    }

    pub fn new(enabled: bool) -> (r: Self)
        ensures
            r.enabled == enabled,
    {
        Self { enabled }
    }
}

impl BlockComponent for BlockNoSelectionBoxComponent {
    open spec fn serial_text(&self) -> Seq<char> {
        self.text()
    }

    fn serialize(&self) -> (r: String) {
        proof {
            reveal_strlit("\"minecraft:selection_box\": ");
        }
        let mut s = String::new();
        s.append("\"minecraft:selection_box\": ");
        push_bool(&mut s, self.enabled);
        assert(s@ =~= self.text());
        s
    }
}

/// One component of a block, whichever record it is.
#[derive(Debug)]
pub enum BlockComponentKind {
    CollisionBox(BlockCollisionBoxComponent),
    NoCollisionBox(BlockNoCollisionBoxComponent),
    DestructibleByExplosion(BlockDestructibleByExplosionComponent),
    IndestructibleByExplosion(BlockIndestructibleByExplosionComponent),
    DestructibleByMining(BlockDestructibleByMiningComponent),
    IndestructibleByMining(BlockIndestructibleByMiningComponent),
    Flammable(BlockFlammableComponent),
    SelectionBox(BlockSelectionBoxComponent),
    NoSelectionBox(BlockNoSelectionBoxComponent),
    Custom(String),
}

/// The serialized entry of a component, whichever record it is.
pub open spec fn kind_text(c: BlockComponentKind) -> Seq<char> {
    match c {
        BlockComponentKind::CollisionBox(x) => x.text(),
        BlockComponentKind::NoCollisionBox(x) => x.text(),
        BlockComponentKind::DestructibleByExplosion(x) => x.text(),
        BlockComponentKind::IndestructibleByExplosion(x) => x.text(),
        BlockComponentKind::DestructibleByMining(x) => x.text(),
        BlockComponentKind::IndestructibleByMining(x) => x.text(),
        BlockComponentKind::Flammable(x) => x.text(),
        BlockComponentKind::SelectionBox(x) => x.text(),
        BlockComponentKind::NoSelectionBox(x) => x.text(),
        BlockComponentKind::Custom(s) => s@,
    }
}

/// The serialized entries of a component list, in order.
pub open spec fn kinds_texts(cs: Seq<BlockComponentKind>) -> Seq<Seq<char>> {
    Seq::new(cs.len(), |i: int| kind_text(cs[i]))
}

impl BlockComponentKind {
    /// Wraps a component constructed from a declaration: its entry is the
    /// instance's serialization.
    pub fn custom(inst: &ComponentInstance) -> (r: Self)
        ensures
            kind_text(r) == component_entry_text(inst.tag@, inst.transparent, inst.fields@),
    {
        BlockComponentKind::Custom(inst.serialize())
    }

    /// Copies the component.
    pub fn duplicate(&self) -> (r: Self)
        ensures
            kind_text(r) == kind_text(*self),
    {
        match self {
            BlockComponentKind::CollisionBox(x) => BlockComponentKind::CollisionBox(*x),
            BlockComponentKind::NoCollisionBox(x) => BlockComponentKind::NoCollisionBox(*x),
            BlockComponentKind::DestructibleByExplosion(x) => {
                BlockComponentKind::DestructibleByExplosion(*x)
            },
            BlockComponentKind::IndestructibleByExplosion(x) => {
                BlockComponentKind::IndestructibleByExplosion(*x)
            },
            BlockComponentKind::DestructibleByMining(x) => {
                BlockComponentKind::DestructibleByMining(*x)
            },
            BlockComponentKind::IndestructibleByMining(x) => {
                BlockComponentKind::IndestructibleByMining(*x)
            },
            BlockComponentKind::Flammable(x) => BlockComponentKind::Flammable(*x),
            BlockComponentKind::SelectionBox(x) => BlockComponentKind::SelectionBox(*x),
            BlockComponentKind::NoSelectionBox(x) => BlockComponentKind::NoSelectionBox(*x),
            BlockComponentKind::Custom(s) => BlockComponentKind::Custom(s.clone()),
        }
    }
}

impl BlockComponent for BlockComponentKind {
    open spec fn serial_text(&self) -> Seq<char> {
        kind_text(*self)
    }

    fn serialize(&self) -> (r: String) {
        match self {
            BlockComponentKind::CollisionBox(x) => x.serialize(),
            BlockComponentKind::NoCollisionBox(x) => x.serialize(),
            BlockComponentKind::DestructibleByExplosion(x) => x.serialize(),
            BlockComponentKind::IndestructibleByExplosion(x) => x.serialize(),
            BlockComponentKind::DestructibleByMining(x) => x.serialize(),
            BlockComponentKind::IndestructibleByMining(x) => x.serialize(),
            BlockComponentKind::Flammable(x) => x.serialize(),
            BlockComponentKind::SelectionBox(x) => x.serialize(),
            BlockComponentKind::NoSelectionBox(x) => x.serialize(),
            BlockComponentKind::Custom(s) => s.clone(),
        }
    }
}

/// Copies a component list, entry texts preserved.
pub fn clone_components(cs: &Vec<BlockComponentKind>) -> (r: Vec<BlockComponentKind>)
    ensures
        kinds_texts(r@) == kinds_texts(cs@),
{
    let mut out: Vec<BlockComponentKind> = Vec::new();
    let mut i: usize = 0;
    while i < cs.len()
        invariant
            i <= cs@.len(),
            out@.len() == i,
            forall|j: int| 0 <= j < i ==> kind_text(out@[j]) == kind_text(cs@[j]),
        decreases cs@.len() - i,
    {
        out.push(cs[i].duplicate());
        i = i + 1;
    }
    proof {
        assert(kinds_texts(out@) =~= kinds_texts(cs@));
    }
    out
}

/// Serializes each component of a list, in order.
pub fn serialize_components(cs: &Vec<BlockComponentKind>) -> (r: Vec<String>)
    ensures
        crate::text::texts_view(r@) == kinds_texts(cs@),
{
    let mut out: Vec<String> = Vec::new();
    let mut i: usize = 0;
    while i < cs.len()
        invariant
            i <= cs@.len(),
            out@.len() == i,
            forall|j: int| 0 <= j < i ==> out@[j]@ == kind_text(cs@[j]),
        decreases cs@.len() - i,
    {
        out.push(cs[i].serialize());
        i = i + 1;
    }
    proof {
        assert(crate::text::texts_view(out@) =~= kinds_texts(cs@));
    }
    out
}

} // verus!
