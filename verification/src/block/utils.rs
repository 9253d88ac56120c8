//! Small helper records the block components build on: block selectors,
//! material instances and placement conditions.

use crate::vio::{Identifier, IntoText, MolangStatement, Pair};
use vstd::prelude::*;

verus! {

/// How fast a matching block is destroyed by the holder of an item.
#[derive(Clone, Debug)]
pub struct BlockDestroySpeed {
    pub block: BlockDescriptor,
    pub speed: i32,
}

impl BlockDestroySpeed {
    pub fn new(block: BlockDescriptor, speed: i32) -> (r: Self)
        ensures
            r.speed == speed,
            r.block == block,
    {
        Self { block, speed }
    }
}

/// A block selector: by tag expression, by name, or by state values.
#[derive(Clone, Debug)]
pub struct BlockDescriptor {
    pub tags: Option<MolangStatement>,
    pub name: Option<Identifier>,
    pub states: Vec<Pair<String, String>>,
}

impl BlockDescriptor {
    /// A selector by tag expression.
    pub fn new_tags(tags: MolangStatement) -> (r: Self)
        ensures
            r.tags == Some(tags),
            r.name is None,
            r.states@.len() == 0,
    {
        Self { tags: Some(tags), name: None, states: Vec::new() }
    }

    /// A selector by block name.
    pub fn new_name(name: Identifier) -> (r: Self)
        ensures
            r.name == Some(name),
            r.tags is None,
            r.states@.len() == 0,
    {
        Self { tags: None, name: Some(name), states: Vec::new() }
    }
}

/// How a block face is rendered.
#[derive(Clone, Copy, Debug)]
pub enum BlockRenderMethod {
    AlphaTest,
    AlphaTestSingleSided,
    Blend,
    DoubleSided,
    Opaque,
}

/// One face of a block.
#[derive(Clone, Copy, Debug)]
pub enum BlockFace {
    North,
    East,
    South,
    West,
    Up,
    Down,
}

/// The material of one block face.
#[derive(Clone, Debug)]
pub struct MaterialInstance {
    pub texture: String,
    pub render_method: BlockRenderMethod,
    pub face_dimming: bool,
    pub ambient_occlusion: bool,
}

impl MaterialInstance {
    /// A material with the given texture and render method; face dimming
    /// and ambient occlusion stay on.
    pub fn new<S: IntoText>(texture: S, render_method: BlockRenderMethod) -> (r: Self)
        ensures
            r.texture@ == texture.chars(),
            r.render_method == render_method,
            r.face_dimming == true,
            r.ambient_occlusion == true,
    {
        Self {
            texture: texture.to_text(),
            render_method,
            face_dimming: true,
            ambient_occlusion: true,
        }
    }
}

/// Where a block may be placed.
#[derive(Clone, Debug)]
pub struct BlockPlacementCondition {
    pub allowed_faces: Vec<BlockFace>,
    pub block_filter: Vec<BlockDescriptor>,
}

impl BlockPlacementCondition {
    pub fn new() -> (r: Self)
        ensures
            r.allowed_faces@.len() == 0,
            r.block_filter@.len() == 0,
    {
        Self { allowed_faces: Vec::new(), block_filter: Vec::new() }
    }
}

} // verus!
