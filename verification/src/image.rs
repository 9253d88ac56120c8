//! The blending vocabulary and composition options of the texture
//! pipeline. Pixel work itself is the embedding application's concern.

use vstd::prelude::*;

verus! {

/// How two textures are blended during composition.
#[derive(Clone, Copy, Debug)]
pub enum BlendMode {
    Overlay,
}

/// Options of a texture composition.
#[derive(Clone, Copy, Debug)]
pub struct ComposeOptions {
    pub repeats: u8,
}

impl Default for ComposeOptions {
    fn default() -> (r: Self)
        ensures
            r.repeats == 1,
    {
        Self { repeats: 1 }
    }
}

impl ComposeOptions {
    /// The options with the given repeat count.
    pub fn using_repeats(self, repeats: u8) -> (r: Self)
        ensures
            r.repeats == repeats,
    {
        Self { repeats }
    }
}

} // verus!
