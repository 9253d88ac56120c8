//! A declarative toolkit for building strongly typed "component" records and
//! emitting them as tagged entries of a structured document tree.
//!
//! The heart of the crate is a small compiler front-end: a tokenizer, a
//! recursive-descent parser for a terse component-declaration grammar, a
//! code-emission model that turns a parsed declaration into a record type
//! with constructor and fluent mutators, and a second grammar for object
//! literals with default-filled construction. Around it stands the data
//! model of the add-on domain: items, blocks, recipes and localization,
//! each of which serializes itself to a tagged piece of JSON text.

pub mod block;
pub mod component;
pub mod defaults;
pub mod emit;
pub mod emit_text;
pub mod image;
pub mod instance;
pub mod item;
pub mod json;
pub mod lexer;
pub mod localization;
pub mod recipe;
pub mod script_additions;
pub mod text;
pub mod tokens;
pub mod vio;
pub mod viola;
pub mod viola_text;

use vstd::prelude::*;

verus! {

/// Sum of two counters.
pub fn add(left: u64, right: u64) -> (r: u64)
    requires
        left + right <= u64::MAX,
    ensures
        r == left + right,
{
    left + right
}

} // verus!
