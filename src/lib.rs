//! Derives the names of a record type's create/read/update/patch/delete
//! accessors and renders those accessors as Rust source text.

pub mod normalize;
pub mod names;
pub mod render;
pub mod expand;
