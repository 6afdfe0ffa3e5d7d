//! Rendering of Unity IL2CPP runtime metadata as C#-like declarations.
//!
//! The runtime is queried elsewhere; this library takes what was read as plain
//! values (see `model`) and produces the text of the dump (see `render`).

pub mod tabledefs;
pub mod laws;
pub mod model;
pub mod render;
pub mod runtime;
pub mod shape;
pub mod text;
