//! A code generator backend for Go: it turns the declarations of a JSON
//! Type Definition schema, already resolved and named, into Go source with
//! JSON tags and marshaling code for tagged unions.
//!
//! - `text`: character classes, strings and comment blocks.
//! - `inflect`: naming conventions that turn name parts into identifiers.
//! - `metadata`: the metadata of a declaration and its type-name overrides.
//! - `target`: the declarations handed to a backend and the backend trait.
//! - `go`: the Go backend's configuration, names and type expressions.
//! - `go_emit`: the Go source of each kind of declaration.
use vstd::prelude::*;

pub mod text;
pub mod inflect;
pub mod metadata;
pub mod target;
pub mod go;
pub mod go_emit;

verus! {

} // verus!
