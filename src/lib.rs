//! Typed object views over a parsed FBX scene-graph document.
//!
//! A [`document::Document`] holds object nodes, property templates and
//! connection edges. [`object::ObjectHandle`] is a borrowed view of one node;
//! it can be classified into a closed set of categories (deformer, texture,
//! video) with an `Unknown` fallback, its properties resolved through typed
//! loaders with defaults, and related objects found by walking its edges.

mod search;
mod text;
pub mod deformer;
pub mod document;
pub mod object;
pub mod property;
pub mod relation;
pub mod texture;
pub mod typed;
pub mod video;
