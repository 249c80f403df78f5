//! Compiler from a declarative markup tree to an executable build plan.
//!
//! The input is a tree of markup nodes (elements with attributes, literal
//! text, and embedded host-language expression blocks), already parsed by an
//! external front end.  The output is a build plan: an ordered tree of
//! operations (spawn an entity, set an attribute, insert components, append a
//! child, expand dynamic children) that a scene-graph runtime executes to
//! materialize the described hierarchy.
//!
//! The compiler itself is a pure, deterministic tree transform; it either
//! returns a complete plan or fails with a compile error that carries a
//! source span.

pub mod ast;
pub mod attrs;
pub mod laws;
pub mod plan;
pub mod tree;
