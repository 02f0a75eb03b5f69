//! Generator for TypeScript-style declaration text from an API document's
//! schema definitions: name sanitizing, reference resolution, schema
//! translation, operation shapes, composition rewriting, and the final
//! document assembly.

pub mod document;
pub mod names;
pub mod operation;
pub mod rewrite;
pub mod schema;
pub mod swagger_v2;
pub mod text;
