//! An immutable item definition registry: a catalog of game item types
//! built once from a structured source document, with verified
//! bidirectional lookup between canonical names and compact numeric ids,
//! spawn-egg name derivation, and deferred display-name translation.

pub mod item;
mod json;
pub mod json_model;
pub mod laws;
pub mod registry;
pub mod strings;
