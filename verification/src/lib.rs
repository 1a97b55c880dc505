//! Declarative management of document-database collections and their indexes:
//! the resource model with its index equivalence, the mapping to and from
//! the driver's option types, the index differ and the reconciler's decisions.

pub mod collation;
pub mod controller;
pub mod differ;
pub mod double;
pub mod driver;
pub mod field_map;
pub mod json;
pub mod mapping;
pub mod order;
pub mod reconciler;
pub mod resource;
pub mod sequences;
pub mod text;
