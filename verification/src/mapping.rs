//! The mapping between the resource model and the driver's option types,
//! in both directions.

pub mod collation;
pub mod collections;
pub mod filters;
pub mod indexes;
pub mod keys;
pub mod options;
pub mod values;
pub mod versions;
