//! Code-generation decisions for the `tql` SQL macros, stated and proved over a plain model of
//! the structs and queries that the macros receive.

pub mod error;
pub mod expand;
pub mod fields;
pub mod macros;
pub mod methods;
pub mod missing;
pub mod model;
pub mod parse;
pub mod query;
pub mod text;
pub mod types;
