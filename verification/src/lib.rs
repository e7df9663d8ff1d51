//! Cargo manifest model: the TOML schema of a manifest, the validated
//! manifest model, the conversion between them and the TOML front end.
pub mod text;
pub mod v1;
pub mod schema;
pub mod convert;
pub mod parser;
