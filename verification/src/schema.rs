//! The TOML schema of a manifest: every table and field as the manifest
//! file writes it, unvalidated.
pub mod dependency_map;
pub mod opt_level;
pub mod profile;
pub mod values;
pub mod manifest;
