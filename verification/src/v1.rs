//! The validated manifest model.
pub mod error;
pub mod git;
pub mod into_url;
pub mod url_text;
pub mod model;
