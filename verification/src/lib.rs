//! Template resolution and project materialization: the decisions of the
//! pipeline, stated and proved over plain values.

pub mod cache;
pub mod config;
pub mod errors;
pub mod identity;
pub mod index;
pub mod manifest;
pub mod materialize;
pub mod paths;
pub mod strings;
pub mod templates;
pub mod pipeline;
