//! Metadata and verification core of a single-file source bundler: package-graph
//! lookups, binary-target selection, external crate name resolution, pseudo-module
//! paths and the decisions of the scratch-package type check.

pub mod error;
pub mod search;
pub mod names;
pub mod select;
pub mod graph;
pub mod bins;
pub mod resolve;
pub mod pseudo_module;
pub mod package_metadata;
pub mod workspace;
pub mod sandbox;
pub mod sandbox_run;
pub mod manifest;
