//! Placing, checking and removing the manifests through which browsers find
//! a native host.
pub mod manifest;
pub mod paths;
pub mod plan;
