//! Core logic for embedding a browser engine as a source element in a host
//! media pipeline: typed parsing of environment overrides, reconciliation of
//! the host's baseline options with those overrides, a publish-once
//! configuration store, build-flag introspection, and the decision logic of
//! the build-time capability discovery step.

pub mod discovery;
pub mod envvar;
pub mod features;
pub mod options;
pub mod parse;
pub mod store;
