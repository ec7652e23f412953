//! Verified core of a builder that turns a declarative execution-container
//! specification into a container build recipe, a package manifest, and a
//! staged on-disk package ready for an image-build backend.
//!
//! The crate holds the deterministic logic of the pipeline: deriving the
//! package manifest from declared actions, synthesizing the build-descriptor
//! text, planning the staging steps, and classifying the outcomes of the
//! external tools. File I/O, YAML (de)serialization and process execution are
//! left to the surrounding application, which drives this library with plain
//! values.

pub mod actiongroup;
pub mod backend;
pub mod common;
pub mod container;
pub mod dockerfile;
pub mod errors;
pub mod package;
pub mod pipeline;
pub mod staging;
