//! Verified core of a project-scaffolding tool for native JUCE projects.
//!
//! The crate derives a project context from on-disk breadcrumbs, plans
//! template materialization and build-descriptor edits, decides how an
//! external build tool is configured and invoked, and selects the produced
//! executable among platform-dependent candidates.  All decisions are pure
//! functions over plain values; the surrounding binary performs the file,
//! subprocess and repository work the decisions call for.

pub mod build_plan;
pub mod commands;
pub mod context;
pub mod descriptor;
pub mod errors;
pub mod repo;
pub mod strutil;
pub mod templates;
