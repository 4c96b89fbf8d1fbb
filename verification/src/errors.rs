//! Error types of the library.
//!
//! `JuMakeError` covers project creation, context resolution and element
//! addition; `BuildError` covers the build, run and artifact-location steps.
//! Variants that stand for failures of outside collaborators (I/O, the
//! version-control library, the configuration store) carry a caller-supplied
//! description, since the failing call happens outside the library.

use vstd::prelude::*;

verus! {

/// Failures of project creation, element addition and context resolution.
#[derive(Clone, Debug)]
pub enum JuMakeError {
    /// An input/output failure, described by the caller.
    Io(String),
    /// A version-control failure, described by the caller.
    Git(String),
    /// A configuration problem, described by the message.
    Config(String),
    /// A failure to read the persistent configuration store.
    TomlDe(String),
    /// A failure to write the persistent configuration store.
    TomlSer(String),
    /// A failure of the interactive prompt collaborator.
    Dialoguer(String),
    /// A failure to link the framework sources into the project.
    Symlink { src: String, dst: String, message: String },
    /// The requested element kind is not `class` or `component`.
    InvalidElementType(String),
    /// A header or implementation file with the effective name already exists.
    AlreadyExists(String),
    /// No `PRIVATE` source-list marker follows the target-sources line
    /// of the build descriptor.
    MarkerNotFound,
    /// The requested build type is outside the recognized set.
    InvalidBuildType(String),
    /// The project path has no nameable final segment.
    ProjectNameUndeterminable,
    /// No line of the root build descriptor declares a project name.
    ProjectNameNotFound,
    /// The context names a template kind outside the closed set.
    UnknownTemplate(String),
    /// The context carries no template kind at all.
    NoTemplate,
}

/// Failures of the build, run and artifact-location steps.
#[derive(Clone, Debug)]
pub enum BuildError {
    /// An input/output failure, described by the caller.
    Io(String),
    /// Output of the artifact search was not text, described by the caller.
    Utf8(String),
    /// The configure step of the external build tool exited non-zero.
    CMakeConfigureFailed,
    /// The compile step of the external build tool exited non-zero.
    CMakeBuildFailed,
    /// No produced executable matches the requested build type.
    ExecutableNotFound(String),
    /// The compile-command export file is missing after a successful build.
    CompileCommandsMissing,
}

} // verus!
