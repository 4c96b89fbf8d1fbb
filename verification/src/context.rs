//! The project context: the single description of "the project being
//! operated on", together with the pure resolution steps that construct it
//! from ambient breadcrumbs (working-directory path, marker-file content,
//! descriptor content).

use vstd::prelude::*;
use vstd::string::StringExecFns;

use crate::errors::JuMakeError;
use crate::strutil::basename_of;
use crate::strutil::basename_spec;
use crate::strutil::str_eq;

verus! {

/// The authoritative in-memory description of the project one command
/// invocation operates on.  Immutable for the duration of the command.
#[derive(Clone, Debug)]
pub struct Context {
    /// Project identity; doubles as folder name and build-tool identifier.
    pub project_name: String,
    /// Directory that holds (or will hold) the project.
    pub project_path: String,
    /// Template kind, when known; validated lazily at materialization time.
    pub template_name: Option<String>,
    /// Named build configuration; always one of the recognized set before
    /// a build or run executes.
    pub build_type: String,
}

/// The closed set of recognized build configuration names.
pub open spec fn valid_build_type(s: Seq<char>) -> bool {
    s == "Debug"@ || s == "Release"@ || s == "RelWithDebInfo"@ || s == "MinSizeRel"@
}

/// Decides membership in the closed set of build configuration names.
/// `LastUsed` is deliberately not accepted here: it is a sentinel resolved
/// by [`effective_build_type`] before validation.
pub fn validate_build_type(build_type: &str) -> (r: bool)
    ensures
        r == valid_build_type(build_type@),
{
    str_eq(build_type, "Debug") || str_eq(build_type, "Release") || str_eq(
        build_type,
        "RelWithDebInfo",
    ) || str_eq(build_type, "MinSizeRel")
}

/// What the `LastUsed` sentinel resolves to: the marker-file content when
/// the sentinel is requested and a marker exists, the fixed default when
/// the marker is absent, and the request itself otherwise.
pub open spec fn effective_build_type_spec(requested: Seq<char>, marker: Option<&str>) -> Seq<
    char,
> {
    if requested == "LastUsed"@ {
        match marker {
            Some(m) => m@,
            None => "Release"@,
        }
    } else {
        requested
    }
}

/// Resolves the `LastUsed` sentinel: when it is requested, the marker-file
/// content wins, and an absent or unreadable marker falls back to `Release`;
/// any other request is used verbatim.
pub fn effective_build_type(requested: &str, marker: Option<&str>) -> (r: String)
    ensures
        r@ == effective_build_type_spec(requested@, marker),
{
    if str_eq(requested, "LastUsed") {
        match marker {
            Some(m) => String::from_str(m),
            None => String::from_str("Release"),
        }
    } else {
        String::from_str(requested)
    }
}

/// Derives the project name from the final path segment of the project
/// root, failing when the path has no nameable segment.
pub fn project_name_from_path(project_path: &str) -> (r: Result<String, JuMakeError>)
    ensures
        match r {
            Ok(name) => basename_spec(project_path@) == Some(name@),
            Err(e) => basename_spec(project_path@) is None && e
                matches JuMakeError::ProjectNameUndeterminable,
        },
{
    match basename_of(project_path) {
        Some(name) => Ok(name),
        None => Err(JuMakeError::ProjectNameUndeterminable),
    }
}

} // verus!
