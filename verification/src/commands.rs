//! The decision core of each command: resolving the project context from
//! declared inputs (requested values, working-directory path, breadcrumb
//! contents) and sequencing project creation.  The surrounding binary
//! gathers those inputs and carries out the resulting plans.

use vstd::prelude::*;
use vstd::string::StringExecFns;

use crate::context::Context;
use crate::context::effective_build_type;
use crate::context::effective_build_type_spec;
use crate::context::project_name_from_path;
use crate::context::valid_build_type;
use crate::context::validate_build_type;
use crate::descriptor::determine_template_name;
use crate::descriptor::extract_project_name;
use crate::descriptor::project_name_from;
use crate::descriptor::resolved_template_spec;
use crate::errors::JuMakeError;
use crate::strutil::basename_spec;
use crate::strutil::concat2;
use crate::strutil::join_path;
use crate::strutil::joined_path_spec;
use crate::templates::effective_name_spec;
use crate::templates::element_file_names;

verus! {

// ---------------------------------------------------------------------
// Creating a project
// ---------------------------------------------------------------------

/// Builds the context of a `new` command: the project lives under the
/// chosen base directory in a folder named after it, the template is
/// whatever the caller settled on (an absent one stays absent and fails
/// later, at materialization), and the build type starts at the fixed
/// default.
pub fn handle_new(project_name: &str, base_path: &str, template_name: Option<&str>) -> (r: Context)
    ensures
        r.project_name@ == project_name@,
        r.project_path@ == joined_path_spec(base_path@, project_name@),
        match template_name {
            Some(t) => r.template_name matches Some(v) && v@ == t@,
            None => r.template_name is None,
        },
        r.build_type@ == "Release"@,
{
    Context {
        project_name: String::from_str(project_name),
        project_path: join_path(base_path, project_name),
        template_name: match template_name {
            Some(t) => Some(String::from_str(t)),
            None => None,
        },
        build_type: String::from_str("Release"),
    }
}

/// One step of the best-effort creation pipeline.
#[derive(Clone, Copy, Debug, PartialEq, Eq, Structural)]
pub enum CreationStep {
    /// Create the project directory itself.
    CreateProjectDir,
    /// Write the root build descriptor.
    CreateCmakelists,
    /// Materialize the template's source files.
    CreateSourceFiles,
    /// Initialize the version-control repository and ignore rules.
    InitializeGitRepo,
    /// Record the initial snapshot.
    CreateInitialCommit,
}

impl CreationStep {
    /// Whether a failure of this step aborts the whole creation.  Only
    /// the directory creation does; every later step is best-effort, so a
    /// partially failed creation still leaves a usable, inspectable
    /// directory behind.
    pub fn aborts_on_failure(&self) -> (r: bool)
        ensures
            r == (*self is CreateProjectDir),
    {
        match self {
            CreationStep::CreateProjectDir => true,
            _ => false,
        }
    }
}

/// The fixed, ordered steps of project creation.
pub open spec fn creation_steps_spec() -> Seq<CreationStep> {
    seq![
        CreationStep::CreateProjectDir,
        CreationStep::CreateCmakelists,
        CreationStep::CreateSourceFiles,
        CreationStep::InitializeGitRepo,
        CreationStep::CreateInitialCommit,
    ]
}

/// Plans project creation: an already existing project directory is
/// refused outright; otherwise creation is the fixed ordered pipeline of
/// steps, each to be attempted in turn.
pub fn create_project(context: &Context, path_exists: bool) -> (r: Result<
    Vec<CreationStep>,
    JuMakeError,
>)
    ensures
        ({
            if path_exists {
                r matches Err(e) && (e matches JuMakeError::Config(m) && m@
                    == "Project directory already exists: "@ + context.project_path@)
            } else {
                r matches Ok(steps) && steps@ == creation_steps_spec()
            }
        }),
{
    if path_exists {
        return Err(
            JuMakeError::Config(
                concat2("Project directory already exists: ", context.project_path.as_str()),
            ),
        );
    }
    let mut steps: Vec<CreationStep> = Vec::new();
    steps.push(CreationStep::CreateProjectDir);
    steps.push(CreationStep::CreateCmakelists);
    steps.push(CreationStep::CreateSourceFiles);
    steps.push(CreationStep::InitializeGitRepo);
    steps.push(CreationStep::CreateInitialCommit);
    proof {
        assert(steps@ =~= creation_steps_spec());
    }
    Ok(steps)
}

// ---------------------------------------------------------------------
// Adding an element
// ---------------------------------------------------------------------

/// What an `add` command resolves to before any file is touched.
#[derive(Debug)]
pub struct AddRequest {
    /// The context of the project in the working directory.
    pub context: Context,
    /// The effective element name after suffixing.
    pub effective_name: String,
    /// Name of the header file about to be created.
    pub header_file_name: String,
    /// Name of the implementation file about to be created.
    pub cpp_file_name: String,
}

/// Resolves an `add` command: the working directory is the project root
/// and its final segment the project name; the element kind must be
/// recognized, and the file names the element will occupy are derived
/// from the effective name.
pub fn handle_add(element_type: &str, element_name: &str, cwd: &str) -> (r: Result<
    AddRequest,
    JuMakeError,
>)
    ensures
        ({
            match basename_spec(cwd@) {
                None => r matches Err(e) && e matches JuMakeError::ProjectNameUndeterminable,
                Some(b) => match effective_name_spec(element_type@, element_name@) {
                    None => r matches Err(e) && (e matches JuMakeError::InvalidElementType(t)
                        && t@ == element_type@),
                    Some(n) => r matches Ok(req) && {
                        &&& req.context.project_name@ == b
                        &&& req.context.project_path@ == cwd@
                        &&& req.context.template_name is None
                        &&& req.context.build_type@ == "Release"@
                        &&& req.effective_name@ == n
                        &&& req.header_file_name@ == n + ".h"@
                        &&& req.cpp_file_name@ == n + ".cpp"@
                    },
                },
            }
        }),
{
    let project_name = match project_name_from_path(cwd) {
        Ok(n) => n,
        Err(e) => {
            return Err(e);
        },
    };
    let (effective_name, header_file_name, cpp_file_name) = match element_file_names(
        element_type,
        element_name,
    ) {
        Ok(names) => names,
        Err(e) => {
            return Err(e);
        },
    };
    Ok(
        AddRequest {
            context: Context {
                project_name,
                project_path: String::from_str(cwd),
                template_name: None,
                build_type: String::from_str("Release"),
            },
            effective_name,
            header_file_name,
            cpp_file_name,
        },
    )
}

// ---------------------------------------------------------------------
// Building and running
// ---------------------------------------------------------------------

/// Resolves a `build` command: the requested build type must belong to
/// the recognized set, the working directory is the project root and its
/// final segment the project name, and the template kind is re-derived
/// from the source-level descriptor's annotation.
pub fn handle_build(build_type: &str, cwd: &str, src_descriptor: Option<&str>) -> (r: Result<
    Context,
    JuMakeError,
>)
    ensures
        ({
            if !valid_build_type(build_type@) {
                r matches Err(e) && (e matches JuMakeError::InvalidBuildType(b) && b@
                    == build_type@)
            } else {
                match basename_spec(cwd@) {
                    None => r matches Err(e) && e
                        matches JuMakeError::ProjectNameUndeterminable,
                    Some(b) => r matches Ok(ctx) && {
                        &&& ctx.project_name@ == b
                        &&& ctx.project_path@ == cwd@
                        &&& ctx.template_name matches Some(t) && t@ == resolved_template_spec(
                            src_descriptor,
                        )
                        &&& ctx.build_type@ == build_type@
                    },
                }
            }
        }),
{
    if !validate_build_type(build_type) {
        return Err(JuMakeError::InvalidBuildType(String::from_str(build_type)));
    }
    let project_name = match project_name_from_path(cwd) {
        Ok(n) => n,
        Err(e) => {
            return Err(e);
        },
    };
    Ok(
        Context {
            project_name,
            project_path: String::from_str(cwd),
            template_name: determine_template_name(src_descriptor),
            build_type: String::from_str(build_type),
        },
    )
}

/// Resolves a `run` command: the `LastUsed` sentinel is resolved from the
/// marker file first, the result must belong to the recognized set, the
/// project name comes out of the root descriptor, and the template kind
/// out of the source-level descriptor's annotation.
pub fn resolve_run_context(
    requested: &str,
    marker: Option<&str>,
    root_lines: &Vec<String>,
    src_descriptor: Option<&str>,
    cwd: &str,
) -> (r: Result<Context, JuMakeError>)
    ensures
        ({
            let eff = effective_build_type_spec(requested@, marker);
            if !valid_build_type(eff) {
                r matches Err(e) && (e matches JuMakeError::InvalidBuildType(b) && b@ == eff)
            } else {
                match project_name_from(root_lines@, 0) {
                    Some(name) => r matches Ok(ctx) && {
                        &&& ctx.project_name@ == name
                        &&& ctx.project_path@ == cwd@
                        &&& ctx.template_name matches Some(t) && t@ == resolved_template_spec(
                            src_descriptor,
                        )
                        &&& ctx.build_type@ == eff
                    },
                    None => r matches Err(e) && e matches JuMakeError::ProjectNameNotFound,
                }
            }
        }),
{
    let effective = effective_build_type(requested, marker);
    if !validate_build_type(effective.as_str()) {
        return Err(JuMakeError::InvalidBuildType(effective));
    }
    let project_name = match extract_project_name(root_lines) {
        Ok(n) => n,
        Err(e) => {
            return Err(e);
        },
    };
    Ok(
        Context {
            project_name,
            project_path: String::from_str(cwd),
            template_name: determine_template_name(src_descriptor),
            build_type: effective,
        },
    )
}

} // verus!
