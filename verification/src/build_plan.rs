//! Build orchestration decisions: whether the external build tool must be
//! (re)configured, with which generator and flags, how wide the compile
//! step may run, and which produced candidate is the runnable artifact.
//!
//! The functions here only decide; the surrounding binary performs the
//! probes and runs the subprocesses the decisions call for.

use vstd::prelude::*;
use vstd::string::StrSliceExecFns;
use vstd::string::StringExecFns;

use crate::errors::BuildError;
use crate::strutil::concat2;
use crate::strutil::contains_pat;
use crate::strutil::contains_sub;
use crate::strutil::find_sub;
use crate::strutil::pat_at;
use crate::strutil::str_eq;

verus! {

/// The platform families whose executable conventions differ.
#[derive(Clone, Copy, Debug, PartialEq, Eq, Structural)]
pub enum Platform {
    /// The platform excluded from compile-command export relocation.
    Windows,
    /// The platform that bundles executables as directories.
    MacOs,
    /// Every other platform with permission-bit executables.
    Unix,
}

// ---------------------------------------------------------------------
// Fixed names
// ---------------------------------------------------------------------

/// Name of the build directory kept under the project root.
pub fn build_dir_name() -> (r: &'static str)
    ensures
        r@ == "jumake_build"@,
{
    "jumake_build"
}

/// The configure-cache marker file whose mere existence inside the build
/// directory means "configuration has already run".
pub fn cache_marker_name() -> (r: &'static str)
    ensures
        r@ == "CMakeCache.txt"@,
{
    "CMakeCache.txt"
}

/// The compile-command export artifact relocated to the project root.
pub fn compile_commands_name() -> (r: &'static str)
    ensures
        r@ == "compile_commands.json"@,
{
    "compile_commands.json"
}

/// The marker file at project root holding the last-used build type.
pub fn build_type_marker_name() -> (r: &'static str)
    ensures
        r@ == ".jumake"@,
{
    ".jumake"
}

// ---------------------------------------------------------------------
// Configuration gate
// ---------------------------------------------------------------------

/// The generator handed to the build tool: the fast generator when its
/// probe succeeded, the universal fallback otherwise.
pub open spec fn generator_name(ninja_available: bool) -> Seq<char> {
    if ninja_available {
        "Ninja"@
    } else {
        "Unix Makefiles"@
    }
}

/// The argument list of the configure invocation.
pub open spec fn configure_args_spec(
    ninja_available: bool,
    ccache_available: bool,
    build_type: Seq<char>,
) -> Seq<Seq<char>> {
    let base = seq![
        ".."@,
        "-G"@ + generator_name(ninja_available),
        "-DCMAKE_BUILD_TYPE="@ + build_type,
        "-DCMAKE_EXPORT_COMPILE_COMMANDS=ON"@,
    ];
    if ccache_available {
        base + seq!["-DCMAKE_C_COMPILER_LAUNCHER=ccache"@, "-DCMAKE_CXX_COMPILER_LAUNCHER=ccache"@]
    } else {
        base
    }
}

/// A vector of strings agrees element-wise with its description.
pub open spec fn strings_match(v: Seq<String>, s: Seq<Seq<char>>) -> bool {
    v.len() == s.len() && forall|i: int| 0 <= i < v.len() ==> (#[trigger] v[i])@ == s[i]
}

/// Decides the configure step.  Configuration is skipped exactly when the
/// configure-cache marker already exists in the build directory — the sole
/// re-configure trigger: neither the requested build type nor generator or
/// compiler-cache availability can force one while the marker stands.
/// When configuration runs, the chosen generator, the requested build
/// type, the compile-command export flag, and (only with the accelerator
/// present) the launcher flags of both compiler families are passed.
pub fn plan_configure(
    cache_exists: bool,
    ninja_available: bool,
    ccache_available: bool,
    build_type: &str,
) -> (r: Option<Vec<String>>)
    ensures
        r is Some <==> !cache_exists,
        r matches Some(args) ==> strings_match(
            args@,
            configure_args_spec(ninja_available, ccache_available, build_type@),
        ),
{
    if cache_exists {
        return None;
    }
    let generator = if ninja_available {
        "Ninja"
    } else {
        "Unix Makefiles"
    };
    let mut args: Vec<String> = Vec::new();
    args.push(String::from_str(".."));
    args.push(concat2("-G", generator));
    args.push(concat2("-DCMAKE_BUILD_TYPE=", build_type));
    args.push(String::from_str("-DCMAKE_EXPORT_COMPILE_COMMANDS=ON"));
    if ccache_available {
        args.push(String::from_str("-DCMAKE_C_COMPILER_LAUNCHER=ccache"));
        args.push(String::from_str("-DCMAKE_CXX_COMPILER_LAUNCHER=ccache"));
    }
    Some(args)
}

// ---------------------------------------------------------------------
// Compile step
// ---------------------------------------------------------------------

/// The requested parallelism: two below the available degree, floored at
/// two — headroom is deliberately reserved rather than maximizing cores.
pub open spec fn compile_jobs_spec(cpus: int) -> int {
    if cpus - 2 >= 2 {
        cpus - 2
    } else {
        2
    }
}

/// Computes the parallelism degree handed to the build tool.
pub fn compile_jobs(cpus: usize) -> (r: usize)
    ensures
        r == compile_jobs_spec(cpus as int),
{
    if cpus >= 4 {
        cpus - 2
    } else {
        2
    }
}

/// The decimal digit character of `d`.
pub open spec fn dec_digit(d: int) -> char {
    if d == 0 {
        '0'
    } else if d == 1 {
        '1'
    } else if d == 2 {
        '2'
    } else if d == 3 {
        '3'
    } else if d == 4 {
        '4'
    } else if d == 5 {
        '5'
    } else if d == 6 {
        '6'
    } else if d == 7 {
        '7'
    } else if d == 8 {
        '8'
    } else {
        '9'
    }
}

/// The decimal rendering of a non-negative integer, most significant
/// digit first.
pub open spec fn dec_rep(n: int) -> Seq<char>
    decreases n,
{
    if n < 10 {
        seq![dec_digit(n)]
    } else {
        dec_rep(n / 10) + seq![dec_digit(n % 10)]
    }
}

fn digit_str(d: usize) -> (r: &'static str)
    requires
        d < 10,
    ensures
        r@ == seq![dec_digit(d as int)],
{
    proof {
        reveal_strlit("0");
        reveal_strlit("1");
        reveal_strlit("2");
        reveal_strlit("3");
        reveal_strlit("4");
        reveal_strlit("5");
        reveal_strlit("6");
        reveal_strlit("7");
        reveal_strlit("8");
        reveal_strlit("9");
    }
    let r = if d == 0 {
        "0"
    } else if d == 1 {
        "1"
    } else if d == 2 {
        "2"
    } else if d == 3 {
        "3"
    } else if d == 4 {
        "4"
    } else if d == 5 {
        "5"
    } else if d == 6 {
        "6"
    } else if d == 7 {
        "7"
    } else if d == 8 {
        "8"
    } else {
        "9"
    };
    proof {
        assert(r@ =~= seq![dec_digit(d as int)]);
    }
    r
}

/// Renders a non-negative integer in decimal.
pub fn usize_to_string(n: usize) -> (r: String)
    ensures
        r@ == dec_rep(n as int),
    decreases n,
{
    if n < 10 {
        String::from_str(digit_str(n))
    } else {
        let mut s = usize_to_string(n / 10);
        s.append(digit_str(n % 10));
        s
    }
}

/// The argument list of the compile invocation: the generic "build this
/// directory with N parallel jobs for configuration X" entry point.  It
/// always runs, not gated by the cache marker.
pub open spec fn compile_args_spec(build_type: Seq<char>, cpus: int) -> Seq<Seq<char>> {
    seq![
        "--build"@,
        "."@,
        "--config"@,
        build_type,
        "--parallel"@,
        dec_rep(compile_jobs_spec(cpus)),
    ]
}

/// Builds the compile invocation's arguments.
pub fn plan_compile(build_type: &str, cpus: usize) -> (r: Vec<String>)
    ensures
        strings_match(r@, compile_args_spec(build_type@, cpus as int)),
{
    let mut args: Vec<String> = Vec::new();
    args.push(String::from_str("--build"));
    args.push(String::from_str("."));
    args.push(String::from_str("--config"));
    args.push(String::from_str(build_type));
    args.push(String::from_str("--parallel"));
    args.push(usize_to_string(compile_jobs(cpus)));
    args
}

// ---------------------------------------------------------------------
// Post-build decisions
// ---------------------------------------------------------------------

/// Whether the compile-command export file must exist after a build and
/// be copied to the project root: on every platform but the excluded one.
pub fn needs_compile_commands_export(platform: Platform) -> (r: bool)
    ensures
        r == !(platform is Windows),
{
    match platform {
        Platform::Windows => false,
        _ => true,
    }
}

/// Whether the artifact is launched through the platform's generic
/// application opener rather than executed directly: only on the bundling
/// platform, and only when the template kind is not the plain console one.
pub fn use_app_opener(platform: Platform, template_name: &Option<String>) -> (r: bool)
    ensures
        r == (platform is MacOs && !(template_name matches Some(t) && t@ == "ConsoleApp"@)),
{
    match platform {
        Platform::MacOs => match template_name {
            Some(t) => !str_eq(t.as_str(), "ConsoleApp"),
            None => true,
        },
        _ => false,
    }
}

// ---------------------------------------------------------------------
// Artifact location
// ---------------------------------------------------------------------

/// A candidate path is acceptable when it carries the requested build type
/// as a substring and, where the standalone filter applies, the word
/// `Standalone` as well.
pub open spec fn candidate_ok(c: Seq<char>, build_type: Seq<char>, standalone: bool) -> bool {
    (standalone ==> contains_pat(c, "Standalone"@)) && contains_pat(c, build_type)
}

/// Index of the first acceptable candidate at or after `i`.
pub open spec fn first_candidate_from(
    cands: Seq<String>,
    build_type: Seq<char>,
    standalone: bool,
    i: int,
) -> Option<int>
    decreases cands.len() - i,
{
    if i >= cands.len() {
        None
    } else if candidate_ok(cands[i]@, build_type, standalone) {
        Some(i)
    } else {
        first_candidate_from(cands, build_type, standalone, i + 1)
    }
}

proof fn lemma_first_candidate_skip(
    cands: Seq<String>,
    build_type: Seq<char>,
    standalone: bool,
    i: int,
    j: int,
)
    requires
        0 <= i <= j <= cands.len(),
        forall|j2: int| i <= j2 < j ==> !candidate_ok(cands[j2]@, build_type, standalone),
    ensures
        first_candidate_from(cands, build_type, standalone, i) == first_candidate_from(
            cands,
            build_type,
            standalone,
            j,
        ),
    decreases j - i,
{
    if i < j {
        lemma_first_candidate_skip(cands, build_type, standalone, i + 1, j);
    }
}

/// Position of the leftmost occurrence of `p` in `s`, with `s.len()`
/// standing for "none".
pub open spec fn first_pat_from(s: Seq<char>, p: Seq<char>, i: int) -> int
    decreases s.len() + 1 - i,
{
    if i > s.len() - p.len() {
        s.len() as int
    } else if pat_at(s, p, i) {
        i
    } else {
        first_pat_from(s, p, i + 1)
    }
}

proof fn lemma_first_pat_skip(s: Seq<char>, p: Seq<char>, i: int, j: int)
    requires
        0 <= i <= j,
        forall|j2: int| i <= j2 < j ==> !pat_at(s, p, j2),
    ensures
        first_pat_from(s, p, i) == first_pat_from(s, p, j),
    decreases j - i,
{
    if i < j {
        if i > s.len() - p.len() {
            lemma_first_pat_beyond(s, p, i, j);
        } else {
            lemma_first_pat_skip(s, p, i + 1, j);
        }
    }
}

proof fn lemma_first_pat_beyond(s: Seq<char>, p: Seq<char>, i: int, j: int)
    requires
        0 <= i <= j,
        i > s.len() - p.len(),
    ensures
        first_pat_from(s, p, j) == s.len(),
    decreases j - i,
{
    if i < j {
        lemma_first_pat_beyond(s, p, i + 1, j);
    }
}

proof fn lemma_first_pat_all_none(s: Seq<char>, p: Seq<char>, a: int)
    requires
        0 <= a,
        forall|j: int| !pat_at(s, p, j),
    ensures
        first_pat_from(s, p, a) == s.len(),
    decreases s.len() + 1 - a,
{
    if a <= s.len() - p.len() {
        lemma_first_pat_all_none(s, p, a + 1);
    }
}

/// The path of the bundle that contains `s`: everything up to the first
/// bundle suffix, with the suffix restored — or `s` with the suffix
/// appended when none occurs.
pub open spec fn app_bundle_path(s: Seq<char>) -> Seq<char> {
    s.take(first_pat_from(s, ".app"@, 0)) + ".app"@
}

/// Truncates a selected path to the bundle root on the bundling platform.
fn truncate_to_bundle(s: &str) -> (r: String)
    ensures
        r@ == app_bundle_path(s@),
{
    match find_sub(s, ".app") {
        Some(i) => {
            proof {
                lemma_first_pat_skip(s@, ".app"@, 0, i as int);
                assert(s@.subrange(0, i as int) =~= s@.take(i as int));
            }
            concat2(s.substring_char(0, i), ".app")
        },
        None => {
            proof {
                lemma_first_pat_all_none(s@, ".app"@, 0);
                assert(s@.take(s@.len() as int) =~= s@);
            }
            concat2(s, ".app")
        },
    }
}

/// Selects the produced executable among the search candidates: the first
/// whose path contains the requested build-type name, after the standalone
/// filter that applies to plugin builds on the bundling platform; on that
/// platform the chosen path is truncated to the bundle root.  A failed
/// search, or no acceptable candidate, is `ExecutableNotFound`.
pub fn select_executable(
    platform: Platform,
    template_name: &Option<String>,
    build_type: &str,
    search_ok: bool,
    candidates: &Vec<String>,
) -> (r: Result<String, BuildError>)
    ensures
        ({
            let standalone = platform is MacOs && (template_name matches Some(t) && t@
                == "AudioPlugin"@);
            match r {
                Ok(path) => search_ok && (first_candidate_from(
                    candidates@,
                    build_type@,
                    standalone,
                    0,
                ) matches Some(i) && path@ == (if platform is MacOs {
                    app_bundle_path(candidates@[i]@)
                } else {
                    candidates@[i]@
                })),
                Err(e) => (e matches BuildError::ExecutableNotFound(b) && b@ == build_type@) && (
                !search_ok || first_candidate_from(candidates@, build_type@, standalone, 0)
                    is None),
            }
        }),
{
    let standalone = match platform {
        Platform::MacOs => match template_name {
            Some(t) => str_eq(t.as_str(), "AudioPlugin"),
            None => false,
        },
        _ => false,
    };
    if !search_ok {
        return Err(BuildError::ExecutableNotFound(String::from_str(build_type)));
    }
    let n = candidates.len();
    let mut i: usize = 0;
    while i < n
        invariant
            n == candidates@.len(),
            i <= n,
            search_ok,
            standalone == (platform is MacOs && (template_name matches Some(t) && t@
                == "AudioPlugin"@)),
            forall|j: int| 0 <= j < i ==> !candidate_ok(candidates@[j]@, build_type@, standalone),
        decreases n - i,
    {
        let c = &candidates[i];
        let ok = (!standalone || contains_sub(c.as_str(), "Standalone")) && contains_sub(
            c.as_str(),
            build_type,
        );
        if ok {
            proof {
                lemma_first_candidate_skip(candidates@, build_type@, standalone, 0, i as int);
                assert(candidate_ok(candidates@[i as int]@, build_type@, standalone));
                assert(first_candidate_from(candidates@, build_type@, standalone, 0) == Some(
                    i as int,
                ));
            }
            let path = match platform {
                Platform::MacOs => truncate_to_bundle(c.as_str()),
                _ => c.clone(),
            };
            return Ok(path);
        }
        i += 1;
    }
    proof {
        lemma_first_candidate_skip(candidates@, build_type@, standalone, 0, n as int);
    }
    Err(BuildError::ExecutableNotFound(String::from_str(build_type)))
}

} // verus!
