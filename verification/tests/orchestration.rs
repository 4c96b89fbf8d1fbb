//! Build orchestration: the configuration gate, the compile invocation,
//! artifact location, run dispatch and repository policy.

use jumake::build_plan::build_dir_name;
use jumake::build_plan::build_type_marker_name;
use jumake::build_plan::cache_marker_name;
use jumake::build_plan::compile_commands_name;
use jumake::build_plan::compile_jobs;
use jumake::build_plan::needs_compile_commands_export;
use jumake::build_plan::plan_compile;
use jumake::build_plan::plan_configure;
use jumake::build_plan::select_executable;
use jumake::build_plan::use_app_opener;
use jumake::build_plan::usize_to_string;
use jumake::build_plan::Platform;
use jumake::errors::BuildError;
use jumake::repo::commit_author_email;
use jumake::repo::commit_author_name;
use jumake::repo::default_gitignore_entries;
use jumake::repo::gitignore_additions;
use jumake::repo::initial_commit_message;

// ---------------------------------------------------------------------
// Configuration gate
// ---------------------------------------------------------------------

#[test]
fn an_existing_cache_marker_always_skips_configuration() {
    for ninja in [false, true] {
        for ccache in [false, true] {
            for build_type in ["Debug", "Release", "RelWithDebInfo", "MinSizeRel"] {
                assert!(plan_configure(true, ninja, ccache, build_type).is_none());
            }
        }
    }
}

#[test]
fn first_configuration_passes_generator_build_type_and_export_flag() {
    let args = plan_configure(false, true, false, "Release").unwrap();
    assert_eq!(
        args,
        vec![
            String::from(".."),
            String::from("-GNinja"),
            String::from("-DCMAKE_BUILD_TYPE=Release"),
            String::from("-DCMAKE_EXPORT_COMPILE_COMMANDS=ON"),
        ]
    );
}

#[test]
fn fallback_generator_and_compiler_cache_flags() {
    let args = plan_configure(false, false, true, "Debug").unwrap();
    assert_eq!(
        args,
        vec![
            String::from(".."),
            String::from("-GUnix Makefiles"),
            String::from("-DCMAKE_BUILD_TYPE=Debug"),
            String::from("-DCMAKE_EXPORT_COMPILE_COMMANDS=ON"),
            String::from("-DCMAKE_C_COMPILER_LAUNCHER=ccache"),
            String::from("-DCMAKE_CXX_COMPILER_LAUNCHER=ccache"),
        ]
    );
}

// ---------------------------------------------------------------------
// Compile step
// ---------------------------------------------------------------------

#[test]
fn parallelism_reserves_two_cores_with_a_floor_of_two() {
    assert_eq!(compile_jobs(16), 14);
    assert_eq!(compile_jobs(8), 6);
    assert_eq!(compile_jobs(4), 2);
    assert_eq!(compile_jobs(3), 2);
    assert_eq!(compile_jobs(1), 2);
}

#[test]
fn compile_invocation_names_configuration_and_parallelism() {
    let args = plan_compile("Release", 8);
    assert_eq!(
        args,
        vec![
            String::from("--build"),
            String::from("."),
            String::from("--config"),
            String::from("Release"),
            String::from("--parallel"),
            String::from("6"),
        ]
    );
}

#[test]
fn decimal_rendering_is_exact() {
    assert_eq!(usize_to_string(0), "0");
    assert_eq!(usize_to_string(7), "7");
    assert_eq!(usize_to_string(10), "10");
    assert_eq!(usize_to_string(987654), "987654");
}

// ---------------------------------------------------------------------
// Post-build decisions
// ---------------------------------------------------------------------

#[test]
fn export_relocation_applies_everywhere_but_windows() {
    assert!(!needs_compile_commands_export(Platform::Windows));
    assert!(needs_compile_commands_export(Platform::MacOs));
    assert!(needs_compile_commands_export(Platform::Unix));
}

#[test]
fn fixed_names_of_the_breadcrumbs() {
    assert_eq!(build_dir_name(), "jumake_build");
    assert_eq!(cache_marker_name(), "CMakeCache.txt");
    assert_eq!(compile_commands_name(), "compile_commands.json");
    assert_eq!(build_type_marker_name(), ".jumake");
}

#[test]
fn only_non_console_artifacts_go_through_the_opener() {
    let console = Some(String::from("ConsoleApp"));
    let gui = Some(String::from("GuiApplication"));
    assert!(!use_app_opener(Platform::MacOs, &console));
    assert!(use_app_opener(Platform::MacOs, &gui));
    assert!(use_app_opener(Platform::MacOs, &None));
    assert!(!use_app_opener(Platform::Unix, &gui));
    assert!(!use_app_opener(Platform::Windows, &gui));
}

// ---------------------------------------------------------------------
// Artifact location
// ---------------------------------------------------------------------

fn strings(v: &[&str]) -> Vec<String> {
    v.iter().map(|s| String::from(*s)).collect()
}

#[test]
fn locator_picks_the_first_candidate_of_the_requested_build_type() {
    let candidates = strings(&["/b/Debug/Foo", "/b/Release/Foo"]);
    let r = select_executable(Platform::Unix, &None, "Release", true, &candidates);
    assert_eq!(r.unwrap(), "/b/Release/Foo");
}

#[test]
fn locator_fails_without_a_matching_candidate() {
    let candidates = strings(&["/b/Debug/Foo", "/b/MinSizeRel/Foo"]);
    match select_executable(Platform::Unix, &None, "Release", true, &candidates) {
        Err(BuildError::ExecutableNotFound(b)) => assert_eq!(b, "Release"),
        other => panic!("expected ExecutableNotFound, got {:?}", other),
    }
}

#[test]
fn a_failed_search_is_executable_not_found() {
    let candidates = strings(&["/b/Release/Foo"]);
    assert!(matches!(
        select_executable(Platform::Unix, &None, "Release", false, &candidates),
        Err(BuildError::ExecutableNotFound(_))
    ));
}

#[test]
fn plugin_builds_on_the_bundling_platform_need_the_standalone_target() {
    let plugin = Some(String::from("AudioPlugin"));
    let candidates = strings(&[
        "/b/Release/VST3/Foo.vst3/Contents/MacOS/Foo",
        "/b/Release/Standalone/Foo.app/Contents/MacOS/Foo",
    ]);
    let r = select_executable(Platform::MacOs, &plugin, "Release", true, &candidates);
    assert_eq!(r.unwrap(), "/b/Release/Standalone/Foo.app");
}

#[test]
fn bundle_truncation_keeps_the_bundle_root() {
    let gui = Some(String::from("GuiApplication"));
    let candidates = strings(&["/b/Release/Foo.app/Contents/MacOS/Foo"]);
    let r = select_executable(Platform::MacOs, &gui, "Release", true, &candidates);
    assert_eq!(r.unwrap(), "/b/Release/Foo.app");
}

#[test]
fn bundle_suffix_is_appended_when_absent() {
    let gui = Some(String::from("GuiApplication"));
    let candidates = strings(&["/b/Release/Foo"]);
    let r = select_executable(Platform::MacOs, &gui, "Release", true, &candidates);
    assert_eq!(r.unwrap(), "/b/Release/Foo.app");
}

// ---------------------------------------------------------------------
// Repository policy
// ---------------------------------------------------------------------

#[test]
fn fresh_ignore_file_receives_every_entry() {
    assert_eq!(
        gitignore_additions(""),
        "modules/\njumake_build/\nbuild/\ncompile_commands.json\n.jumake\n.cache/\n"
    );
}

#[test]
fn satisfied_ignore_file_receives_nothing() {
    let existing = "modules/\njumake_build/\nbuild/\ncompile_commands.json\n.jumake\n.cache/\n";
    assert_eq!(gitignore_additions(existing), "");
}

#[test]
fn only_missing_entries_are_appended_in_order() {
    let existing = "modules/\n.jumake\nsomething_else\n";
    assert_eq!(
        gitignore_additions(existing),
        "jumake_build/\nbuild/\ncompile_commands.json\n.cache/\n"
    );
}

#[test]
fn ignore_entries_are_the_fixed_six() {
    assert_eq!(
        default_gitignore_entries(),
        vec!["modules/", "jumake_build/", "build/", "compile_commands.json", ".jumake", ".cache/"]
    );
}

#[test]
fn initial_snapshot_identity_is_fixed() {
    assert_eq!(commit_author_name(), "JuMake");
    assert_eq!(commit_author_email(), "jumake@example.com");
    assert_eq!(initial_commit_message(), "Initial commit by JuMake");
}
