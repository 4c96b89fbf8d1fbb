//! Context resolution: build-type validation, sentinel resolution, project
//! naming, and the per-command context builders.

use jumake::commands::handle_add;
use jumake::commands::handle_build;
use jumake::commands::handle_new;
use jumake::commands::resolve_run_context;
use jumake::context::effective_build_type;
use jumake::context::project_name_from_path;
use jumake::context::validate_build_type;
use jumake::errors::JuMakeError;
use jumake::strutil::basename_of;
use jumake::strutil::join_path;

#[test]
fn build_type_validation_accepts_exactly_the_closed_set() {
    assert!(validate_build_type("Debug"));
    assert!(validate_build_type("Release"));
    assert!(validate_build_type("RelWithDebInfo"));
    assert!(validate_build_type("MinSizeRel"));
}

#[test]
fn build_type_validation_rejects_everything_else() {
    assert!(!validate_build_type("LastUsed"));
    assert!(!validate_build_type("debug"));
    assert!(!validate_build_type(""));
    assert!(!validate_build_type("Releases"));
    assert!(!validate_build_type("Rel"));
}

#[test]
fn last_used_resolves_to_marker_content() {
    assert_eq!(effective_build_type("LastUsed", Some("Debug")), "Debug");
}

#[test]
fn last_used_without_marker_falls_back_to_release() {
    assert_eq!(effective_build_type("LastUsed", None), "Release");
}

#[test]
fn explicit_build_type_wins_over_marker() {
    assert_eq!(effective_build_type("MinSizeRel", Some("Debug")), "MinSizeRel");
}

#[test]
fn project_name_is_the_final_path_segment() {
    assert_eq!(project_name_from_path("/home/user/MyApp").unwrap(), "MyApp");
    assert_eq!(project_name_from_path("/home/user/MyApp/").unwrap(), "MyApp");
    assert_eq!(project_name_from_path("MyApp").unwrap(), "MyApp");
}

#[test]
fn unnameable_paths_are_refused() {
    assert!(matches!(
        project_name_from_path("/"),
        Err(JuMakeError::ProjectNameUndeterminable)
    ));
    assert!(matches!(
        project_name_from_path(""),
        Err(JuMakeError::ProjectNameUndeterminable)
    ));
    assert!(matches!(
        project_name_from_path("/home/.."),
        Err(JuMakeError::ProjectNameUndeterminable)
    ));
}

#[test]
fn basename_handles_relative_components() {
    assert_eq!(basename_of("a/b/c").unwrap(), "c");
    assert!(basename_of("a/.").is_none());
}

#[test]
fn join_path_inserts_one_separator() {
    assert_eq!(join_path("/base", "MyApp"), "/base/MyApp");
    assert_eq!(join_path("/base/", "MyApp"), "/base/MyApp");
    assert_eq!(join_path("", "MyApp"), "MyApp");
}

#[test]
fn created_path_names_the_project() {
    for base in ["/work", "/work/", ""] {
        assert_eq!(basename_of(&join_path(base, "MyApp")).unwrap(), "MyApp");
    }
}

#[test]
fn new_command_builds_a_release_context_under_the_base() {
    let ctx = handle_new("MyApp", "/work", Some("ConsoleApp"));
    assert_eq!(ctx.project_name, "MyApp");
    assert_eq!(ctx.project_path, "/work/MyApp");
    assert_eq!(ctx.template_name.as_deref(), Some("ConsoleApp"));
    assert_eq!(ctx.build_type, "Release");
}

#[test]
fn new_command_leaves_an_absent_template_absent() {
    let ctx = handle_new("MyApp", "/work", None);
    assert!(ctx.template_name.is_none());
}

#[test]
fn add_command_resolves_names_from_the_working_directory() {
    let req = handle_add("class", "Synth", "/work/MyApp").unwrap();
    assert_eq!(req.context.project_name, "MyApp");
    assert_eq!(req.context.project_path, "/work/MyApp");
    assert!(req.context.template_name.is_none());
    assert_eq!(req.context.build_type, "Release");
    assert_eq!(req.effective_name, "Synth");
    assert_eq!(req.header_file_name, "Synth.h");
    assert_eq!(req.cpp_file_name, "Synth.cpp");
}

#[test]
fn add_command_refuses_an_unnameable_working_directory() {
    assert!(matches!(
        handle_add("class", "Synth", "/"),
        Err(JuMakeError::ProjectNameUndeterminable)
    ));
}

#[test]
fn add_command_refuses_an_unknown_element_kind() {
    match handle_add("widget", "Synth", "/work/MyApp") {
        Err(JuMakeError::InvalidElementType(t)) => assert_eq!(t, "widget"),
        other => panic!("expected InvalidElementType, got {:?}", other),
    }
}

#[test]
fn build_command_validates_then_resolves() {
    let ctx = handle_build("Debug", "/work/MyApp", None).unwrap();
    assert_eq!(ctx.project_name, "MyApp");
    assert_eq!(ctx.project_path, "/work/MyApp");
    assert_eq!(ctx.template_name.as_deref(), Some("GuiApplication"));
    assert_eq!(ctx.build_type, "Debug");
}

#[test]
fn build_command_refuses_an_unknown_build_type() {
    match handle_build("Weird", "/work/MyApp", None) {
        Err(JuMakeError::InvalidBuildType(b)) => assert_eq!(b, "Weird"),
        other => panic!("expected InvalidBuildType, got {:?}", other),
    }
}

#[test]
fn build_command_refuses_an_unnameable_root() {
    assert!(matches!(
        handle_build("Debug", "/", None),
        Err(JuMakeError::ProjectNameUndeterminable)
    ));
}

#[test]
fn build_command_reads_the_template_annotation() {
    let descriptor = "set(JUMAKE_TEMPLATE \"AudioPlugin\")\n";
    let ctx = handle_build("Release", "/work/MyApp", Some(descriptor)).unwrap();
    assert_eq!(ctx.template_name.as_deref(), Some("AudioPlugin"));
}

#[test]
fn run_resolution_honours_the_marker_file() {
    let root: Vec<String> = vec![
        String::from("cmake_minimum_required(VERSION 3.24)"),
        String::from("project(Synthy VERSION 0.0.1)"),
    ];
    let ctx = resolve_run_context("LastUsed", Some("Debug"), &root, None, "/work/Synthy").unwrap();
    assert_eq!(ctx.project_name, "Synthy");
    assert_eq!(ctx.project_path, "/work/Synthy");
    assert_eq!(ctx.build_type, "Debug");
    assert_eq!(ctx.template_name.as_deref(), Some("GuiApplication"));
}

#[test]
fn run_resolution_defaults_to_release_without_marker() {
    let root: Vec<String> = vec![String::from("project(Synthy)")];
    let ctx = resolve_run_context("LastUsed", None, &root, None, "/work/Synthy").unwrap();
    assert_eq!(ctx.build_type, "Release");
}

#[test]
fn run_resolution_rejects_a_corrupt_marker() {
    let root: Vec<String> = vec![String::from("project(Synthy)")];
    match resolve_run_context("LastUsed", Some("banana"), &root, None, "/w") {
        Err(JuMakeError::InvalidBuildType(b)) => assert_eq!(b, "banana"),
        other => panic!("expected InvalidBuildType, got {:?}", other),
    }
}

#[test]
fn run_resolution_needs_a_project_declaration() {
    let root: Vec<String> = vec![String::from("add_subdirectory(src)")];
    assert!(matches!(
        resolve_run_context("Release", None, &root, None, "/w"),
        Err(JuMakeError::ProjectNameNotFound)
    ));
}
