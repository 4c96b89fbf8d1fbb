//! Template materialization, descriptor generation and descriptor editing.

use jumake::commands::create_project;
use jumake::commands::CreationStep;
use jumake::context::Context;
use jumake::descriptor::create_cmakelists;
use jumake::descriptor::determine_template_name;
use jumake::descriptor::extract_project_name;
use jumake::descriptor::find_template_marker;
use jumake::descriptor::update_cmakelists;
use jumake::errors::JuMakeError;
use jumake::strutil::replace_all;
use jumake::templates::add_class;
use jumake::templates::create_source_files;
use jumake::templates::element_file_names;

fn context_with_template(template: Option<&str>) -> Context {
    Context {
        project_name: String::from("MyApp"),
        project_path: String::from("/work/MyApp"),
        template_name: template.map(String::from),
        build_type: String::from("Release"),
    }
}

// ---------------------------------------------------------------------
// The closed template table
// ---------------------------------------------------------------------

#[test]
fn console_template_yields_exactly_its_file_set() {
    let files = create_source_files(&context_with_template(Some("ConsoleApp"))).unwrap();
    let names: Vec<&str> = files.iter().map(|f| f.0).collect();
    assert_eq!(names, vec!["Main.cpp", "CMakeLists.txt"]);
    assert!(files.iter().all(|f| !f.1.is_empty()));
}

#[test]
fn gui_template_yields_exactly_its_file_set() {
    let files = create_source_files(&context_with_template(Some("GuiApplication"))).unwrap();
    let names: Vec<&str> = files.iter().map(|f| f.0).collect();
    assert_eq!(
        names,
        vec!["Main.cpp", "MainComponent.cpp", "MainComponent.h", "CMakeLists.txt"]
    );
}

#[test]
fn plugin_template_yields_exactly_its_file_set() {
    let files = create_source_files(&context_with_template(Some("AudioPlugin"))).unwrap();
    let names: Vec<&str> = files.iter().map(|f| f.0).collect();
    assert_eq!(
        names,
        vec![
            "PluginProcessor.cpp",
            "PluginProcessor.h",
            "PluginEditor.cpp",
            "PluginEditor.h",
            "CMakeLists.txt"
        ]
    );
}

#[test]
fn a_kind_outside_the_set_is_a_hard_error() {
    match create_source_files(&context_with_template(Some("WebApp"))) {
        Err(JuMakeError::UnknownTemplate(t)) => assert_eq!(t, "WebApp"),
        other => panic!("expected UnknownTemplate, got {:?}", other),
    }
}

#[test]
fn an_absent_kind_is_a_hard_error() {
    assert!(matches!(
        create_source_files(&context_with_template(None)),
        Err(JuMakeError::NoTemplate)
    ));
}

#[test]
fn each_generated_descriptor_records_its_own_kind() {
    for kind in ["GuiApplication", "AudioPlugin", "ConsoleApp"] {
        let files = create_source_files(&context_with_template(Some(kind))).unwrap();
        let descriptor = files.iter().find(|f| f.0 == "CMakeLists.txt").unwrap().1;
        assert_eq!(determine_template_name(Some(descriptor)).as_deref(), Some(kind));
    }
}

// ---------------------------------------------------------------------
// Root descriptor and project-name read-back
// ---------------------------------------------------------------------

#[test]
fn root_descriptor_declares_the_project() {
    let text = create_cmakelists(&context_with_template(None));
    assert_eq!(
        text,
        "cmake_minimum_required(VERSION 3.24)\nproject(MyApp VERSION 0.0.1)\nadd_subdirectory(modules/JUCE)\nadd_subdirectory(src)\n"
    );
    let lines: Vec<String> = text.lines().map(String::from).collect();
    assert_eq!(extract_project_name(&lines).unwrap(), "MyApp");
}

#[test]
fn project_name_is_the_first_token_inside_the_parentheses() {
    let lines: Vec<String> = vec![
        String::from("  project(  Spaced VERSION 1.0)"),
    ];
    assert_eq!(extract_project_name(&lines).unwrap(), "Spaced");
}

#[test]
fn a_line_without_closing_parenthesis_is_skipped() {
    let lines: Vec<String> = vec![
        String::from("project(Broken"),
        String::from("project(Good)"),
    ];
    assert_eq!(extract_project_name(&lines).unwrap(), "Good");
}

#[test]
fn empty_parentheses_yield_nothing() {
    let lines: Vec<String> = vec![String::from("project(   )")];
    assert!(matches!(
        extract_project_name(&lines),
        Err(JuMakeError::ProjectNameNotFound)
    ));
}

// ---------------------------------------------------------------------
// Template-kind annotation
// ---------------------------------------------------------------------

#[test]
fn annotation_is_read_from_descriptor_text() {
    let text = "juce_add_plugin(${PROJECT_NAME})\nset(JUMAKE_TEMPLATE \"AudioPlugin\")\nmore\n";
    assert_eq!(find_template_marker(text).unwrap(), "AudioPlugin");
}

#[test]
fn annotation_tolerates_extra_whitespace() {
    assert_eq!(
        find_template_marker("set(JUMAKE_TEMPLATE    \"ConsoleApp\")").unwrap(),
        "ConsoleApp"
    );
}

#[test]
fn malformed_annotations_are_ignored() {
    // Missing whitespace after the keyword.
    assert!(find_template_marker("set(JUMAKE_TEMPLATE\"X\")").is_none());
    // Empty value.
    assert!(find_template_marker("set(JUMAKE_TEMPLATE \"\")").is_none());
    // No closing quote.
    assert!(find_template_marker("set(JUMAKE_TEMPLATE \"X").is_none());
    // No closing parenthesis after the value.
    assert!(find_template_marker("set(JUMAKE_TEMPLATE \"X\" )").is_none());
}

#[test]
fn missing_annotation_defaults_to_gui_application() {
    assert_eq!(determine_template_name(Some("target_sources(x)\n")).as_deref(), Some("GuiApplication"));
    assert_eq!(determine_template_name(None).as_deref(), Some("GuiApplication"));
}

// ---------------------------------------------------------------------
// Element addition
// ---------------------------------------------------------------------

#[test]
fn class_files_are_rendered_under_the_plain_name() {
    let added = add_class("class", "Synth", false, false).unwrap();
    assert_eq!(added.effective_name, "Synth");
    assert_eq!(added.header_file_name, "Synth.h");
    assert_eq!(added.cpp_file_name, "Synth.cpp");
    assert!(added.header_content.contains("class Synth"));
    assert!(added.cpp_content.contains("Synth::Synth()"));
    assert!(!added.header_content.contains("Template"));
    assert!(!added.cpp_content.contains("Template"));
}

#[test]
fn component_files_carry_the_fixed_suffix() {
    let added = add_class("component", "Volume", false, false).unwrap();
    assert_eq!(added.effective_name, "VolumeComponent");
    assert_eq!(added.header_file_name, "VolumeComponent.h");
    assert_eq!(added.cpp_file_name, "VolumeComponent.cpp");
    assert!(added.header_content.contains("class VolumeComponent"));
}

#[test]
fn a_second_addition_of_the_same_element_is_refused() {
    // First addition succeeds on an empty source directory.
    let first = add_class("class", "Synth", false, false).unwrap();
    // Afterwards its files exist; the identical request must now fail,
    // whichever of the two files the probe sees — and regardless of
    // whether the first call's descriptor registration went through.
    match add_class("class", "Synth", true, true) {
        Err(JuMakeError::AlreadyExists(n)) => assert_eq!(n, first.effective_name),
        other => panic!("expected AlreadyExists, got {:?}", other),
    }
    assert!(matches!(
        add_class("class", "Synth", true, false),
        Err(JuMakeError::AlreadyExists(_))
    ));
    assert!(matches!(
        add_class("class", "Synth", false, true),
        Err(JuMakeError::AlreadyExists(_))
    ));
}

#[test]
fn an_unknown_element_kind_is_refused() {
    match add_class("module", "Synth", false, false) {
        Err(JuMakeError::InvalidElementType(t)) => assert_eq!(t, "module"),
        other => panic!("expected InvalidElementType, got {:?}", other),
    }
}

#[test]
fn element_file_names_match_what_add_class_writes() {
    let (name, header, cpp) = element_file_names("component", "Gain").unwrap();
    assert_eq!(name, "GainComponent");
    assert_eq!(header, "GainComponent.h");
    assert_eq!(cpp, "GainComponent.cpp");
}

#[test]
fn placeholder_substitution_replaces_every_occurrence() {
    assert_eq!(replace_all("a Template b Template", "Template", "X"), "a X b X");
    assert_eq!(replace_all("untouched", "Template", "X"), "untouched");
    assert_eq!(replace_all("aaa", "aa", "b"), "ba");
}

// ---------------------------------------------------------------------
// Descriptor mutation
// ---------------------------------------------------------------------

fn descriptor_lines() -> Vec<String> {
    vec![
        String::from("juce_add_gui_app(${PROJECT_NAME})"),
        String::from("target_sources(${PROJECT_NAME}"),
        String::from("    PRIVATE"),
        String::from("        Main.cpp"),
        String::from(")"),
    ]
}

#[test]
fn registration_inserts_once_with_deeper_indentation() {
    let out = update_cmakelists(&descriptor_lines(), "Synth.cpp").unwrap();
    assert_eq!(
        out,
        vec![
            String::from("juce_add_gui_app(${PROJECT_NAME})"),
            String::from("target_sources(${PROJECT_NAME}"),
            String::from("    PRIVATE"),
            String::from("        Synth.cpp"),
            String::from("        Main.cpp"),
            String::from(")"),
        ]
    );
}

#[test]
fn registration_preserves_every_other_line() {
    let lines = descriptor_lines();
    let out = update_cmakelists(&lines, "Synth.cpp").unwrap();
    assert_eq!(out.len(), lines.len() + 1);
    assert_eq!(&out[..3], &lines[..3]);
    assert_eq!(&out[4..], &lines[3..]);
}

#[test]
fn only_the_first_private_section_after_the_target_counts() {
    let lines: Vec<String> = vec![
        String::from("    PRIVATE"),
        String::from("target_sources(${PROJECT_NAME}"),
        String::from("  PRIVATE"),
        String::from("  PRIVATE"),
        String::from(")"),
    ];
    let out = update_cmakelists(&lines, "New.cpp").unwrap();
    assert_eq!(
        out,
        vec![
            String::from("    PRIVATE"),
            String::from("target_sources(${PROJECT_NAME}"),
            String::from("  PRIVATE"),
            String::from("      New.cpp"),
            String::from("  PRIVATE"),
            String::from(")"),
        ]
    );
}

#[test]
fn a_descriptor_without_the_markers_is_rejected() {
    let no_private: Vec<String> = vec![String::from("target_sources(${PROJECT_NAME}")];
    assert!(matches!(
        update_cmakelists(&no_private, "X.cpp"),
        Err(JuMakeError::MarkerNotFound)
    ));
    let private_before: Vec<String> = vec![
        String::from("PRIVATE"),
        String::from("target_sources(${PROJECT_NAME}"),
    ];
    assert!(matches!(
        update_cmakelists(&private_before, "X.cpp"),
        Err(JuMakeError::MarkerNotFound)
    ));
    let empty: Vec<String> = Vec::new();
    assert!(matches!(
        update_cmakelists(&empty, "X.cpp"),
        Err(JuMakeError::MarkerNotFound)
    ));
}

// ---------------------------------------------------------------------
// Creation pipeline
// ---------------------------------------------------------------------

#[test]
fn creation_follows_the_fixed_pipeline() {
    let steps = create_project(&context_with_template(Some("ConsoleApp")), false).unwrap();
    assert_eq!(
        steps,
        vec![
            CreationStep::CreateProjectDir,
            CreationStep::CreateCmakelists,
            CreationStep::CreateSourceFiles,
            CreationStep::InitializeGitRepo,
            CreationStep::CreateInitialCommit,
        ]
    );
    assert!(steps[0].aborts_on_failure());
    assert!(steps[1..].iter().all(|s| !s.aborts_on_failure()));
}

#[test]
fn creation_refuses_an_existing_directory() {
    match create_project(&context_with_template(Some("ConsoleApp")), true) {
        Err(JuMakeError::Config(m)) => {
            assert_eq!(m, "Project directory already exists: /work/MyApp")
        }
        other => panic!("expected Config, got {:?}", other),
    }
}
