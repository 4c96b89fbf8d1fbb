//! Template materialization: the closed table from template kind to the
//! fixed file set written at creation, and the rendering of new elements
//! (classes and components) from placeholder templates.

use vstd::prelude::*;
use vstd::string::StringExecFns;

use crate::errors::JuMakeError;
use crate::context::Context;
use crate::strutil::concat2;
use crate::strutil::replace_all;
use crate::strutil::replace_seq;
use crate::strutil::str_eq;

verus! {

// ---------------------------------------------------------------------
// Fixed payloads
// ---------------------------------------------------------------------

/// Entry-point payload of the GUI application template.
pub open spec fn gui_main_cpp_text() -> Seq<char> {
    "// Application entry point.\n\nint main(int argc, char* argv[])\n{\n    return 0;\n}\n"@
}

/// UI-root implementation payload of the GUI application template.
pub open spec fn gui_component_cpp_text() -> Seq<char> {
    "// MainComponent implementation.\n\nMainComponent::MainComponent() {}\n\nvoid MainComponent::resized() {}\n"@
}

/// UI-root header payload of the GUI application template.
pub open spec fn gui_component_h_text() -> Seq<char> {
    "#pragma once\n\nclass MainComponent\n{\npublic:\n    MainComponent();\n    void resized();\n};\n"@
}

/// Source-level build descriptor of the GUI application template.
pub open spec fn gui_cmake_text() -> Seq<char> {
    "set(JUMAKE_TEMPLATE \"GuiApplication\")\n\njuce_add_gui_app(${PROJECT_NAME} PRODUCT_NAME \"${PROJECT_NAME}\")\n\ntarget_sources(${PROJECT_NAME}\n    PRIVATE\n        Main.cpp\n        MainComponent.cpp\n)\n\ntarget_link_libraries(${PROJECT_NAME}\n    PRIVATE\n        juce::juce_gui_extra\n)\n"@
}

/// Processor implementation payload of the audio plugin template.
pub open spec fn plugin_processor_cpp_text() -> Seq<char> {
    "// PluginProcessor implementation.\n\nPluginProcessor::PluginProcessor() {}\n\nvoid PluginProcessor::processBlock() {}\n"@
}

/// Processor header payload of the audio plugin template.
pub open spec fn plugin_processor_h_text() -> Seq<char> {
    "#pragma once\n\nclass PluginProcessor\n{\npublic:\n    PluginProcessor();\n    void processBlock();\n};\n"@
}

/// Editor implementation payload of the audio plugin template.
pub open spec fn plugin_editor_cpp_text() -> Seq<char> {
    "// PluginEditor implementation.\n\nPluginEditor::PluginEditor() {}\n\nvoid PluginEditor::resized() {}\n"@
}

/// Editor header payload of the audio plugin template.
pub open spec fn plugin_editor_h_text() -> Seq<char> {
    "#pragma once\n\nclass PluginEditor\n{\npublic:\n    PluginEditor();\n    void resized();\n};\n"@
}

/// Source-level build descriptor of the audio plugin template.
pub open spec fn plugin_cmake_text() -> Seq<char> {
    "set(JUMAKE_TEMPLATE \"AudioPlugin\")\n\njuce_add_plugin(${PROJECT_NAME}\n    FORMATS AU VST3 Standalone\n    PRODUCT_NAME \"${PROJECT_NAME}\"\n)\n\ntarget_sources(${PROJECT_NAME}\n    PRIVATE\n        PluginProcessor.cpp\n        PluginEditor.cpp\n)\n\ntarget_link_libraries(${PROJECT_NAME}\n    PRIVATE\n        juce::juce_audio_utils\n)\n"@
}

/// Entry-point payload of the console application template.
pub open spec fn console_main_cpp_text() -> Seq<char> {
    "// Console entry point.\n\nint main(int argc, char* argv[])\n{\n    return 0;\n}\n"@
}

/// Source-level build descriptor of the console application template.
pub open spec fn console_cmake_text() -> Seq<char> {
    "set(JUMAKE_TEMPLATE \"ConsoleApp\")\n\njuce_add_console_app(${PROJECT_NAME} PRODUCT_NAME \"${PROJECT_NAME}\")\n\ntarget_sources(${PROJECT_NAME}\n    PRIVATE\n        Main.cpp\n)\n\ntarget_link_libraries(${PROJECT_NAME}\n    PRIVATE\n        juce::juce_core\n)\n"@
}

/// Header template of a plain class element; `Template` is the placeholder.
pub open spec fn class_h_text() -> Seq<char> {
    "#pragma once\n\nclass Template\n{\npublic:\n    Template();\n    ~Template();\n};\n"@
}

/// Implementation template of a plain class element.
pub open spec fn class_cpp_text() -> Seq<char> {
    "// Template implementation.\n\nTemplate::Template() {}\n\nTemplate::~Template() {}\n"@
}

/// Header template of a component element.
pub open spec fn component_h_text() -> Seq<char> {
    "#pragma once\n\nclass Template : public juce::Component\n{\npublic:\n    Template();\n    void paint(juce::Graphics& g) override;\n    void resized() override;\n};\n"@
}

/// Implementation template of a component element.
pub open spec fn component_cpp_text() -> Seq<char> {
    "// Template component implementation.\n\nTemplate::Template() {}\n\nvoid Template::paint(juce::Graphics& g) {}\n\nvoid Template::resized() {}\n"@
}

// ---------------------------------------------------------------------
// The closed template table
// ---------------------------------------------------------------------

/// The fixed, ordered file set a recognized template kind materializes
/// into the source subdirectory; nothing for a kind outside the set.
pub open spec fn template_files_spec(kind: Seq<char>) -> Option<Seq<(Seq<char>, Seq<char>)>> {
    if kind == "GuiApplication"@ {
        Some(
            seq![
                ("Main.cpp"@, gui_main_cpp_text()),
                ("MainComponent.cpp"@, gui_component_cpp_text()),
                ("MainComponent.h"@, gui_component_h_text()),
                ("CMakeLists.txt"@, gui_cmake_text()),
            ],
        )
    } else if kind == "AudioPlugin"@ {
        Some(
            seq![
                ("PluginProcessor.cpp"@, plugin_processor_cpp_text()),
                ("PluginProcessor.h"@, plugin_processor_h_text()),
                ("PluginEditor.cpp"@, plugin_editor_cpp_text()),
                ("PluginEditor.h"@, plugin_editor_h_text()),
                ("CMakeLists.txt"@, plugin_cmake_text()),
            ],
        )
    } else if kind == "ConsoleApp"@ {
        Some(
            seq![
                ("Main.cpp"@, console_main_cpp_text()),
                ("CMakeLists.txt"@, console_cmake_text()),
            ],
        )
    } else {
        None
    }
}

/// A vector of (file name, file content) pairs agrees with its description.
pub open spec fn files_match(
    files: Seq<(&'static str, &'static str)>,
    described: Seq<(Seq<char>, Seq<char>)>,
) -> bool {
    files.len() == described.len() && forall|i: int|
        0 <= i < files.len() ==> (#[trigger] files[i]).0@ == described[i].0 && files[i].1@
            == described[i].1
}

/// Plans the source files of a freshly created project: for each recognized
/// template kind, exactly the fixed file set of the closed table, in order;
/// a kind outside the set, or an absent kind, is a hard error here — the
/// point where lazy template validation resolves.
pub fn create_source_files(context: &Context) -> (r: Result<
    Vec<(&'static str, &'static str)>,
    JuMakeError,
>)
    ensures
        match &context.template_name {
            Some(t) => match template_files_spec(t@) {
                Some(described) => r matches Ok(files) && files_match(files@, described),
                None => r matches Err(e) && (e matches JuMakeError::UnknownTemplate(u) && u@
                    == t@),
            },
            None => r matches Err(e) && e matches JuMakeError::NoTemplate,
        },
{
    match &context.template_name {
        Some(t) => {
            if str_eq(t.as_str(), "GuiApplication") {
                let mut files: Vec<(&'static str, &'static str)> = Vec::new();
                files.push(
                    (
                        "Main.cpp",
                        "// Application entry point.\n\nint main(int argc, char* argv[])\n{\n    return 0;\n}\n",
                    ),
                );
                files.push(
                    (
                        "MainComponent.cpp",
                        "// MainComponent implementation.\n\nMainComponent::MainComponent() {}\n\nvoid MainComponent::resized() {}\n",
                    ),
                );
                files.push(
                    (
                        "MainComponent.h",
                        "#pragma once\n\nclass MainComponent\n{\npublic:\n    MainComponent();\n    void resized();\n};\n",
                    ),
                );
                files.push(
                    (
                        "CMakeLists.txt",
                        "set(JUMAKE_TEMPLATE \"GuiApplication\")\n\njuce_add_gui_app(${PROJECT_NAME} PRODUCT_NAME \"${PROJECT_NAME}\")\n\ntarget_sources(${PROJECT_NAME}\n    PRIVATE\n        Main.cpp\n        MainComponent.cpp\n)\n\ntarget_link_libraries(${PROJECT_NAME}\n    PRIVATE\n        juce::juce_gui_extra\n)\n",
                    ),
                );
                Ok(files)
            } else if str_eq(t.as_str(), "AudioPlugin") {
                let mut files: Vec<(&'static str, &'static str)> = Vec::new();
                files.push(
                    (
                        "PluginProcessor.cpp",
                        "// PluginProcessor implementation.\n\nPluginProcessor::PluginProcessor() {}\n\nvoid PluginProcessor::processBlock() {}\n",
                    ),
                );
                files.push(
                    (
                        "PluginProcessor.h",
                        "#pragma once\n\nclass PluginProcessor\n{\npublic:\n    PluginProcessor();\n    void processBlock();\n};\n",
                    ),
                );
                files.push(
                    (
                        "PluginEditor.cpp",
                        "// PluginEditor implementation.\n\nPluginEditor::PluginEditor() {}\n\nvoid PluginEditor::resized() {}\n",
                    ),
                );
                files.push(
                    (
                        "PluginEditor.h",
                        "#pragma once\n\nclass PluginEditor\n{\npublic:\n    PluginEditor();\n    void resized();\n};\n",
                    ),
                );
                files.push(
                    (
                        "CMakeLists.txt",
                        "set(JUMAKE_TEMPLATE \"AudioPlugin\")\n\njuce_add_plugin(${PROJECT_NAME}\n    FORMATS AU VST3 Standalone\n    PRODUCT_NAME \"${PROJECT_NAME}\"\n)\n\ntarget_sources(${PROJECT_NAME}\n    PRIVATE\n        PluginProcessor.cpp\n        PluginEditor.cpp\n)\n\ntarget_link_libraries(${PROJECT_NAME}\n    PRIVATE\n        juce::juce_audio_utils\n)\n",
                    ),
                );
                Ok(files)
            } else if str_eq(t.as_str(), "ConsoleApp") {
                let mut files: Vec<(&'static str, &'static str)> = Vec::new();
                files.push(
                    (
                        "Main.cpp",
                        "// Console entry point.\n\nint main(int argc, char* argv[])\n{\n    return 0;\n}\n",
                    ),
                );
                files.push(
                    (
                        "CMakeLists.txt",
                        "set(JUMAKE_TEMPLATE \"ConsoleApp\")\n\njuce_add_console_app(${PROJECT_NAME} PRODUCT_NAME \"${PROJECT_NAME}\")\n\ntarget_sources(${PROJECT_NAME}\n    PRIVATE\n        Main.cpp\n)\n\ntarget_link_libraries(${PROJECT_NAME}\n    PRIVATE\n        juce::juce_core\n)\n",
                    ),
                );
                Ok(files)
            } else {
                Err(JuMakeError::UnknownTemplate(String::from_str(t.as_str())))
            }
        },
        None => Err(JuMakeError::NoTemplate),
    }
}

// ---------------------------------------------------------------------
// Element addition
// ---------------------------------------------------------------------

/// The effective name of a new element: the given name for a plain class,
/// the given name with the fixed `Component` suffix for a component, and
/// nothing for an unrecognized element kind.
pub open spec fn effective_name_spec(element_type: Seq<char>, element_name: Seq<char>) -> Option<
    Seq<char>,
> {
    if element_type == "class"@ {
        Some(element_name)
    } else if element_type == "component"@ {
        Some(element_name + "Component"@)
    } else {
        None
    }
}

/// The (header, implementation) templates of a recognized element kind.
pub open spec fn element_templates_spec(element_type: Seq<char>) -> Option<(Seq<char>, Seq<char>)> {
    if element_type == "class"@ {
        Some((class_h_text(), class_cpp_text()))
    } else if element_type == "component"@ {
        Some((component_h_text(), component_cpp_text()))
    } else {
        None
    }
}

/// Derives the effective element name, and the header and implementation
/// file names an element of the given kind and name will occupy, so the
/// existence check can run before anything is rendered.
pub fn element_file_names(element_type: &str, element_name: &str) -> (r: Result<
    (String, String, String),
    JuMakeError,
>)
    ensures
        match effective_name_spec(element_type@, element_name@) {
            Some(n) => r matches Ok(names) && names.0@ == n && names.1@ == n + ".h"@ && names.2@
                == n + ".cpp"@,
            None => r matches Err(e) && (e matches JuMakeError::InvalidElementType(t) && t@
                == element_type@),
        },
{
    let is_class = str_eq(element_type, "class");
    let is_component = str_eq(element_type, "component");
    if !is_class && !is_component {
        return Err(JuMakeError::InvalidElementType(String::from_str(element_type)));
    }
    let adjusted = if is_class {
        String::from_str(element_name)
    } else {
        concat2(element_name, "Component")
    };
    let header = concat2(adjusted.as_str(), ".h");
    let cpp = concat2(adjusted.as_str(), ".cpp");
    Ok((adjusted, header, cpp))
}

/// The two files a new element materializes as, rendered and named.
#[derive(Debug)]
pub struct AddedFiles {
    /// The effective element name after suffixing.
    pub effective_name: String,
    /// Name of the header file, `<effective>.h`.
    pub header_file_name: String,
    /// Header content: the kind's header template with every placeholder
    /// occurrence replaced by the effective name.
    pub header_content: String,
    /// Name of the implementation file, `<effective>.cpp`.
    pub cpp_file_name: String,
    /// Implementation content, rendered like the header.
    pub cpp_content: String,
}

/// Everything [`add_class`] guarantees, as a relation between its inputs
/// and its result: an unrecognized kind is refused; a positive existence
/// probe on either file forces `AlreadyExists` under the effective name;
/// otherwise both files come back rendered from the kind's templates with
/// every placeholder occurrence replaced by the effective name.
pub open spec fn add_class_post(
    element_type: Seq<char>,
    element_name: Seq<char>,
    header_exists: bool,
    cpp_exists: bool,
    r: Result<AddedFiles, JuMakeError>,
) -> bool {
    match effective_name_spec(element_type, element_name) {
        Some(n) => {
            if header_exists || cpp_exists {
                r matches Err(e) && (e matches JuMakeError::AlreadyExists(a) && a@ == n)
            } else {
                r matches Ok(f) && {
                    &&& f.effective_name@ == n
                    &&& f.header_file_name@ == n + ".h"@
                    &&& f.cpp_file_name@ == n + ".cpp"@
                    &&& f.header_content@ == replace_seq(
                        element_templates_spec(element_type)->Some_0.0,
                        "Template"@,
                        n,
                    )
                    &&& f.cpp_content@ == replace_seq(
                        element_templates_spec(element_type)->Some_0.1,
                        "Template"@,
                        n,
                    )
                }
            }
        },
        None => r matches Err(e) && (e matches JuMakeError::InvalidElementType(t) && t@
            == element_type),
    }
}

/// Law: element addition is idempotent-refusing.  The effective name is a
/// function of the element kind and name alone, so a second identical
/// request probes exactly the files a successful first addition wrote;
/// once either of them exists, the second addition always fails with
/// `AlreadyExists` under that same effective name — whether or not the
/// first addition's descriptor-registration step succeeded, since that
/// step plays no part in the refusal.
pub proof fn lemma_add_element_idempotent_refusing(
    element_type: Seq<char>,
    element_name: Seq<char>,
    first: Result<AddedFiles, JuMakeError>,
    header_exists: bool,
    cpp_exists: bool,
    second: Result<AddedFiles, JuMakeError>,
)
    requires
        add_class_post(element_type, element_name, false, false, first),
        first is Ok,
        header_exists || cpp_exists,
        add_class_post(element_type, element_name, header_exists, cpp_exists, second),
    ensures
        second matches Err(e) && (e matches JuMakeError::AlreadyExists(a) && a@
            == first->Ok_0.effective_name@),
{
}

/// Renders the files of a new element.  The element kind must be
/// recognized; a header or implementation file already present under the
/// effective name refuses the addition before anything is rendered.
pub fn add_class(
    element_type: &str,
    element_name: &str,
    header_exists: bool,
    cpp_exists: bool,
) -> (r: Result<AddedFiles, JuMakeError>)
    ensures
        add_class_post(element_type@, element_name@, header_exists, cpp_exists, r),
{
    proof {
        reveal_strlit("Template");
    }
    let is_class = str_eq(element_type, "class");
    let is_component = str_eq(element_type, "component");
    if !is_class && !is_component {
        return Err(JuMakeError::InvalidElementType(String::from_str(element_type)));
    }
    let adjusted = if is_class {
        String::from_str(element_name)
    } else {
        concat2(element_name, "Component")
    };
    if header_exists || cpp_exists {
        return Err(JuMakeError::AlreadyExists(adjusted));
    }
    let (header_template, cpp_template) = if is_class {
        (
            "#pragma once\n\nclass Template\n{\npublic:\n    Template();\n    ~Template();\n};\n",
            "// Template implementation.\n\nTemplate::Template() {}\n\nTemplate::~Template() {}\n",
        )
    } else {
        (
            "#pragma once\n\nclass Template : public juce::Component\n{\npublic:\n    Template();\n    void paint(juce::Graphics& g) override;\n    void resized() override;\n};\n",
            "// Template component implementation.\n\nTemplate::Template() {}\n\nvoid Template::paint(juce::Graphics& g) {}\n\nvoid Template::resized() {}\n",
        )
    };
    let header_content = replace_all(header_template, "Template", adjusted.as_str());
    let cpp_content = replace_all(cpp_template, "Template", adjusted.as_str());
    let header_file_name = concat2(adjusted.as_str(), ".h");
    let cpp_file_name = concat2(adjusted.as_str(), ".cpp");
    Ok(
        AddedFiles {
            effective_name: adjusted,
            header_file_name,
            header_content,
            cpp_file_name,
            cpp_content,
        },
    )
}

} // verus!
