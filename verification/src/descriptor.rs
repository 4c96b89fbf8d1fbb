//! Build-descriptor logic: generating the root descriptor, reading the
//! template-kind annotation and the project name back out of descriptor
//! text, and registering a new implementation file in the source list.

use vstd::prelude::*;
use vstd::string::StrSliceExecFns;
use vstd::string::StringExecFns;

use crate::context::Context;
use crate::errors::JuMakeError;
use crate::strutil::concat3;
use crate::strutil::first_char_from;
use crate::strutil::first_non_space_from;
use crate::strutil::first_space_from;
use crate::strutil::is_space;
use crate::strutil::lemma_first_char_from_unique;
use crate::strutil::lemma_first_non_space_from_unique;
use crate::strutil::lemma_first_space_from_unique;
use crate::strutil::match_at;
use crate::strutil::pat_at;
use crate::strutil::scan_char;
use crate::strutil::scan_non_space;
use crate::strutil::scan_space;
use crate::strutil::spaces_seq;
use crate::strutil::spaces_string;

verus! {

// ---------------------------------------------------------------------
// Root descriptor generation
// ---------------------------------------------------------------------

/// Content of the root build descriptor for a project of the given name.
pub open spec fn root_cmakelists_text(name: Seq<char>) -> Seq<char> {
    "cmake_minimum_required(VERSION 3.24)\nproject("@ + name
        + " VERSION 0.0.1)\nadd_subdirectory(modules/JUCE)\nadd_subdirectory(src)\n"@
}

/// Renders the root build descriptor for the project of `context`.
pub fn create_cmakelists(context: &Context) -> (r: String)
    ensures
        r@ == root_cmakelists_text(context.project_name@),
{
    concat3(
        "cmake_minimum_required(VERSION 3.24)\nproject(",
        context.project_name.as_str(),
        " VERSION 0.0.1)\nadd_subdirectory(modules/JUCE)\nadd_subdirectory(src)\n",
    )
}

// ---------------------------------------------------------------------
// Template-kind annotation
// ---------------------------------------------------------------------

/// Keyword opening the template-kind annotation inside the source-level
/// build descriptor.
pub open spec fn marker_key() -> Seq<char> {
    "set(JUMAKE_TEMPLATE"@
}

/// The annotation value when the annotation pattern — the keyword, at least
/// one whitespace character, then a non-empty double-quoted value followed
/// by a closing parenthesis — matches at position `i` of `s`.
pub open spec fn marker_name_at(s: Seq<char>, i: int) -> Option<Seq<char>> {
    if !pat_at(s, marker_key(), i) {
        None
    } else {
        let k = i + marker_key().len();
        let b = first_non_space_from(s, k);
        if b == k || b >= s.len() || s[b] != '"' {
            None
        } else {
            let q = first_char_from(s, '"', b + 1);
            if q >= s.len() || q == b + 1 || q + 1 >= s.len() || s[q + 1] != ')' {
                None
            } else {
                Some(s.subrange(b + 1, q))
            }
        }
    }
}

/// The annotation value of the leftmost position at or after `i` where the
/// annotation pattern matches.
pub open spec fn marker_from(s: Seq<char>, i: int) -> Option<Seq<char>>
    decreases s.len() - i,
{
    if i >= s.len() {
        None
    } else if marker_name_at(s, i) is Some {
        marker_name_at(s, i)
    } else {
        marker_from(s, i + 1)
    }
}

/// The template-kind annotation of descriptor text `s`, if any.
pub open spec fn template_marker(s: Seq<char>) -> Option<Seq<char>> {
    marker_from(s, 0)
}

proof fn lemma_marker_from_skip(s: Seq<char>, i: int, j: int)
    requires
        0 <= i <= j <= s.len(),
        forall|j2: int| i <= j2 < j ==> marker_name_at(s, j2) is None,
    ensures
        marker_from(s, i) == marker_from(s, j),
    decreases j - i,
{
    if i < j {
        lemma_marker_from_skip(s, i + 1, j);
    }
}

/// Tries the annotation pattern at one position.
fn try_marker_at(s: &str, i: usize) -> (r: Option<String>)
    ensures
        match r {
            Some(v) => marker_name_at(s@, i as int) == Some(v@),
            None => marker_name_at(s@, i as int) is None,
        },
{
    let key = "set(JUMAKE_TEMPLATE";
    if !match_at(s, key, i) {
        return None;
    }
    let n = s.unicode_len();
    let k = i + key.unicode_len();
    let b = scan_non_space(s, k);
    if b == k || b >= n {
        return None;
    }
    if s.get_char(b) != '"' {
        return None;
    }
    let q = scan_char(s, '"', b + 1);
    if q >= n || q == b + 1 {
        return None;
    }
    if q + 1 >= n {
        return None;
    }
    if s.get_char(q + 1) != ')' {
        return None;
    }
    Some(String::from_str(s.substring_char(b + 1, q)))
}

/// Finds the leftmost template-kind annotation in descriptor text.
pub fn find_template_marker(s: &str) -> (r: Option<String>)
    ensures
        match r {
            Some(v) => template_marker(s@) == Some(v@),
            None => template_marker(s@) is None,
        },
{
    let n = s.unicode_len();
    let mut i: usize = 0;
    while i < n
        invariant
            n == s@.len(),
            i <= n,
            forall|j: int| 0 <= j < i ==> marker_name_at(s@, j) is None,
        decreases n - i,
    {
        let hit = try_marker_at(s, i);
        if hit.is_some() {
            proof {
                lemma_marker_from_skip(s@, 0, i as int);
            }
            return hit;
        }
        i += 1;
    }
    proof {
        lemma_marker_from_skip(s@, 0, n as int);
    }
    None
}

/// The template kind an existing project resolves to: the annotation value
/// when the descriptor exists and carries one, the fixed default kind
/// otherwise.
pub open spec fn resolved_template_spec(descriptor: Option<&str>) -> Seq<char> {
    match descriptor {
        Some(d) => match template_marker(d@) {
            Some(t) => t,
            None => "GuiApplication"@,
        },
        None => "GuiApplication"@,
    }
}

/// Resolves the template kind of an existing project from the source-level
/// descriptor: the annotation value when the descriptor exists and carries
/// one, and the fixed default kind otherwise.  The default is a deliberate
/// heuristic: a descriptor without an annotation is silently classified as
/// a GUI application.
pub fn determine_template_name(descriptor: Option<&str>) -> (r: Option<String>)
    ensures
        r matches Some(v) && v@ == resolved_template_spec(descriptor),
{
    match descriptor {
        Some(d) => match find_template_marker(d) {
            Some(v) => Some(v),
            None => Some(String::from_str("GuiApplication")),
        },
        None => Some(String::from_str("GuiApplication")),
    }
}

// ---------------------------------------------------------------------
// Project-name extraction
// ---------------------------------------------------------------------

/// Prefix that a descriptor line declaring the project name carries once
/// its leading whitespace is dropped.
pub open spec fn project_prefix() -> Seq<char> {
    "project("@
}

/// The project name declared by one descriptor line: the first
/// whitespace-separated token between `project(` (after leading
/// whitespace) and the first closing parenthesis after it.
pub open spec fn project_name_of_line(line: Seq<char>) -> Option<Seq<char>> {
    let a = first_non_space_from(line, 0);
    if !pat_at(line, project_prefix(), a) {
        None
    } else {
        let c0 = a + project_prefix().len();
        let e = first_char_from(line, ')', c0);
        if e >= line.len() {
            None
        } else {
            let t0 = first_non_space_from(line, c0);
            if t0 >= e {
                None
            } else {
                let t1 = first_space_from(line, t0);
                Some(line.subrange(t0, if t1 < e { t1 } else { e }))
            }
        }
    }
}

/// Law: the root descriptor names the project it was generated for.  For
/// any project name that is non-empty and free of whitespace and closing
/// parentheses, the `project(` line the generated root descriptor carries
/// yields exactly that name back — what creation writes, a later `run`
/// recovers.
pub proof fn lemma_root_descriptor_names_project(name: Seq<char>)
    requires
        name.len() > 0,
        forall|i: int| 0 <= i < name.len() ==> !is_space(name[i]),
        forall|i: int| 0 <= i < name.len() ==> name[i] != ')',
    ensures
        project_name_of_line("project("@ + name + " VERSION 0.0.1)"@) == Some(name),
{
    reveal_strlit("project(");
    reveal_strlit(" VERSION 0.0.1)");
    let p = "project("@;
    let suffix = " VERSION 0.0.1)"@;
    let line = p + name + suffix;
    assert(p.len() == 8);
    assert(suffix.len() == 15);
    assert(line[0] == 'p');
    lemma_first_non_space_from_unique(line, 0, 0);
    assert(line.subrange(0, 8) =~= p);
    assert(pat_at(line, project_prefix(), 0));
    let e = 8 + name.len() as int + 14;
    assert(line[e] == suffix[14]);
    assert forall|j: int| 8 <= j < e implies line[j] != ')' by {
        if j < 8 + name.len() {
            assert(line[j] == name[j - 8]);
        } else {
            let k = j - 8 - name.len();
            assert(line[j] == suffix[k]);
            if k == 0 {
                assert(suffix[0] == ' ');
            } else if k == 1 {
                assert(suffix[1] == 'V');
            } else if k == 2 {
                assert(suffix[2] == 'E');
            } else if k == 3 {
                assert(suffix[3] == 'R');
            } else if k == 4 {
                assert(suffix[4] == 'S');
            } else if k == 5 {
                assert(suffix[5] == 'I');
            } else if k == 6 {
                assert(suffix[6] == 'O');
            } else if k == 7 {
                assert(suffix[7] == 'N');
            } else if k == 8 {
                assert(suffix[8] == ' ');
            } else if k == 9 {
                assert(suffix[9] == '0');
            } else if k == 10 {
                assert(suffix[10] == '.');
            } else if k == 11 {
                assert(suffix[11] == '0');
            } else if k == 12 {
                assert(suffix[12] == '.');
            } else {
                assert(suffix[13] == '1');
            }
        }
    }
    lemma_first_char_from_unique(line, ')', 8, e);
    assert forall|j: int| 8 <= j < 8 + name.len() implies !is_space(line[j]) by {
        assert(line[j] == name[j - 8]);
    }
    lemma_first_non_space_from_unique(line, 8, 8);
    assert(line[8 + name.len() as int] == suffix[0]);
    lemma_first_space_from_unique(line, 8, 8 + name.len() as int);
    assert(line.subrange(8, 8 + name.len() as int) =~= name);
}

/// The name declared by the first line, at or after index `i`, that yields
/// one.
pub open spec fn project_name_from(lines: Seq<String>, i: int) -> Option<Seq<char>>
    decreases lines.len() - i,
{
    if i >= lines.len() {
        None
    } else if project_name_of_line(lines[i]@) is Some {
        project_name_of_line(lines[i]@)
    } else {
        project_name_from(lines, i + 1)
    }
}

proof fn lemma_project_name_from_skip(lines: Seq<String>, i: int, j: int)
    requires
        0 <= i <= j <= lines.len(),
        forall|j2: int| i <= j2 < j ==> project_name_of_line(lines[j2]@) is None,
    ensures
        project_name_from(lines, i) == project_name_from(lines, j),
    decreases j - i,
{
    if i < j {
        lemma_project_name_from_skip(lines, i + 1, j);
    }
}

/// Tries to read a project name out of one descriptor line.
fn try_project_line(line: &str) -> (r: Option<String>)
    ensures
        match r {
            Some(v) => project_name_of_line(line@) == Some(v@),
            None => project_name_of_line(line@) is None,
        },
{
    let prefix = "project(";
    let n = line.unicode_len();
    let a = scan_non_space(line, 0);
    if !match_at(line, prefix, a) {
        return None;
    }
    let c0 = a + prefix.unicode_len();
    let e = scan_char(line, ')', c0);
    if e >= n {
        return None;
    }
    let t0 = scan_non_space(line, c0);
    if t0 >= e {
        return None;
    }
    let t1 = scan_space(line, t0);
    let end = if t1 < e {
        t1
    } else {
        e
    };
    Some(String::from_str(line.substring_char(t0, end)))
}

/// Extracts the project name from the lines of the root build descriptor:
/// the first line declaring one wins; a descriptor declaring none is an
/// error.
pub fn extract_project_name(lines: &Vec<String>) -> (r: Result<String, JuMakeError>)
    ensures
        match r {
            Ok(name) => project_name_from(lines@, 0) == Some(name@),
            Err(e) => project_name_from(lines@, 0) is None && e
                matches JuMakeError::ProjectNameNotFound,
        },
{
    let n = lines.len();
    let mut i: usize = 0;
    while i < n
        invariant
            n == lines@.len(),
            i <= n,
            forall|j: int| 0 <= j < i ==> project_name_of_line(lines@[j]@) is None,
        decreases n - i,
    {
        let hit = try_project_line(lines[i].as_str());
        match hit {
            Some(name) => {
                proof {
                    lemma_project_name_from_skip(lines@, 0, i as int);
                }
                return Ok(name);
            },
            None => {},
        }
        i += 1;
    }
    proof {
        lemma_project_name_from_skip(lines@, 0, n as int);
    }
    Err(JuMakeError::ProjectNameNotFound)
}

// ---------------------------------------------------------------------
// Source-list registration
// ---------------------------------------------------------------------

/// Prefix of the line that declares the target's source list.
pub open spec fn target_sources_prefix() -> Seq<char> {
    "target_sources(${PROJECT_NAME}"@
}

/// Keyword opening the private section of a source list.
pub open spec fn private_prefix() -> Seq<char> {
    "PRIVATE"@
}

/// The line, once leading whitespace is dropped, begins with `p`.
pub open spec fn trimmed_starts_with(line: Seq<char>, p: Seq<char>) -> bool {
    pat_at(line, p, first_non_space_from(line, 0))
}

/// Some line at or before `k` declares the target's source list.
pub open spec fn target_seen_by(lines: Seq<String>, k: int) -> bool {
    exists|j: int| 0 <= j <= k && trimmed_starts_with(lines[j]@, target_sources_prefix())
}

/// Line `k` opens a private section after the source-list declaration.
pub open spec fn private_after_target(lines: Seq<String>, k: int) -> bool {
    0 <= k < lines.len() && trimmed_starts_with(lines[k]@, private_prefix()) && target_seen_by(
        lines,
        k,
    )
}

/// Line `k` is the insertion point: the first private-section line after
/// the source-list declaration.
pub open spec fn is_insert_line(lines: Seq<String>, k: int) -> bool {
    private_after_target(lines, k) && forall|k2: int|
        0 <= k2 < k ==> !private_after_target(lines, k2)
}

/// The line registering `name`, indented four columns deeper than a marker
/// line of indentation `indent`.
pub open spec fn inserted_line(indent: int, name: Seq<char>) -> Seq<char> {
    spaces_seq((indent + 4) as nat) + name
}

/// Tests whether a line, after leading whitespace, begins with `p`.
fn line_trim_starts_with(line: &str, p: &str) -> (r: bool)
    ensures
        r == trimmed_starts_with(line@, p@),
{
    let a = scan_non_space(line, 0);
    match_at(line, p, a)
}

/// Registers a newly created implementation file in the source list of the
/// descriptor given as its sequence of lines.  The new filename is inserted
/// exactly once, immediately after the first `PRIVATE` line that follows
/// the `target_sources(${PROJECT_NAME}` line, indented four columns deeper
/// than that `PRIVATE` line; every other line is preserved byte for byte in
/// order.  When no such line exists the descriptor is rejected unchanged.
pub fn update_cmakelists(lines: &Vec<String>, cpp_file_name: &str) -> (r: Result<
    Vec<String>,
    JuMakeError,
>)
    requires
        forall|i: int| 0 <= i < lines@.len() ==> lines@[i]@.len() + 4 <= usize::MAX,
    ensures
        match r {
            Ok(out) => exists|k: int|
                {
                    &&& #[trigger] is_insert_line(lines@, k)
                    &&& out@.len() == lines@.len() + 1
                    &&& forall|i: int| 0 <= i <= k ==> out@[i] == lines@[i]
                    &&& out@[k + 1]@ == inserted_line(
                        first_non_space_from(lines@[k]@, 0),
                        cpp_file_name@,
                    )
                    &&& forall|i: int| k + 1 < i < out@.len() ==> out@[i] == lines@[i - 1]
                },
            Err(e) => {
                &&& e matches JuMakeError::MarkerNotFound
                &&& forall|k: int| !is_insert_line(lines@, k)
            },
        },
{
    let n = lines.len();
    let mut out: Vec<String> = Vec::new();
    let mut found_target = false;
    let mut added = false;
    let ghost mut insert_at: int = 0;
    let mut idx: usize = 0;
    while idx < n
        invariant
            n == lines@.len(),
            idx <= n,
            forall|i: int| 0 <= i < lines@.len() ==> lines@[i]@.len() + 4 <= usize::MAX,
            found_target == exists|j: int|
                0 <= j < idx && trimmed_starts_with(lines@[j]@, target_sources_prefix()),
            !added ==> out@ =~= lines@.take(idx as int),
            !added ==> forall|k2: int| 0 <= k2 < idx ==> !private_after_target(lines@, k2),
            added ==> {
                &&& is_insert_line(lines@, insert_at)
                &&& insert_at < idx
                &&& out@.len() == idx + 1
                &&& forall|i: int| 0 <= i <= insert_at ==> out@[i] == lines@[i]
                &&& out@[insert_at + 1]@ == inserted_line(
                    first_non_space_from(lines@[insert_at]@, 0),
                    cpp_file_name@,
                )
                &&& forall|i: int| insert_at + 1 < i < out@.len() ==> out@[i] == lines@[i - 1]
            },
        decreases n - idx,
    {
        let line = &lines[idx];
        out.push(line.clone());
        if line_trim_starts_with(line.as_str(), "target_sources(${PROJECT_NAME}") {
            found_target = true;
        }
        if found_target && !added && line_trim_starts_with(line.as_str(), "PRIVATE") {
            let indent = scan_non_space(line.as_str(), 0);
            let mut new_line = spaces_string(indent + 4);
            new_line.append(cpp_file_name);
            proof {
                assert(new_line@ == inserted_line(indent as int, cpp_file_name@));
                assert(private_after_target(lines@, idx as int));
                insert_at = idx as int;
            }
            out.push(new_line);
            added = true;
        }
        idx += 1;
    }
    if added {
        Ok(out)
    } else {
        proof {
            assert forall|k: int| !is_insert_line(lines@, k) by {
                if 0 <= k < lines@.len() {
                    assert(!private_after_target(lines@, k));
                }
            }
        }
        Err(JuMakeError::MarkerNotFound)
    }
}

} // verus!
