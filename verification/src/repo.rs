//! Repository-initialization policy: which ignore rules the project gets,
//! and the identity and message of the initial snapshot.  The mechanics of
//! repository creation are an external collaborator's; only the policy is
//! decided here.

use vstd::prelude::*;

use crate::strutil::contains_pat;
use crate::strutil::contains_sub;

verus! {

/// The fixed ignore rules every generated project receives.
pub open spec fn gitignore_entries_spec() -> Seq<Seq<char>> {
    seq![
        "modules/"@,
        "jumake_build/"@,
        "build/"@,
        "compile_commands.json"@,
        ".jumake"@,
        ".cache/"@,
    ]
}

/// The fixed ignore rules, in order.
pub fn default_gitignore_entries() -> (r: Vec<&'static str>)
    ensures
        r@.len() == gitignore_entries_spec().len(),
        forall|i: int| 0 <= i < r@.len() ==> (#[trigger] r@[i])@ == gitignore_entries_spec()[i],
{
    let mut v: Vec<&'static str> = Vec::new();
    v.push("modules/");
    v.push("jumake_build/");
    v.push("build/");
    v.push("compile_commands.json");
    v.push(".jumake");
    v.push(".cache/");
    v
}

/// The text to append to an existing ignore file: each default entry that
/// does not yet occur in it, in order, each on a line of its own — and
/// nothing when every entry already occurs.
pub open spec fn gitignore_additions_spec(existing: Seq<char>, i: int) -> Seq<char>
    decreases gitignore_entries_spec().len() - i,
{
    if i < 0 || i >= gitignore_entries_spec().len() {
        Seq::empty()
    } else {
        (if contains_pat(existing, gitignore_entries_spec()[i]) {
            Seq::empty()
        } else {
            gitignore_entries_spec()[i] + "\n"@
        }) + gitignore_additions_spec(existing, i + 1)
    }
}

/// Computes the ignore-file additions for the given existing content.
pub fn gitignore_additions(existing: &str) -> (r: String)
    ensures
        r@ == gitignore_additions_spec(existing@, 0),
{
    let entries = default_gitignore_entries();
    let n = entries.len();
    let mut out = String::new();
    let mut i: usize = 0;
    proof {
        assert(out@ + gitignore_additions_spec(existing@, 0) =~= gitignore_additions_spec(
            existing@,
            0,
        ));
    }
    while i < n
        invariant
            n == entries@.len(),
            n == gitignore_entries_spec().len(),
            forall|j: int| 0 <= j < n ==> (#[trigger] entries@[j])@ == gitignore_entries_spec()[j],
            i <= n,
            out@ + gitignore_additions_spec(existing@, i as int) == gitignore_additions_spec(
                existing@,
                0,
            ),
        decreases n - i,
    {
        let ghost out0 = out@;
        let entry = entries[i];
        if !contains_sub(existing, entry) {
            out.append(entry);
            out.append("\n");
            proof {
                assert((out0 + (gitignore_entries_spec()[i as int] + "\n"@))
                    + gitignore_additions_spec(existing@, i + 1) =~= out0 + ((
                gitignore_entries_spec()[i as int] + "\n"@) + gitignore_additions_spec(
                    existing@,
                    i + 1,
                )));
            }
        } else {
            proof {
                assert(Seq::<char>::empty() + gitignore_additions_spec(existing@, i + 1)
                    =~= gitignore_additions_spec(existing@, i + 1));
            }
        }
        i += 1;
    }
    proof {
        assert(gitignore_additions_spec(existing@, n as int) =~= Seq::<char>::empty());
        assert(out@ + Seq::<char>::empty() =~= out@);
    }
    out
}

/// The committer identity used for the initial snapshot.
pub fn commit_author_name() -> (r: &'static str)
    ensures
        r@ == "JuMake"@,
{
    "JuMake"
}

/// The committer address used for the initial snapshot.
pub fn commit_author_email() -> (r: &'static str)
    ensures
        r@ == "jumake@example.com"@,
{
    "jumake@example.com"
}

/// The message of the initial snapshot.
pub fn initial_commit_message() -> (r: &'static str)
    ensures
        r@ == "Initial commit by JuMake"@,
{
    "Initial commit by JuMake"
}

} // verus!
