//! Character-level string utilities: whitespace classification, substring
//! search, token scanning and placeholder substitution, each verified against
//! a mathematical description over `Seq<char>`.

use vstd::prelude::*;
use vstd::string::StrSliceExecFns;
use vstd::string::StringExecFns;

verus! {

/// The characters of the Unicode `White_Space` property, i.e. exactly the
/// characters `char::is_whitespace` accepts.
pub open spec fn is_space(c: char) -> bool {
    c == ' ' || c == '\t' || c == '\n' || c == '\r' || c == '\u{b}' || c == '\u{c}'
        || c == '\u{85}' || c == '\u{a0}' || c == '\u{1680}' || c == '\u{2000}' || c == '\u{2001}'
        || c == '\u{2002}' || c == '\u{2003}' || c == '\u{2004}' || c == '\u{2005}'
        || c == '\u{2006}' || c == '\u{2007}' || c == '\u{2008}' || c == '\u{2009}'
        || c == '\u{200a}' || c == '\u{2028}' || c == '\u{2029}' || c == '\u{202f}'
        || c == '\u{205f}' || c == '\u{3000}'
}

/// Executable whitespace test agreeing with [`is_space`].
pub fn is_space_char(c: char) -> (r: bool)
    ensures
        r == is_space(c),
{
    c == ' ' || c == '\t' || c == '\n' || c == '\r' || c == '\u{b}' || c == '\u{c}'
        || c == '\u{85}' || c == '\u{a0}' || c == '\u{1680}' || c == '\u{2000}' || c == '\u{2001}'
        || c == '\u{2002}' || c == '\u{2003}' || c == '\u{2004}' || c == '\u{2005}'
        || c == '\u{2006}' || c == '\u{2007}' || c == '\u{2008}' || c == '\u{2009}'
        || c == '\u{200a}' || c == '\u{2028}' || c == '\u{2029}' || c == '\u{202f}'
        || c == '\u{205f}' || c == '\u{3000}'
}

/// `p` occurs in `s` starting at position `i`.
pub open spec fn pat_at(s: Seq<char>, p: Seq<char>, i: int) -> bool {
    0 <= i && i + p.len() <= s.len() && s.subrange(i, i + p.len() as int) == p
}

/// `p` occurs somewhere in `s`.
pub open spec fn contains_pat(s: Seq<char>, p: Seq<char>) -> bool {
    exists|i: int| pat_at(s, p, i)
}

/// Equality of two string slices, decided at character level.
pub fn str_eq(a: &str, b: &str) -> (r: bool)
    ensures
        r == (a@ == b@),
{
    let sa = String::from_str(a);
    let sb = String::from_str(b);
    sa == sb
}

/// Whether `p` occurs in `s` at position `i`.
pub fn match_at(s: &str, p: &str, i: usize) -> (r: bool)
    ensures
        r == pat_at(s@, p@, i as int),
{
    let n = s.unicode_len();
    let m = p.unicode_len();
    if i > n || m > n - i {
        return false;
    }
    let mut j: usize = 0;
    while j < m
        invariant
            n == s@.len(),
            m == p@.len(),
            i + m <= n,
            j <= m,
            forall|k: int| 0 <= k < j ==> s@[i + k] == p@[k],
        decreases m - j,
    {
        if s.get_char(i + j) != p.get_char(j) {
            proof {
                if pat_at(s@, p@, i as int) {
                    assert(s@.subrange(i as int, i + p@.len() as int)[j as int] == p@[j as int]);
                }
            }
            return false;
        }
        j += 1;
    }
    proof {
        assert(s@.subrange(i as int, i + p@.len() as int) =~= p@);
    }
    true
}

/// Position of the leftmost occurrence of `p` in `s`, if any.
pub fn find_sub(s: &str, p: &str) -> (r: Option<usize>)
    ensures
        match r {
            Some(i) => pat_at(s@, p@, i as int) && forall|j: int| j < i ==> !pat_at(s@, p@, j),
            None => forall|j: int| !pat_at(s@, p@, j),
        },
{
    let n = s.unicode_len();
    let m = p.unicode_len();
    if m > n {
        return None;
    }
    if m == 0 {
        proof {
            assert(s@.subrange(0, 0) =~= p@);
        }
        return Some(0);
    }
    let mut i: usize = 0;
    while i <= n - m
        invariant
            n == s@.len(),
            m == p@.len(),
            0 < m <= n,
            i <= n - m + 1,
            forall|j: int| j < i ==> !pat_at(s@, p@, j),
        decreases n - m + 1 - i,
    {
        if match_at(s, p, i) {
            return Some(i);
        }
        i += 1;
    }
    None
}

/// Whether `p` occurs somewhere in `s`.
pub fn contains_sub(s: &str, p: &str) -> (r: bool)
    ensures
        r == contains_pat(s@, p@),
{
    match find_sub(s, p) {
        Some(i) => {
            proof {
                assert(pat_at(s@, p@, i as int));
            }
            true
        },
        None => false,
    }
}

/// Index of the first non-whitespace character at or after `from`
/// (`s.len()` when all of the rest is whitespace).
pub open spec fn first_non_space_from(s: Seq<char>, from: int) -> int
    decreases s.len() - from,
{
    if from >= s.len() {
        s.len() as int
    } else if is_space(s[from]) {
        first_non_space_from(s, from + 1)
    } else {
        from
    }
}

pub proof fn lemma_first_non_space_from(s: Seq<char>, from: int)
    requires
        0 <= from <= s.len(),
    ensures
        from <= first_non_space_from(s, from) <= s.len(),
        forall|j: int| from <= j < first_non_space_from(s, from) ==> is_space(s[j]),
        first_non_space_from(s, from) < s.len() ==> !is_space(s[first_non_space_from(s, from)]),
    decreases s.len() - from,
{
    if from < s.len() && is_space(s[from]) {
        lemma_first_non_space_from(s, from + 1);
    }
}

pub proof fn lemma_first_non_space_from_unique(s: Seq<char>, from: int, i: int)
    requires
        0 <= from <= i <= s.len(),
        forall|j: int| from <= j < i ==> is_space(s[j]),
        i < s.len() ==> !is_space(s[i]),
    ensures
        i == first_non_space_from(s, from),
{
    lemma_first_non_space_from(s, from);
    let f = first_non_space_from(s, from);
    if i < f {
        assert(is_space(s[i]));
        assert(false);
    }
    if f < i {
        assert(is_space(s[f]));
        assert(false);
    }
}

/// Executable scan for the first non-whitespace character at or after `from`.
pub fn scan_non_space(s: &str, from: usize) -> (r: usize)
    requires
        from <= s@.len(),
    ensures
        r == first_non_space_from(s@, from as int),
        from <= r <= s@.len(),
{
    let n = s.unicode_len();
    let mut i: usize = from;
    while i < n
        invariant
            n == s@.len(),
            from <= i <= n,
            forall|j: int| from <= j < i ==> is_space(s@[j]),
        decreases n - i,
    {
        if !is_space_char(s.get_char(i)) {
            proof {
                lemma_first_non_space_from_unique(s@, from as int, i as int);
            }
            return i;
        }
        i += 1;
    }
    proof {
        lemma_first_non_space_from_unique(s@, from as int, n as int);
    }
    n
}

/// Index of the first whitespace character at or after `from`
/// (`s.len()` when there is none).
pub open spec fn first_space_from(s: Seq<char>, from: int) -> int
    decreases s.len() - from,
{
    if from >= s.len() {
        s.len() as int
    } else if !is_space(s[from]) {
        first_space_from(s, from + 1)
    } else {
        from
    }
}

pub proof fn lemma_first_space_from(s: Seq<char>, from: int)
    requires
        0 <= from <= s.len(),
    ensures
        from <= first_space_from(s, from) <= s.len(),
        forall|j: int| from <= j < first_space_from(s, from) ==> !is_space(s[j]),
        first_space_from(s, from) < s.len() ==> is_space(s[first_space_from(s, from)]),
    decreases s.len() - from,
{
    if from < s.len() && !is_space(s[from]) {
        lemma_first_space_from(s, from + 1);
    }
}

pub proof fn lemma_first_space_from_unique(s: Seq<char>, from: int, i: int)
    requires
        0 <= from <= i <= s.len(),
        forall|j: int| from <= j < i ==> !is_space(s[j]),
        i < s.len() ==> is_space(s[i]),
    ensures
        i == first_space_from(s, from),
{
    lemma_first_space_from(s, from);
    let f = first_space_from(s, from);
    if i < f {
        assert(!is_space(s[i]));
        assert(false);
    }
    if f < i {
        assert(!is_space(s[f]));
        assert(false);
    }
}

/// Executable scan for the first whitespace character at or after `from`.
pub fn scan_space(s: &str, from: usize) -> (r: usize)
    requires
        from <= s@.len(),
    ensures
        r == first_space_from(s@, from as int),
        from <= r <= s@.len(),
{
    let n = s.unicode_len();
    let mut i: usize = from;
    while i < n
        invariant
            n == s@.len(),
            from <= i <= n,
            forall|j: int| from <= j < i ==> !is_space(s@[j]),
        decreases n - i,
    {
        if is_space_char(s.get_char(i)) {
            proof {
                lemma_first_space_from_unique(s@, from as int, i as int);
            }
            return i;
        }
        i += 1;
    }
    proof {
        lemma_first_space_from_unique(s@, from as int, n as int);
    }
    n
}

/// Index of the first occurrence of `c` at or after `from`
/// (`s.len()` when there is none).
pub open spec fn first_char_from(s: Seq<char>, c: char, from: int) -> int
    decreases s.len() - from,
{
    if from >= s.len() {
        s.len() as int
    } else if s[from] == c {
        from
    } else {
        first_char_from(s, c, from + 1)
    }
}

pub proof fn lemma_first_char_from(s: Seq<char>, c: char, from: int)
    requires
        0 <= from <= s.len(),
    ensures
        from <= first_char_from(s, c, from) <= s.len(),
        forall|j: int| from <= j < first_char_from(s, c, from) ==> s[j] != c,
        first_char_from(s, c, from) < s.len() ==> s[first_char_from(s, c, from)] == c,
    decreases s.len() - from,
{
    if from < s.len() && s[from] != c {
        lemma_first_char_from(s, c, from + 1);
    }
}

pub proof fn lemma_first_char_from_unique(s: Seq<char>, c: char, from: int, i: int)
    requires
        0 <= from <= i <= s.len(),
        forall|j: int| from <= j < i ==> s[j] != c,
        i < s.len() ==> s[i] == c,
    ensures
        i == first_char_from(s, c, from),
{
    lemma_first_char_from(s, c, from);
    let f = first_char_from(s, c, from);
    if i < f {
        assert(s[i] != c);
        assert(false);
    }
    if f < i {
        assert(s[f] != c);
        assert(false);
    }
}

/// Executable scan for the first occurrence of `c` at or after `from`.
pub fn scan_char(s: &str, c: char, from: usize) -> (r: usize)
    requires
        from <= s@.len(),
    ensures
        r == first_char_from(s@, c, from as int),
        from <= r <= s@.len(),
{
    let n = s.unicode_len();
    let mut i: usize = from;
    while i < n
        invariant
            n == s@.len(),
            from <= i <= n,
            forall|j: int| from <= j < i ==> s@[j] != c,
        decreases n - i,
    {
        if s.get_char(i) == c {
            proof {
                lemma_first_char_from_unique(s@, c, from as int, i as int);
            }
            return i;
        }
        i += 1;
    }
    proof {
        lemma_first_char_from_unique(s@, c, from as int, n as int);
    }
    n
}

/// End of the run of `/` characters that terminates `s`: the least index `t`
/// such that everything from `t` on is a `/`.
pub open spec fn trailing_slash_start(s: Seq<char>) -> int
    decreases s.len(),
{
    if s.len() > 0 && s[s.len() - 1] == '/' {
        trailing_slash_start(s.take(s.len() - 1))
    } else {
        s.len() as int
    }
}

pub proof fn lemma_trailing_slash_start(s: Seq<char>)
    ensures
        0 <= trailing_slash_start(s) <= s.len(),
        forall|j: int| trailing_slash_start(s) <= j < s.len() ==> s[j] == '/',
        trailing_slash_start(s) > 0 ==> s[trailing_slash_start(s) - 1] != '/',
    decreases s.len(),
{
    if s.len() > 0 && s[s.len() - 1] == '/' {
        let t = s.take(s.len() - 1);
        lemma_trailing_slash_start(t);
        let f = trailing_slash_start(s);
        assert forall|j: int| f <= j < s.len() implies s[j] == '/' by {
            if j < s.len() - 1 {
                assert(t[j] == s[j]);
            }
        }
        if f > 0 {
            assert(t[f - 1] == s[f - 1]);
        }
    }
}

pub proof fn lemma_trailing_slash_start_unique(s: Seq<char>, t: int)
    requires
        0 <= t <= s.len(),
        forall|j: int| t <= j < s.len() ==> s[j] == '/',
        t > 0 ==> s[t - 1] != '/',
    ensures
        t == trailing_slash_start(s),
{
    lemma_trailing_slash_start(s);
    let f = trailing_slash_start(s);
    if t < f {
        assert(s[f - 1] == '/');
        assert(false);
    }
    if f < t {
        assert(s[t - 1] == '/');
        assert(false);
    }
}

/// Executable scan for [`trailing_slash_start`].
pub fn scan_trailing_slashes(s: &str) -> (r: usize)
    ensures
        r == trailing_slash_start(s@),
        r <= s@.len(),
{
    let n = s.unicode_len();
    let mut i: usize = n;
    while i > 0
        invariant
            n == s@.len(),
            i <= n,
            forall|j: int| i <= j < n ==> s@[j] == '/',
        decreases i,
    {
        if s.get_char(i - 1) != '/' {
            proof {
                lemma_trailing_slash_start_unique(s@, i as int);
            }
            return i;
        }
        i -= 1;
    }
    proof {
        lemma_trailing_slash_start_unique(s@, 0);
    }
    0
}

/// Largest index of `c` strictly before `end`, or `-1` when there is none.
pub open spec fn last_char_before(s: Seq<char>, c: char, end: int) -> int
    decreases end,
{
    if end <= 0 {
        -1
    } else if s[end - 1] == c {
        end - 1
    } else {
        last_char_before(s, c, end - 1)
    }
}

pub proof fn lemma_last_char_before(s: Seq<char>, c: char, end: int)
    requires
        0 <= end <= s.len(),
    ensures
        -1 <= last_char_before(s, c, end) < end,
        last_char_before(s, c, end) >= 0 ==> s[last_char_before(s, c, end)] == c,
        forall|j: int| last_char_before(s, c, end) < j < end ==> s[j] != c,
    decreases end,
{
    if end > 0 && s[end - 1] != c {
        lemma_last_char_before(s, c, end - 1);
    }
}

pub proof fn lemma_last_char_before_unique(s: Seq<char>, c: char, end: int, q: int)
    requires
        0 <= end <= s.len(),
        -1 <= q < end,
        q >= 0 ==> s[q] == c,
        forall|j: int| q < j < end ==> s[j] != c,
    ensures
        q == last_char_before(s, c, end),
{
    lemma_last_char_before(s, c, end);
    let f = last_char_before(s, c, end);
    if q < f {
        assert(s[f] != c);
        assert(false);
    }
    if f < q {
        assert(s[q] != c);
        assert(false);
    }
}

/// Executable scan for [`last_char_before`]; returns `end` in place of `-1`
/// shifted by one, i.e. `r == last_char_before(..) + 1`.
pub fn scan_last_char_before(s: &str, c: char, end: usize) -> (r: usize)
    requires
        end <= s@.len(),
    ensures
        r == last_char_before(s@, c, end as int) + 1,
        r <= end,
{
    let mut i: usize = end;
    while i > 0
        invariant
            end <= s@.len(),
            i <= end,
            forall|j: int| i <= j < end ==> s@[j] != c,
        decreases i,
    {
        if s.get_char(i - 1) == c {
            proof {
                lemma_last_char_before_unique(s@, c, end as int, i - 1);
            }
            return i;
        }
        i -= 1;
    }
    proof {
        lemma_last_char_before_unique(s@, c, end as int, -1);
    }
    0
}

/// A run of `n` space characters.
pub open spec fn spaces_seq(n: nat) -> Seq<char> {
    Seq::new(n, |i: int| ' ')
}

/// Builds a string of `n` spaces.
pub fn spaces_string(n: usize) -> (r: String)
    ensures
        r@ == spaces_seq(n as nat),
{
    let mut out = String::new();
    let mut i: usize = 0;
    proof {
        reveal_strlit(" ");
    }
    while i < n
        invariant
            i <= n,
            out@ =~= spaces_seq(i as nat),
            " "@ =~= seq![' '],
        decreases n - i,
    {
        out.append(" ");
        proof {
            assert(out@ =~= spaces_seq((i + 1) as nat));
        }
        i += 1;
    }
    proof {
        assert(out@ =~= spaces_seq(n as nat));
    }
    out
}

/// Result of replacing each leftmost, non-overlapping occurrence of `pat`
/// in `s` with `to`, as `str::replace` does.
pub open spec fn replace_seq(s: Seq<char>, pat: Seq<char>, to: Seq<char>) -> Seq<char>
    decreases s.len(),
    when pat.len() > 0
{
    if s.len() < pat.len() {
        s
    } else if s.take(pat.len() as int) == pat {
        to + replace_seq(s.skip(pat.len() as int), pat, to)
    } else {
        seq![s[0]] + replace_seq(s.drop_first(), pat, to)
    }
}

proof fn lemma_replace_step_match(s: Seq<char>, pat: Seq<char>, to: Seq<char>, i: int)
    requires
        pat.len() > 0,
        pat_at(s, pat, i),
    ensures
        replace_seq(s.skip(i), pat, to) == to + replace_seq(s.skip(i + pat.len()), pat, to),
{
    let rest = s.skip(i);
    assert(rest.take(pat.len() as int) =~= s.subrange(i, i + pat.len()));
    assert(rest.skip(pat.len() as int) =~= s.skip(i + pat.len()));
}

proof fn lemma_replace_step_char(s: Seq<char>, pat: Seq<char>, to: Seq<char>, i: int)
    requires
        pat.len() > 0,
        0 <= i < s.len(),
        !pat_at(s, pat, i),
    ensures
        replace_seq(s.skip(i), pat, to) == seq![s[i]] + replace_seq(s.skip(i + 1), pat, to),
{
    let rest = s.skip(i);
    assert(rest.drop_first() =~= s.skip(i + 1));
    assert(seq![rest[0]] =~= seq![s[i]]);
    if rest.len() >= pat.len() {
        assert(rest.take(pat.len() as int) =~= s.subrange(i, i + pat.len()));
        assert(rest.take(pat.len() as int) != pat);
    } else {
        assert(replace_seq(rest, pat, to) == rest);
        assert(rest =~= seq![s[i]] + rest.drop_first());
        assert(replace_seq(rest.drop_first(), pat, to) == rest.drop_first());
    }
}

/// Replaces every leftmost, non-overlapping occurrence of `pat` in `s`
/// with `to`.
pub fn replace_all(s: &str, pat: &str, to: &str) -> (r: String)
    requires
        pat@.len() > 0,
    ensures
        r@ == replace_seq(s@, pat@, to@),
{
    let n = s.unicode_len();
    let m = pat.unicode_len();
    let mut out = String::new();
    let mut i: usize = 0;
    proof {
        assert(s@.skip(0) =~= s@);
        assert(out@ + replace_seq(s@, pat@, to@) =~= replace_seq(s@, pat@, to@));
    }
    while i < n
        invariant
            n == s@.len(),
            m == pat@.len(),
            m > 0,
            i <= n,
            out@ + replace_seq(s@.skip(i as int), pat@, to@) == replace_seq(s@, pat@, to@),
        decreases n - i,
    {
        let ghost out0 = out@;
        if match_at(s, pat, i) {
            out.append(to);
            proof {
                lemma_replace_step_match(s@, pat@, to@, i as int);
                assert(out0 + (to@ + replace_seq(s@.skip(i + m), pat@, to@)) =~= (out0 + to@)
                    + replace_seq(s@.skip(i + m), pat@, to@));
            }
            i += m;
        } else {
            let ch = s.substring_char(i, i + 1);
            out.append(ch);
            proof {
                lemma_replace_step_char(s@, pat@, to@, i as int);
                assert(ch@ =~= seq![s@[i as int]]);
                assert(out0 + (seq![s@[i as int]] + replace_seq(s@.skip(i + 1), pat@, to@)) =~= (
                out0 + ch@) + replace_seq(s@.skip(i + 1), pat@, to@));
            }
            i += 1;
        }
    }
    proof {
        assert(s@.skip(n as int) =~= Seq::<char>::empty());
        assert(replace_seq(Seq::<char>::empty(), pat@, to@) =~= Seq::<char>::empty());
        assert(out@ + Seq::<char>::empty() =~= out@);
    }
    out
}

/// The final nameable segment of a path: the text between the last `/`
/// (ignoring trailing slashes) and the end, or nothing when that segment
/// is empty or a relative component.
pub open spec fn basename_spec(s: Seq<char>) -> Option<Seq<char>> {
    let e = trailing_slash_start(s);
    let b = last_char_before(s, '/', e) + 1;
    let seg = s.subrange(b, e);
    if seg.len() == 0 || seg == "."@ || seg == ".."@ {
        None
    } else {
        Some(seg)
    }
}

/// Extracts the final nameable segment of a path.
pub fn basename_of(path: &str) -> (r: Option<String>)
    ensures
        match r {
            Some(name) => basename_spec(path@) == Some(name@),
            None => basename_spec(path@) is None,
        },
{
    let e = scan_trailing_slashes(path);
    let b = scan_last_char_before(path, '/', e);
    let seg = path.substring_char(b, e);
    if seg.unicode_len() == 0 || str_eq(seg, ".") || str_eq(seg, "..") {
        None
    } else {
        Some(String::from_str(seg))
    }
}

/// A child name appended to a base path, with a separator inserted unless
/// the base already ends in one or is empty.
pub open spec fn joined_path_spec(base: Seq<char>, child: Seq<char>) -> Seq<char> {
    if base.len() == 0 {
        child
    } else if base[base.len() - 1] == '/' {
        base + child
    } else {
        base + "/"@ + child
    }
}

/// Joins a child name onto a base path.
pub fn join_path(base: &str, child: &str) -> (r: String)
    ensures
        r@ == joined_path_spec(base@, child@),
{
    let n = base.unicode_len();
    if n == 0 {
        String::from_str(child)
    } else if base.get_char(n - 1) == '/' {
        concat2(base, child)
    } else {
        concat3(base, "/", child)
    }
}

/// Law: the project path chosen at creation names the project.  For any
/// base directory and any project name that is non-empty, free of path
/// separators and not a relative component, the final nameable segment of
/// the joined project path is exactly the project name — so a context
/// later re-derived from that directory recovers the name the creation
/// chose.
pub proof fn lemma_created_path_names_project(base: Seq<char>, name: Seq<char>)
    requires
        name.len() > 0,
        forall|i: int| 0 <= i < name.len() ==> name[i] != '/',
        name != "."@,
        name != ".."@,
    ensures
        basename_spec(joined_path_spec(base, name)) == Some(name),
{
    let s = joined_path_spec(base, name);
    if base.len() == 0 {
        assert(s == name);
        lemma_trailing_slash_start_unique(s, s.len() as int);
        lemma_last_char_before_unique(s, '/', s.len() as int, -1);
        assert(s.subrange(0, s.len() as int) =~= name);
    } else if base[base.len() - 1] == '/' {
        assert(s == base + name);
        assert(s[s.len() - 1] == name[name.len() - 1]);
        lemma_trailing_slash_start_unique(s, s.len() as int);
        let q = base.len() as int - 1;
        assert(s[q] == '/');
        assert forall|j: int| q < j < s.len() implies s[j] != '/' by {
            assert(s[j] == name[j - base.len()]);
        }
        lemma_last_char_before_unique(s, '/', s.len() as int, q);
        assert(s.subrange(q + 1, s.len() as int) =~= name);
    } else {
        assert(s == base + "/"@ + name);
        reveal_strlit("/");
        assert(s[s.len() - 1] == name[name.len() - 1]);
        lemma_trailing_slash_start_unique(s, s.len() as int);
        let q = base.len() as int;
        assert(s[q] == '/');
        assert forall|j: int| q < j < s.len() implies s[j] != '/' by {
            assert(s[j] == name[j - base.len() - 1]);
        }
        lemma_last_char_before_unique(s, '/', s.len() as int, q);
        assert(s.subrange(q + 1, s.len() as int) =~= name);
    }
}

/// Concatenation of two string slices.
pub fn concat2(a: &str, b: &str) -> (r: String)
    ensures
        r@ == a@ + b@,
{
    let mut out = String::from_str(a);
    out.append(b);
    out
}

/// Concatenation of three string slices.
pub fn concat3(a: &str, b: &str, c: &str) -> (r: String)
    ensures
        r@ == a@ + b@ + c@,
{
    let mut out = String::from_str(a);
    out.append(b);
    out.append(c);
    out
}

} // verus!
