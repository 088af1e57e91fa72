use vstd::prelude::*;
use crate::text::{
    chars_of, leading, is_space, lemma_leading_run, lemma_trim_keeps, lemma_trim_runs, lemma_trim_one_each_side, lemma_trim_start_one, trim,
    trim_start, trim_range, skip_leading, Strip,
};

verus! {

/// The kind of project found at a directory's root.
#[derive(Clone, Copy, Debug, PartialEq, Eq, Structural)]
pub enum Stack {
    Rust,
    NodeNpm,
    NodeYarn,
    NodePnpm,
    NodeBun,
    Python,
    Go,
}

impl Stack {
    /// The human-readable label of each stack.
    pub open spec fn label(self) -> Seq<char> {
        match self {
            Stack::Rust => "Rust"@,
            Stack::NodeNpm => "Node (npm)"@,
            Stack::NodeYarn => "Node (yarn)"@,
            Stack::NodePnpm => "Node (pnpm)"@,
            Stack::NodeBun => "Node (bun)"@,
            Stack::Python => "Python"@,
            Stack::Go => "Go"@,
        }
    }

    /// The label printed for the stack.
    pub fn name(&self) -> (r: &'static str)
        ensures
            r@ == self.label(),
    {
        match self {
            Stack::Rust => "Rust",
            Stack::NodeNpm => "Node (npm)",
            Stack::NodeYarn => "Node (yarn)",
            Stack::NodePnpm => "Node (pnpm)",
            Stack::NodeBun => "Node (bun)",
            Stack::Python => "Python",
            Stack::Go => "Go",
        }
    }
}

/// Each stack's label names its language, and a Node label names the package
/// manager in parentheses; no two stacks share a label.
pub proof fn lemma_labels(a: Stack, b: Stack)
    ensures
        Stack::Rust.label() == "Rust"@,
        Stack::Python.label() == "Python"@,
        Stack::Go.label() == "Go"@,
        Stack::NodeNpm.label() == "Node ("@ + "npm"@ + ")"@,
        Stack::NodeYarn.label() == "Node ("@ + "yarn"@ + ")"@,
        Stack::NodePnpm.label() == "Node ("@ + "pnpm"@ + ")"@,
        Stack::NodeBun.label() == "Node ("@ + "bun"@ + ")"@,
        a != b ==> a.label() != b.label(),
{
    reveal_strlit("Rust");
    reveal_strlit("Python");
    reveal_strlit("Go");
    reveal_strlit("Node (npm)");
    reveal_strlit("Node (yarn)");
    reveal_strlit("Node (pnpm)");
    reveal_strlit("Node (bun)");
    reveal_strlit("Node (");
    reveal_strlit("npm");
    reveal_strlit("yarn");
    reveal_strlit("pnpm");
    reveal_strlit("bun");
    reveal_strlit(")");
    assert(Stack::NodeNpm.label() =~= "Node ("@ + "npm"@ + ")"@);
    assert(Stack::NodeYarn.label() =~= "Node ("@ + "yarn"@ + ")"@);
    assert(Stack::NodePnpm.label() =~= "Node ("@ + "pnpm"@ + ")"@);
    assert(Stack::NodeBun.label() =~= "Node ("@ + "bun"@ + ")"@);
    if a != b {
        let (x, y) = (a.label(), b.label());
        if x.len() == y.len() {
            assert(x[6] != y[6] || x[0] != y[0] || x[1] != y[1]);
        }
    }
}

/// The names of a list of directory entries, as character sequences.
pub open spec fn names_of(files: Seq<String>) -> Seq<Seq<char>> {
    files.map_values(|f: String| f@)
}

/// The stack that the marker files among `names` point to, checked in a fixed
/// order: `Cargo.toml`, then `go.mod`, then `package.json` (whose lockfile
/// names the package manager: bun, then pnpm, then yarn, else npm), then
/// either Python marker.
pub open spec fn stack_for(names: Seq<Seq<char>>) -> Option<Stack> {
    if names.contains("Cargo.toml"@) {
        Some(Stack::Rust)
    } else if names.contains("go.mod"@) {
        Some(Stack::Go)
    } else if names.contains("package.json"@) {
        if names.contains("bun.lock"@) || names.contains("bun.lockb"@) {
            Some(Stack::NodeBun)
        } else if names.contains("pnpm-lock.yaml"@) {
            Some(Stack::NodePnpm)
        } else if names.contains("yarn.lock"@) {
            Some(Stack::NodeYarn)
        } else {
            Some(Stack::NodeNpm)
        }
    } else if names.contains("pyproject.toml"@) || names.contains("requirements.txt"@) {
        Some(Stack::Python)
    } else {
        None
    }
}

/// Whether some entry of `files` is named `name`.
fn has_name(files: &[String], name: &str) -> (r: bool)
    ensures
        r == names_of(files@).contains(name@),
{
    let target = name.to_owned();
    let mut i: usize = 0;
    while i < files.len()
        invariant
            target@ == name@,
            i <= files@.len(),
            forall|j: int| 0 <= j < i ==> files@[j]@ != name@,
        decreases files@.len() - i,
    {
        if files[i] == target {
            assert(names_of(files@)[i as int] == name@);
            return true;
        }
        i = i + 1;
    }
    proof {
        if names_of(files@).contains(name@) {
            let j = choose|j: int| 0 <= j < names_of(files@).len() && names_of(files@)[j] == name@;
            assert(files@[j]@ == name@);
        }
    }
    false
}

/// Detects a project's stack from the names of the files at its root.
pub fn detect_stack(files: &[String]) -> (r: Option<Stack>)
    ensures
        r == stack_for(names_of(files@)),
{
    if has_name(files, "Cargo.toml") {
        return Some(Stack::Rust);
    }
    if has_name(files, "go.mod") {
        return Some(Stack::Go);
    }
    if has_name(files, "package.json") {
        if has_name(files, "bun.lock") || has_name(files, "bun.lockb") {
            return Some(Stack::NodeBun);
        }
        if has_name(files, "pnpm-lock.yaml") {
            return Some(Stack::NodePnpm);
        }
        if has_name(files, "yarn.lock") {
            return Some(Stack::NodeYarn);
        }
        return Some(Stack::NodeNpm);
    }
    if has_name(files, "pyproject.toml") || has_name(files, "requirements.txt") {
        return Some(Stack::Python);
    }
    None
}

/// Detection looks only at which names are present: neither their order nor
/// how often one occurs changes the stack.
pub proof fn lemma_detection_ignores_order(a: Seq<Seq<char>>, b: Seq<Seq<char>>)
    requires
        forall|n: Seq<char>| a.contains(n) <==> b.contains(n),
    ensures
        stack_for(a) == stack_for(b),
{
    assert(a.contains("Cargo.toml"@) == b.contains("Cargo.toml"@));
    assert(a.contains("go.mod"@) == b.contains("go.mod"@));
    assert(a.contains("package.json"@) == b.contains("package.json"@));
    assert(a.contains("bun.lock"@) == b.contains("bun.lock"@));
    assert(a.contains("bun.lockb"@) == b.contains("bun.lockb"@));
    assert(a.contains("pnpm-lock.yaml"@) == b.contains("pnpm-lock.yaml"@));
    assert(a.contains("yarn.lock"@) == b.contains("yarn.lock"@));
    assert(a.contains("pyproject.toml"@) == b.contains("pyproject.toml"@));
    assert(a.contains("requirements.txt"@) == b.contains("requirements.txt"@));
}

/// `Cargo.toml` takes priority over every other marker file that may stand
/// beside it.
pub proof fn lemma_cargo_manifest_wins(names: Seq<Seq<char>>)
    requires
        names.contains("Cargo.toml"@),
    ensures
        stack_for(names) == Some(Stack::Rust),
{
}

/// A Node project (and nothing that takes priority over it) with none of the
/// bun, pnpm or yarn lockfiles is an npm project, lockfile or not.
pub proof fn lemma_node_without_lockfile_is_npm(names: Seq<Seq<char>>)
    requires
        names.contains("package.json"@),
        !names.contains("Cargo.toml"@),
        !names.contains("go.mod"@),
        !names.contains("bun.lock"@),
        !names.contains("bun.lockb"@),
        !names.contains("pnpm-lock.yaml"@),
        !names.contains("yarn.lock"@),
    ensures
        stack_for(names) == Some(Stack::NodeNpm),
{
}

/// No stack is detected exactly when none of the five marker files is present.
pub proof fn lemma_no_marker_no_stack(names: Seq<Seq<char>>)
    ensures
        stack_for(names) is None <==> (!names.contains("Cargo.toml"@) && !names.contains(
            "go.mod"@,
        ) && !names.contains("package.json"@) && !names.contains("pyproject.toml"@)
            && !names.contains("requirements.txt"@)),
{
}

proof fn lemma_names_of_contains(files: Seq<String>, n: Seq<char>)
    ensures
        names_of(files).contains(n) <==> exists|i: int| 0 <= i < files.len() && #[trigger] files[i]@ == n,
{
    if names_of(files).contains(n) {
        let j = choose|j: int| 0 <= j < names_of(files).len() && names_of(files)[j] == n;
        assert(files[j]@ == n);
    }
    if exists|i: int| 0 <= i < files.len() && #[trigger] files[i]@ == n {
        let i = choose|i: int| 0 <= i < files.len() && #[trigger] files[i]@ == n;
        assert(names_of(files)[i] == n);
    }
}

/// Detection reads every entry of the listing, wherever it stands: the stack
/// is decided by which marker names occur anywhere in `files`, in the fixed
/// order `Cargo.toml`, `go.mod`, `package.json` (then `bun.lock` or
/// `bun.lockb`, `pnpm-lock.yaml`, `yarn.lock`, else npm), `pyproject.toml` or
/// `requirements.txt`.
pub proof fn lemma_detection_reads_every_entry(files: Seq<String>)
    ensures
        ({
            let has = |n: Seq<char>| exists|i: int| 0 <= i < files.len() && #[trigger] files[i]@ == n;
            stack_for(names_of(files)) == if has("Cargo.toml"@) {
                Some(Stack::Rust)
            } else if has("go.mod"@) {
                Some(Stack::Go)
            } else if has("package.json"@) {
                if has("bun.lock"@) || has("bun.lockb"@) {
                    Some(Stack::NodeBun)
                } else if has("pnpm-lock.yaml"@) {
                    Some(Stack::NodePnpm)
                } else if has("yarn.lock"@) {
                    Some(Stack::NodeYarn)
                } else {
                    Some(Stack::NodeNpm)
                }
            } else if has("pyproject.toml"@) || has("requirements.txt"@) {
                Some(Stack::Python)
            } else {
                None
            }
        }),
{
    lemma_names_of_contains(files, "Cargo.toml"@);
    lemma_names_of_contains(files, "go.mod"@);
    lemma_names_of_contains(files, "package.json"@);
    lemma_names_of_contains(files, "bun.lock"@);
    lemma_names_of_contains(files, "bun.lockb"@);
    lemma_names_of_contains(files, "pnpm-lock.yaml"@);
    lemma_names_of_contains(files, "yarn.lock"@);
    lemma_names_of_contains(files, "pyproject.toml"@);
    lemma_names_of_contains(files, "requirements.txt"@);
}

/// Two listings with the same entry names, in any order and with any
/// repetitions, give the same stack.
pub proof fn lemma_listing_order_does_not_matter(a: Seq<String>, b: Seq<String>)
    requires
        forall|i: int|
            0 <= i < a.len() ==> exists|j: int| 0 <= j < b.len() && #[trigger] b[j]@ == #[trigger] a[i]@,
        forall|j: int|
            0 <= j < b.len() ==> exists|i: int| 0 <= i < a.len() && #[trigger] a[i]@ == #[trigger] b[j]@,
    ensures
        stack_for(names_of(a)) == stack_for(names_of(b)),
{
    lemma_detection_reads_every_entry(a);
    lemma_detection_reads_every_entry(b);
}

/// An entry named `Cargo.toml` anywhere in the listing makes it a Rust project.
pub proof fn lemma_cargo_entry_anywhere_is_rust(files: Seq<String>, i: int)
    requires
        0 <= i < files.len(),
        files[i]@ == "Cargo.toml"@,
    ensures
        stack_for(names_of(files)) == Some(Stack::Rust),
{
    lemma_detection_reads_every_entry(files);
}

/// The index of the first `'\n'` at or after `from`, or the length of `s`.
pub open spec fn line_end(s: Seq<char>, from: int) -> int
    decreases s.len() - from,
{
    if from >= s.len() {
        s.len() as int
    } else if s[from] == '\n' {
        from
    } else {
        line_end(s, from + 1)
    }
}

pub proof fn lemma_line_end_bounds(s: Seq<char>, from: int)
    requires
        0 <= from <= s.len(),
    ensures
        from <= line_end(s, from) <= s.len(),
        line_end(s, from) < s.len() ==> s[line_end(s, from)] == '\n',
        forall|k: int| from <= k < line_end(s, from) ==> s[k] != '\n',
    decreases s.len() - from,
{
    if from < s.len() && s[from] != '\n' {
        lemma_line_end_bounds(s, from + 1);
    }
}

/// Whether a trimmed line opens a TOML table (`[...]`).
pub open spec fn is_header(t: Seq<char>) -> bool {
    t.len() > 0 && t[0] == '['
}

/// `v` with its double quotes, then its single quotes, removed at both ends.
pub open spec fn unquote(v: Seq<char>) -> Seq<char> {
    trim(trim(v, Strip::Only('"')), Strip::Only('\''))
}

/// The value of a trimmed `name = value` line, when it is not empty once
/// unquoted.
pub open spec fn name_value(t: Seq<char>) -> Option<Seq<char>> {
    if t.len() >= 4 && t.take(4) == "name"@ {
        let rest = trim_start(t.skip(4), Strip::Space);
        if rest.len() > 0 && rest[0] == '=' {
            let v = unquote(trim(rest.skip(1), Strip::Space));
            if v.len() > 0 {
                Some(v)
            } else {
                None
            }
        } else {
            None
        }
    } else {
        None
    }
}

/// The package name found by reading `s` line by line from index `from`, where
/// `in_package` tells whether the lines before lie in the `[package]` table.
/// A header line enters or leaves that table; inside it, the first `name`
/// line with a value gives the result.
pub open spec fn package_name_from(s: Seq<char>, from: int, in_package: bool) -> Option<Seq<char>>
    decreases s.len() + 1 - from,
{
    if from < 0 || from > s.len() {
        None
    } else {
        let end = line_end(s, from);
        let t = trim(s.subrange(from, end), Strip::Space);
        if is_header(t) {
            if end >= s.len() {
                None
            } else {
                proof {
                    lemma_line_end_bounds(s, from);
                }
                package_name_from(s, end + 1, t == "[package]"@)
            }
        } else if in_package && name_value(t) is Some {
            name_value(t)
        } else if end >= s.len() {
            None
        } else {
            proof {
                lemma_line_end_bounds(s, from);
            }
            package_name_from(s, end + 1, in_package)
        }
    }
}

/// The `name` of the `[package]` table of a `Cargo.toml` text. The lines of
/// the text are its pieces between `'\n'`s: `str::lines` also drops one
/// `'\r'` before each `'\n'` and a last empty piece, which the trim of each
/// line makes no matter.
pub open spec fn cargo_package_name(s: Seq<char>) -> Option<Seq<char>> {
    package_name_from(s, 0, false)
}

/// The index of the first `'\n'` in `chars` at or after `from`, or its length.
fn find_line_end(chars: &Vec<char>, from: usize) -> (r: usize)
    requires
        from <= chars@.len(),
    ensures
        r == line_end(chars@, from as int),
        from <= r <= chars@.len(),
{
    let mut i = from;
    while i < chars.len() && chars[i] != '\n'
        invariant
            from <= i <= chars@.len(),
            line_end(chars@, from as int) == line_end(chars@, i as int),
        decreases chars@.len() - i,
    {
        i = i + 1;
    }
    i
}

/// Whether `chars[lo..hi]` spells `word`.
fn spells(chars: &Vec<char>, lo: usize, hi: usize, word: &str) -> (r: bool)
    requires
        lo <= hi <= chars@.len(),
    ensures
        r == (chars@.subrange(lo as int, hi as int) == word@),
{
    let n = word.unicode_len();
    if hi - lo != n {
        return false;
    }
    let mut i: usize = 0;
    while i < n
        invariant
            lo <= hi <= chars@.len(),
            hi - lo == n == word@.len(),
            i <= n,
            forall|j: int| 0 <= j < i ==> chars@[lo + j] == word@[j],
        decreases n - i,
    {
        if chars[lo + i] != word.get_char(i) {
            assert(chars@.subrange(lo as int, hi as int)[i as int] != word@[i as int]);
            return false;
        }
        i = i + 1;
    }
    assert(chars@.subrange(lo as int, hi as int) =~= word@);
    true
}

/// The range of the value in the trimmed line `chars[lo..hi]`, when that line
/// is a `name = value` line with a value.
fn name_value_range(chars: &Vec<char>, lo: usize, hi: usize) -> (r: Option<(usize, usize)>)
    requires
        lo <= hi <= chars@.len(),
    ensures
        match r {
            Some((a, b)) => lo <= a <= b <= hi && name_value(chars@.subrange(lo as int, hi as int))
                == Some(chars@.subrange(a as int, b as int)),
            None => name_value(chars@.subrange(lo as int, hi as int)) is None,
        },
{
    let ghost t = chars@.subrange(lo as int, hi as int);
    if hi - lo < 4 || !spells(chars, lo, lo + 4, "name") {
        proof {
            if t.len() >= 4 {
                assert(t.take(4) =~= chars@.subrange(lo as int, lo + 4));
            }
        }
        return None;
    }
    assert(t.take(4) =~= chars@.subrange(lo as int, lo + 4));
    assert(t.skip(4) =~= chars@.subrange(lo + 4, hi as int));
    let eq = skip_leading(chars, lo + 4, hi, Strip::Space);
    let ghost rest = trim_start(t.skip(4), Strip::Space);
    assert(rest == chars@.subrange(eq as int, hi as int));
    if eq == hi || chars[eq] != '=' {
        return None;
    }
    assert(rest.skip(1) =~= chars@.subrange(eq + 1, hi as int));
    let (v0, v1) = trim_range(chars, eq + 1, hi, Strip::Space);
    let (d0, d1) = trim_range(chars, v0, v1, Strip::Only('"'));
    let (q0, q1) = trim_range(chars, d0, d1, Strip::Only('\''));
    if q0 == q1 {
        return None;
    }
    Some((q0, q1))
}

/// Pulls `name = "..."` out of a `Cargo.toml`'s `[package]` table: the first
/// `name` line with a value that stands between a `[package]` header and the
/// next header. A `name` line under any other table is never taken.
pub fn parse_cargo_package_name(cargo_toml: &str) -> (r: Option<String>)
    ensures
        match r {
            Some(v) => cargo_package_name(cargo_toml@) == Some(v@),
            None => cargo_package_name(cargo_toml@) is None,
        },
{
    let chars = chars_of(cargo_toml);
    let ghost s = chars@;
    let n = chars.len();
    let mut pos: usize = 0;
    let mut in_package = false;
    loop
        invariant
            s == chars@,
            s == cargo_toml@,
            n == chars@.len(),
            pos <= n,
            cargo_package_name(s) == package_name_from(s, pos as int, in_package),
        decreases n - pos,
    {
        let end = find_line_end(&chars, pos);
        let (lo, hi) = trim_range(&chars, pos, end, Strip::Space);
        let ghost t = trim(s.subrange(pos as int, end as int), Strip::Space);
        assert(t == s.subrange(lo as int, hi as int));
        if lo < hi && chars[lo] == '[' {
            in_package = spells(&chars, lo, hi, "[package]");
        } else if in_package {
            match name_value_range(&chars, lo, hi) {
                Some((a, b)) => {
                    let value = cargo_toml.substring_char(a, b).to_owned();
                    return Some(value);
                },
                None => {},
            }
        }
        if end == n {
            return None;
        }
        pos = end + 1;
    }
}

/// Whether a line of `s` starts at index `p`.
pub open spec fn is_line_start(s: Seq<char>, p: int) -> bool {
    p == 0 || (0 < p <= s.len() && s[p - 1] == '\n')
}

/// The line of `s` that starts at `p`, trimmed.
pub open spec fn trimmed_line(s: Seq<char>, p: int) -> Seq<char> {
    trim(s.subrange(p, line_end(s, p)), Strip::Space)
}

/// Whether the line of `s` at `p` lies in the `[package]` table: some earlier
/// line is the `[package]` header, and no header line stands between the two.
pub open spec fn in_package_table(s: Seq<char>, p: int) -> bool {
    exists|h: int|
        #![trigger trimmed_line(s, h)]
        0 <= h < p && is_line_start(s, h) && trimmed_line(s, h) == "[package]"@ && forall|q: int|
            #![trigger trimmed_line(s, q)]
            h < q < p && is_line_start(s, q) ==> !is_header(trimmed_line(s, q))
}

/// How reading one line moves the `[package]` state from the line at `from`
/// to the next line.
proof fn lemma_table_step(s: Seq<char>, from: int)
    requires
        0 <= from <= s.len(),
        is_line_start(s, from),
        line_end(s, from) < s.len(),
    ensures
        in_package_table(s, line_end(s, from) + 1) == if is_header(trimmed_line(s, from)) {
            trimmed_line(s, from) == "[package]"@
        } else {
            in_package_table(s, from)
        },
{
    reveal_strlit("[package]");
    lemma_line_end_bounds(s, from);
    let e = line_end(s, from) + 1;
    let t = trimmed_line(s, from);
    assert forall|q: int| from < q < e implies !is_line_start(s, q) by {
        assert(s[q - 1] != '\n');
    }
    if is_header(t) {
        if t == "[package]"@ {
            assert(in_package_table(s, e));
        } else if in_package_table(s, e) {
            let h = choose|h: int|
                #![trigger trimmed_line(s, h)]
                0 <= h < e && is_line_start(s, h) && trimmed_line(s, h) == "[package]"@ && forall|
                    q: int,
                |
                    #![trigger trimmed_line(s, q)]
                    h < q < e && is_line_start(s, q) ==> !is_header(trimmed_line(s, q));
            if h < from {
                assert(!is_header(trimmed_line(s, from)));
            }
        }
    } else {
        if in_package_table(s, from) {
            let h = choose|h: int|
                #![trigger trimmed_line(s, h)]
                0 <= h < from && is_line_start(s, h) && trimmed_line(s, h) == "[package]"@
                    && forall|q: int|
                    #![trigger trimmed_line(s, q)]
                    h < q < from && is_line_start(s, q) ==> !is_header(trimmed_line(s, q));
            assert forall|q: int| h < q < e && is_line_start(s, q) implies !is_header(
                trimmed_line(s, q),
            ) by {
                if q < from {
                } else if q == from {
                } else {
                }
            }
            assert(in_package_table(s, e));
        }
        if in_package_table(s, e) {
            let h = choose|h: int|
                #![trigger trimmed_line(s, h)]
                0 <= h < e && is_line_start(s, h) && trimmed_line(s, h) == "[package]"@ && forall|
                    q: int,
                |
                    #![trigger trimmed_line(s, q)]
                    h < q < e && is_line_start(s, q) ==> !is_header(trimmed_line(s, q));
            assert(is_header(trimmed_line(s, h)));
            assert(h < from);
            assert(in_package_table(s, from));
        }
    }
}

proof fn lemma_scan_finds_package_names(s: Seq<char>, from: int, in_package: bool)
    requires
        0 <= from <= s.len(),
        is_line_start(s, from),
        in_package == in_package_table(s, from),
    ensures
        package_name_from(s, from, in_package) matches Some(v) ==> exists|p: int|
            #![trigger trimmed_line(s, p)]
            from <= p <= s.len() && is_line_start(s, p) && in_package_table(s, p) && name_value(
                trimmed_line(s, p),
            ) == Some(v),
    decreases s.len() + 1 - from,
{
    lemma_line_end_bounds(s, from);
    let end = line_end(s, from);
    let t = trimmed_line(s, from);
    if end < s.len() {
        lemma_table_step(s, from);
        if is_header(t) {
            lemma_scan_finds_package_names(s, end + 1, t == "[package]"@);
        } else if !(in_package && name_value(t) is Some) {
            lemma_scan_finds_package_names(s, end + 1, in_package);
        }
    }
}

/// The name that comes back always stands on a `name` line of the `[package]`
/// table: a `name` under any other table (`[dependencies]`, say) is never
/// taken.
pub proof fn lemma_name_is_from_package_table(s: Seq<char>)
    ensures
        cargo_package_name(s) matches Some(v) ==> exists|p: int|
            #![trigger trimmed_line(s, p)]
            0 <= p <= s.len() && is_line_start(s, p) && in_package_table(s, p) && name_value(
                trimmed_line(s, p),
            ) == Some(v),
{
    lemma_scan_finds_package_names(s, 0, false);
}

/// A text with no `[package]` header line has no package name.
pub proof fn lemma_no_package_table_no_name(s: Seq<char>)
    requires
        forall|p: int|
            #![trigger trimmed_line(s, p)]
            0 <= p <= s.len() && is_line_start(s, p) ==> trimmed_line(s, p) != "[package]"@,
    ensures
        cargo_package_name(s) is None,
{
    lemma_name_is_from_package_table(s);
    if cargo_package_name(s) is Some {
        let p = choose|p: int|
            #![trigger trimmed_line(s, p)]
            0 <= p <= s.len() && is_line_start(s, p) && in_package_table(s, p) && name_value(
                trimmed_line(s, p),
            ) == Some(cargo_package_name(s)->0);
        let h = choose|h: int|
            #![trigger trimmed_line(s, h)]
            0 <= h < p && is_line_start(s, h) && trimmed_line(s, h) == "[package]"@ && forall|
                q: int,
            |
                #![trigger trimmed_line(s, q)]
                h < q < p && is_line_start(s, q) ==> !is_header(trimmed_line(s, q));
        assert(trimmed_line(s, h) != "[package]"@);
    }
}

proof fn lemma_scan_reaches_first_name(s: Seq<char>, from: int, in_package: bool, p: int)
    requires
        0 <= from <= p <= s.len(),
        is_line_start(s, from),
        is_line_start(s, p),
        in_package == in_package_table(s, from),
        in_package_table(s, p),
        name_value(trimmed_line(s, p)) is Some,
        forall|q: int|
            #![trigger trimmed_line(s, q)]
            from <= q < p && is_line_start(s, q) && in_package_table(s, q) ==> name_value(
                trimmed_line(s, q),
            ) is None,
    ensures
        package_name_from(s, from, in_package) == name_value(trimmed_line(s, p)),
    decreases p - from,
{
    reveal_strlit("name");
    lemma_line_end_bounds(s, from);
    let end = line_end(s, from);
    let t = trimmed_line(s, from);
    if from == p {
        assert(t.take(4)[0] == 'n');
    } else {
        assert(s[p - 1] == '\n');
        assert(end <= p - 1);
        lemma_table_step(s, from);
        if is_header(t) {
            lemma_scan_reaches_first_name(s, end + 1, t == "[package]"@, p);
        } else {
            lemma_scan_reaches_first_name(s, end + 1, in_package, p);
        }
    }
}

/// The name on the first `name` line of the `[package]` table that has a
/// value is the one that comes back.
pub proof fn lemma_first_package_name_is_found(s: Seq<char>, p: int)
    requires
        0 <= p <= s.len(),
        is_line_start(s, p),
        in_package_table(s, p),
        name_value(trimmed_line(s, p)) is Some,
        forall|q: int|
            #![trigger trimmed_line(s, q)]
            0 <= q < p && is_line_start(s, q) && in_package_table(s, q) ==> name_value(
                trimmed_line(s, q),
            ) is None,
    ensures
        cargo_package_name(s) == name_value(trimmed_line(s, p)),
{
    lemma_scan_reaches_first_name(s, 0, false, p);
}

proof fn lemma_line_end_at(s: Seq<char>, from: int, e: int)
    requires
        0 <= from <= e < s.len(),
        s[e] == '\n',
        forall|k: int| from <= k < e ==> s[k] != '\n',
    ensures
        line_end(s, from) == e,
    decreases e - from,
{
    if from < e {
        lemma_line_end_at(s, from + 1, e);
    }
}

/// What the name line of a `[package]` table says is what comes back, whole:
/// for a text that opens with `[package]` and then `name = "v"`, the package
/// name is exactly `v`, for every `v` (of any length and any characters) that
/// stands on one line and has no whitespace or quote at its ends, whatever
/// follows.
pub proof fn lemma_package_name_round_trip(v: Seq<char>, rest: Seq<char>)
    requires
        v.len() > 0,
        forall|i: int| 0 <= i < v.len() ==> v[i] != '\n',
        !is_space(v[0]),
        !is_space(v.last()),
        v[0] != '"',
        v.last() != '"',
        v[0] != '\'',
        v.last() != '\'',
    ensures
        cargo_package_name("[package]\nname = \""@ + v + "\"\n"@ + rest) == Some(v),
{
    reveal_strlit("[package]\nname = \"");
    reveal_strlit("\"\n");
    reveal_strlit("[package]");
    reveal_strlit("name");
    reveal_strlit("name =");
    let s = "[package]\nname = \""@ + v + "\"\n"@ + rest;
    let n = v.len() as int;
    // The header line.
    lemma_line_end_at(s, 0, 9);
    let header = s.subrange(0, 9);
    assert(header =~= "[package]"@);
    lemma_trim_keeps(header, Strip::Space);
    assert(is_header(trim(header, Strip::Space)));
    // The name line.
    assert forall|k: int| 10 <= k < 19 + n implies s[k] != '\n' by {
        if 18 <= k < 18 + n {
            assert(s[k] == v[k - 18]);
        }
    }
    lemma_line_end_at(s, 10, 19 + n);
    let line = s.subrange(10, 19 + n);
    let quoted = seq!['"'] + v + seq!['"'];
    assert(line =~= "name ="@ + seq![' '] + quoted);
    assert(line[0] == 'n');
    assert(line.last() == '"');
    lemma_trim_keeps(line, Strip::Space);
    let t = trim(line, Strip::Space);
    assert(!is_header(t));
    assert(t.take(4) =~= "name"@);
    assert(t.skip(4) =~= seq![' '] + (seq!['='] + seq![' '] + quoted));
    lemma_trim_start_one(' ', seq!['='] + seq![' '] + quoted, Strip::Space);
    let after = trim_start(t.skip(4), Strip::Space);
    assert(after[0] == '=');
    assert(after.skip(1) =~= seq![' '] + quoted);
    lemma_trim_start_one(' ', quoted, Strip::Space);
    assert(quoted.last() == '"');
    assert(trim_start(seq![' '] + quoted, Strip::Space) == quoted);
    lemma_trim_keeps(quoted, Strip::Space);
    assert(trim_start(quoted, Strip::Space) == quoted) by {
        assert(leading(quoted, Strip::Space) == 0);
        assert(quoted.skip(0) =~= quoted);
    }
    assert(trim(seq![' '] + quoted, Strip::Space) == quoted);
    lemma_trim_one_each_side('"', v, '"', Strip::Only('"'));
    lemma_trim_keeps(v, Strip::Only('\''));
    assert(name_value(t) == Some(v));
    assert(package_name_from(s, 0, false) == package_name_from(s, 10, true));
}

/// The name line of a `[package]` table gives back its whole value, however
/// the line is spaced and whichever quotes it uses: for a text that opens
/// with `[package]` and then the line `<w0>name<w1>=<w2><q>v<q><w3>` (each `w`
/// a run of whitespace, `q` a double quote, a single quote or nothing), the
/// package name is
/// exactly `v`, for every `v` (of any length and any characters) that stands
/// on one line and has no whitespace or quote at its ends, whatever follows.
pub proof fn lemma_package_name_line_round_trip(
    w0: Seq<char>,
    w1: Seq<char>,
    w2: Seq<char>,
    w3: Seq<char>,
    q: Seq<char>,
    v: Seq<char>,
    rest: Seq<char>,
)
    requires
        forall|i: int| 0 <= i < w0.len() ==> is_space(#[trigger] w0[i]) && w0[i] != '\n',
        forall|i: int| 0 <= i < w1.len() ==> is_space(#[trigger] w1[i]) && w1[i] != '\n',
        forall|i: int| 0 <= i < w2.len() ==> is_space(#[trigger] w2[i]) && w2[i] != '\n',
        forall|i: int| 0 <= i < w3.len() ==> is_space(#[trigger] w3[i]) && w3[i] != '\n',
        q == seq!['"'] || q == seq!['\''] || q.len() == 0,
        v.len() > 0,
        forall|i: int| 0 <= i < v.len() ==> #[trigger] v[i] != '\n',
        !is_space(v[0]),
        !is_space(v.last()),
        v[0] != '"',
        v.last() != '"',
        v[0] != '\'',
        v.last() != '\'',
    ensures
        cargo_package_name(
            "[package]\n"@ + w0 + "name"@ + w1 + "="@ + w2 + q + v + q + w3 + "\n"@
                + rest,
        ) == Some(v),
{
    reveal_strlit("[package]\n");
    reveal_strlit("[package]");
    reveal_strlit("name");
    reveal_strlit("=");
    reveal_strlit("\n");
    let quoted = q + v + q;
    let m = "name"@ + w1 + "="@ + w2 + quoted;
    let line = w0 + m + w3;
    let s = "[package]\n"@ + w0 + "name"@ + w1 + "="@ + w2 + q + v + q + w3 + "\n"@
        + rest;
    let n = line.len() as int;
    assert(s =~= "[package]\n"@ + line + "\n"@ + rest);
    // The header line.
    lemma_line_end_at(s, 0, 9);
    let header = s.subrange(0, 9);
    assert(header =~= "[package]"@);
    lemma_trim_keeps(header, Strip::Space);
    assert(is_header(trim(header, Strip::Space)));
    // The name line.
    assert forall|j: int| 0 <= j < n implies line[j] != '\n' by {
        if j >= w0.len() && j < w0.len() + m.len() {
            let jm = j - w0.len();
            let at = 4 + w1.len() + 1 + w2.len() + q.len();
            if jm >= at && jm < at + v.len() {
                assert(m[jm] == v[jm - at]);
            }
        }
    }
    assert forall|k: int| 10 <= k < 10 + n implies s[k] != '\n' by {
        assert(s[k] == line[k - 10]);
    }
    lemma_line_end_at(s, 10, 10 + n);
    assert(s.subrange(10, 10 + n) =~= line);
    assert(m[0] == 'n');
    assert(m.last() == quoted.last());
    lemma_trim_runs(w0, m, w3, Strip::Space);
    let t = trim(line, Strip::Space);
    assert(t == m);
    assert(!is_header(t));
    assert(t.take(4) =~= "name"@);
    let after_eq = "="@ + w2 + quoted;
    assert(t.skip(4) =~= w1 + after_eq);
    lemma_leading_run(w1, after_eq, Strip::Space);
    let after = trim_start(t.skip(4), Strip::Space);
    assert(after == after_eq);
    assert(after[0] == '=');
    assert(after.skip(1) =~= w2 + quoted + Seq::<char>::empty());
    assert(q.len() > 0 ==> quoted[0] == q[0] && quoted.last() == q[0]);
    assert(q.len() == 0 ==> quoted =~= v);
    lemma_trim_runs(w2, quoted, Seq::<char>::empty(), Strip::Space);
    if q == seq!['"'] {
        assert(quoted =~= seq!['"'] + v + seq!['"']);
        lemma_trim_one_each_side('"', v, '"', Strip::Only('"'));
        lemma_trim_keeps(v, Strip::Only('\''));
    } else if q == seq!['\''] {
        assert(quoted =~= seq!['\''] + v + seq!['\'']);
        lemma_trim_keeps(quoted, Strip::Only('"'));
        lemma_trim_one_each_side('\'', v, '\'', Strip::Only('\''));
    } else {
        lemma_trim_keeps(v, Strip::Only('"'));
        lemma_trim_keeps(v, Strip::Only('\''));
    }
    assert(name_value(t) == Some(v));
    assert(package_name_from(s, 0, false) == package_name_from(s, 10, true));
}

} // verus!
