//! cargo-temp: create temporary Rust projects with the dependencies given on
//! the command line, and decide how they are written, kept or removed.
//!
//! The crate root holds the first command-line interface of the tool (with
//! its own, smaller dependency syntax); the modules hold the current one.
pub mod benchmarking;
pub mod cli;
pub mod config;
pub mod dependency;
pub mod laws;
pub mod matching;
pub mod paths;
pub mod project;
pub mod subprocess;
pub mod text;

use crate::paths::{unix_file_stem, unix_stem_of};
use crate::text::{append, join, owned, same_text, split_by, split_on};
use crate::config::Config;
use crate::matching::{captures, regex_captures};
use crate::project::{
    accepts, next, step, Action, Environment, Request, RequestValue, Stage,
};
use vstd::prelude::*;

verus! {

// ---------------------------------------------------------------------------
// The first dependency syntax: `NAME`, `NAME=VERSION`, `NAME=URL`, `URL`,
// `URL#branch=B`, `URL#rev=R`, each followed by `+FEATURE`s.
// ---------------------------------------------------------------------------

/// A dependency of the first command-line interface.
#[derive(Debug, PartialEq, Eq)]
pub enum Dependency {
    CratesIo { name: String, version: Option<String>, features: Vec<String> },
    Repository {
        branch: Option<String>,
        name: String,
        rev: Option<String>,
        url: String,
        features: Vec<String>,
    },
}

/// The mathematical value of a [`Dependency`].
pub enum DependencyValue {
    CratesIo { name: Seq<char>, version: Option<Seq<char>>, features: Seq<Seq<char>> },
    Repository {
        branch: Option<Seq<char>>,
        name: Seq<char>,
        rev: Option<Seq<char>>,
        url: Seq<char>,
        features: Seq<Seq<char>>,
    },
}

impl View for Dependency {
    type V = DependencyValue;

    open spec fn view(&self) -> DependencyValue {
        match self {
            Dependency::CratesIo { name, version, features } => DependencyValue::CratesIo {
                name: name@,
                version: version.deep_view(),
                features: features.deep_view(),
            },
            Dependency::Repository { branch, name, rev, url, features } =>
                DependencyValue::Repository {
                branch: branch.deep_view(),
                name: name@,
                rev: rev.deep_view(),
                url: url@,
                features: features.deep_view(),
            },
        }
    }
}

/// The groups `name`, `version`, `url`, `branch`, `rev` and `features` of
/// the first dependency pattern that took part in a match.
pub struct DependencyGroups {
    pub name: Option<String>,
    pub version: Option<String>,
    pub url: Option<String>,
    pub branch: Option<String>,
    pub rev: Option<String>,
    pub features: Option<String>,
}

/// The groups of [`DependencyGroups`], in the order of its fields.
pub type GroupValues = (
    Option<Seq<char>>,
    Option<Seq<char>>,
    Option<Seq<char>>,
    Option<Seq<char>>,
    Option<Seq<char>>,
    Option<Seq<char>>,
);

impl View for DependencyGroups {
    type V = GroupValues;

    open spec fn view(&self) -> GroupValues {
        (
            self.name.deep_view(),
            self.version.deep_view(),
            self.url.deep_view(),
            self.branch.deep_view(),
            self.rev.deep_view(),
            self.features.deep_view(),
        )
    }
}

/// The first dependency syntax: an optional `NAME=`, then a version, a URL
/// with an optional `#branch=B` or `#rev=R`, and `+FEATURE`s.
pub const FIRST_PATTERN: &'static str = r"^((?P<name>[^+=]+)=)?(?P<version>((?P<url>\w+://([^:@]+(:[^@]+)?@)?[^#+]+)(#branch=(?P<branch>[^+]+)|#rev=(?P<rev>[^+]+))?)|[^+]+)?(?P<features>(\+[^+]+)*)";

/// The names of the groups of [`FIRST_PATTERN`], in the order of the fields of [`DependencyGroups`].
pub open spec fn first_group_names() -> Seq<Seq<char>> {
    seq!["name"@, "version"@, "url"@, "branch"@, "rev"@, "features"@]
}

/// What [`FIRST_PATTERN`] captures in `s`, or `None` where it does not match.
pub open spec fn first_pattern_match(s: Seq<char>) -> Option<GroupValues> {
    match regex_captures(FIRST_PATTERN@, s, first_group_names()) {
        Some(g) => Some((g[0], g[1], g[2], g[3], g[4], g[5])),
        None => None,
    }
}

fn group_at(groups: &Vec<Option<String>>, i: usize) -> (r: Option<String>)
    requires
        i < groups@.len(),
    ensures
        r.deep_view() == groups.deep_view()[i as int],
{
    match &groups[i] {
        Some(t) => Some(t.clone()),
        None => None,
    }
}

/// Matches `s` against [`FIRST_PATTERN`].
pub fn capture_first_pattern(s: &str) -> (r: Option<DependencyGroups>)
    ensures
        match r {
            Some(g) => first_pattern_match(s@) == Some(g@),
            None => first_pattern_match(s@) is None,
        },
{
    let names = vec!["name", "version", "url", "branch", "rev", "features"];
    assert(names.deep_view() =~= first_group_names());
    match captures(FIRST_PATTERN, s, &names) {
        None => None,
        Some(g) => Some(
            DependencyGroups {
                name: group_at(&g, 0),
                version: group_at(&g, 1),
                url: group_at(&g, 2),
                branch: group_at(&g, 3),
                rev: group_at(&g, 4),
                features: group_at(&g, 5),
            },
        ),
    }
}

/// The kind of git reference named after the `#` of a `URL#KIND=REF` source.
pub open spec fn reference_kind(source: Seq<char>) -> Option<Seq<char>> {
    let pieces = split_on(source, '#');
    if pieces.len() > 1 {
        Some(pieces[1])
    } else {
        None
    }
}

/// `s` read as `NAME+FEATURE...`, without a version.
pub open spec fn plain_crate(s: Seq<char>) -> DependencyValue {
    DependencyValue::CratesIo {
        name: split_on(s, '+')[0],
        version: None,
        features: split_on(s, '+').skip(1),
    }
}

/// The groups can be read: the features were captured, and every URL
/// whose package name is inferred has a file name.
pub open spec fn groups_readable(g: GroupValues) -> bool {
    let (name, version, url, branch, rev, features) = g;
    &&& features is Some
    &&& match name {
        Some(n) => url is Some || unix_file_stem(split_on(n, '#')[0]) is Some,
        None => match url {
            Some(u) => unix_file_stem(u) is Some,
            None => true,
        },
    }
}

/// The dependency that `s` and the groups captured in it describe.
pub open spec fn dependency_from_groups(s: Seq<char>, g: GroupValues) -> DependencyValue {
    let (name, version, url, branch, rev, features) = g;
    let features = split_on(features.unwrap(), '+').skip(1);
    match name {
        Some(n) => match url {
            Some(u) => DependencyValue::Repository { name: n, url: u, branch, rev, features },
            None => {
                let source = split_on(n, '#')[0];
                let stem = unix_file_stem(source).unwrap();
                match reference_kind(n) {
                    Some(k) => if k == "branch"@ {
                        DependencyValue::Repository {
                            name: stem,
                            url: source,
                            branch: version,
                            rev: None,
                            features,
                        }
                    } else if k == "rev"@ {
                        DependencyValue::Repository {
                            name: stem,
                            url: source,
                            branch: None,
                            rev: version,
                            features,
                        }
                    } else {
                        DependencyValue::CratesIo { name: stem, version, features }
                    },
                    None => DependencyValue::CratesIo { name: stem, version, features },
                }
            },
        },
        None => match url {
            Some(u) => DependencyValue::Repository {
                name: unix_file_stem(u).unwrap(),
                url: u,
                branch,
                rev,
                features,
            },
            None => plain_crate(s),
        },
    }
}

/// `s` can be read: wherever the pattern matches, its groups can be read.
pub open spec fn dependency_readable(s: Seq<char>) -> bool {
    match first_pattern_match(s) {
        Some(g) => groups_readable(g),
        None => true,
    }
}

/// The dependency that `s` describes.
pub open spec fn dependency_from_text(s: Seq<char>) -> DependencyValue {
    match first_pattern_match(s) {
        Some(g) => dependency_from_groups(s, g),
        None => plain_crate(s),
    }
}

fn clone_option(o: &Option<String>) -> (r: Option<String>)
    ensures
        r.deep_view() == o.deep_view(),
{
    match o {
        Some(t) => Some(t.clone()),
        None => None,
    }
}

fn after_first(pieces: &Vec<String>) -> (r: Vec<String>)
    requires
        pieces@.len() >= 1,
    ensures
        r.deep_view() == pieces.deep_view().skip(1),
{
    let ghost all = pieces.deep_view();
    let mut out: Vec<String> = Vec::new();
    let mut i: usize = 1;
    while i < pieces.len()
        invariant
            all == pieces.deep_view(),
            1 <= i <= pieces@.len(),
            out.deep_view() =~= all.subrange(1, i as int),
        decreases pieces@.len() - i,
    {
        let ghost before = out.deep_view();
        out.push(pieces[i].clone());
        assert(out.deep_view() =~= before.push(all[i as int]));
        assert(all.subrange(1, i + 1) =~= all.subrange(1, i as int).push(all[i as int]));
        i = i + 1;
    }
    out
}

proof fn lemma_split_nonempty(s: Seq<char>, sep: char)
    ensures
        split_on(s, sep).len() >= 1,
{
}

fn plain_crate_of(s: &str) -> (r: Dependency)
    ensures
        r@ == plain_crate(s@),
{
    let pieces = split_by(s, '+');
    proof {
        lemma_split_nonempty(s@, '+');
    }
    let features = after_first(&pieces);
    Dependency::CratesIo { name: pieces[0].clone(), version: None, features }
}

/// Whether the groups can be read.
pub fn readable_groups(g: &DependencyGroups) -> (r: bool)
    ensures
        r == groups_readable(g@),
{
    if g.features.is_none() {
        return false;
    }
    match &g.name {
        Some(n) => {
            if g.url.is_some() {
                return true;
            }
            let pieces = split_by(n.as_str(), '#');
            proof {
                lemma_split_nonempty(n@, '#');
            }
            unix_stem_of(pieces[0].as_str()).is_some()
        },
        None => match &g.url {
            Some(u) => unix_stem_of(u.as_str()).is_some(),
            None => true,
        },
    }
}

/// The dependency that `s` and the groups captured in it describe.
pub fn dependency_from_captures(s: &str, g: &DependencyGroups) -> (r: Dependency)
    requires
        groups_readable(g@),
    ensures
        r@ == dependency_from_groups(s@, g@),
{
    let features = match &g.features {
        Some(f) => {
            let pieces = split_by(f.as_str(), '+');
            proof {
                lemma_split_nonempty(f@, '+');
            }
            after_first(&pieces)
        },
        None => Vec::new(),
    };
    match &g.name {
        Some(n) => match &g.url {
            Some(u) => Dependency::Repository {
                name: n.clone(),
                url: u.clone(),
                branch: clone_option(&g.branch),
                rev: clone_option(&g.rev),
                features,
            },
            None => {
                let pieces = split_by(n.as_str(), '#');
                proof {
                    lemma_split_nonempty(n@, '#');
                }
                let source = pieces[0].clone();
                let stem = match unix_stem_of(source.as_str()) {
                    Some(stem) => stem,
                    None => source.clone(),
                };
                if pieces.len() > 1 && same_text(pieces[1].as_str(), "branch") {
                    Dependency::Repository {
                        name: stem,
                        url: source,
                        branch: clone_option(&g.version),
                        rev: None,
                        features,
                    }
                } else if pieces.len() > 1 && same_text(pieces[1].as_str(), "rev") {
                    Dependency::Repository {
                        name: stem,
                        url: source,
                        branch: None,
                        rev: clone_option(&g.version),
                        features,
                    }
                } else {
                    Dependency::CratesIo { name: stem, version: clone_option(&g.version), features }
                }
            },
        },
        None => match &g.url {
            Some(u) => {
                let stem = match unix_stem_of(u.as_str()) {
                    Some(stem) => stem,
                    None => u.clone(),
                };
                Dependency::Repository {
                    name: stem,
                    url: u.clone(),
                    branch: clone_option(&g.branch),
                    rev: clone_option(&g.rev),
                    features,
                }
            },
            None => plain_crate_of(s),
        },
    }
}

/// Reads a dependency of the first command-line interface.
pub fn parse_dependency(s: &str) -> (r: Dependency)
    requires
        dependency_readable(s@),
    ensures
        r@ == dependency_from_text(s@),
{
    match capture_first_pattern(s) {
        Some(g) => dependency_from_captures(s, &g),
        None => plain_crate_of(s),
    }
}

/// Reads a dependency of the first command-line interface; `None` where
/// the source names a path without a file name (such as `..`).
pub fn try_parse_dependency(s: &str) -> (r: Option<Dependency>)
    ensures
        r is Some <==> dependency_readable(s@),
        r matches Some(d) ==> d@ == dependency_from_text(s@),
{
    let readable = match capture_first_pattern(s) {
        Some(g) => readable_groups(&g),
        None => true,
    };
    if readable {
        Some(parse_dependency(s))
    } else {
        None
    }
}

// ---------------------------------------------------------------------------
// Writing a dependency of the first interface
// ---------------------------------------------------------------------------

/// How `{:?}` writes the string `s`: between double quotes, with `"`, `\`
/// and characters that are not printable escaped.
pub uninterp spec fn debug_quoted(s: Seq<char>) -> Seq<char>;

/// `s` holds printable ASCII characters other than `"` and `\` only.
pub open spec fn plain_printable(s: Seq<char>) -> bool {
    forall|i: int|
        0 <= i < s.len() ==> ' ' <= #[trigger] s[i] <= '~' && s[i] != '"' && s[i] != '\\'
}

/// Formats `s` with `{:?}` (std's `Debug` for `str`). The contract names
/// the result `debug_quoted` and states what std documents of it: a string
/// of plain printable ASCII is copied unchanged between double quotes.
/// Which other characters `char::escape_debug` leaves as they are (most
/// letters outside ASCII) and which it escapes (control, non-printable,
/// combining and format characters) follows Unicode tables that std does
/// not list in its documentation, so nothing is stated of them.
#[verifier::external_body]
fn debug_text(s: &str) -> (r: String)
    ensures
        r@ == debug_quoted(s@),
        plain_printable(s@) ==> r@ == plain_quoted(s@),
{
    format!("{:?}", s)
}

/// How `{:?}` writes a list of strings: `[` and `]` around the quoted items, separated by `, `.
pub open spec fn debug_list(items: Seq<Seq<char>>) -> Seq<char> {
    "["@ + join(items.map_values(|i: Seq<char>| debug_quoted(i)), ", "@) + "]"@
}

/// How the first interface writes `d` in a `Cargo.toml`.
pub open spec fn dependency_line(d: DependencyValue) -> Seq<char> {
    match d {
        DependencyValue::CratesIo { name, version, features } => {
            let v = version.unwrap_or("*"@);
            if features.len() > 0 {
                name + " = { version = \""@ + v + "\", features = "@ + debug_list(features)
                    + " }"@
            } else {
                name + " = \""@ + v + "\""@
            }
        },
        DependencyValue::Repository { name, url, branch, rev, features } => name
            + " = { git = "@ + debug_quoted(url) + match branch {
            Some(b) => ", branch = "@ + debug_quoted(b),
            None => Seq::empty(),
        } + match rev {
            Some(r) => ", rev = "@ + debug_quoted(r),
            None => Seq::empty(),
        } + if features.len() > 0 {
            ", features = "@ + debug_list(features)
        } else {
            Seq::empty()
        } + " }"@,
    }
}

/// `s` between double quotes.
pub open spec fn plain_quoted(s: Seq<char>) -> Seq<char> {
    "\""@ + s + "\""@
}

/// Each of `items` holds plain printable ASCII only.
pub open spec fn all_plain(items: Seq<Seq<char>>) -> bool {
    forall|i: int| 0 <= i < items.len() ==> plain_printable(#[trigger] items[i])
}

/// How `{:?}` writes a list of plain printable strings: each item between
/// double quotes, unchanged.
pub open spec fn plain_list(items: Seq<Seq<char>>) -> Seq<char> {
    "["@ + join(items.map_values(|i: Seq<char>| plain_quoted(i)), ", "@) + "]"@
}

fn debug_list_of(items: &Vec<String>) -> (r: String)
    ensures
        r@ == debug_list(items.deep_view()),
        all_plain(items.deep_view()) ==> r@ == plain_list(items.deep_view()),
{
    let ghost all = items.deep_view();
    let ghost quoted = all.map_values(|i: Seq<char>| debug_quoted(i));
    let ghost plain = all.map_values(|i: Seq<char>| plain_quoted(i));
    let mut parts: Vec<String> = Vec::new();
    let mut i: usize = 0;
    while i < items.len()
        invariant
            all == items.deep_view(),
            quoted == all.map_values(|i: Seq<char>| debug_quoted(i)),
            plain == all.map_values(|i: Seq<char>| plain_quoted(i)),
            i <= items@.len(),
            parts.deep_view() =~= quoted.take(i as int),
            all_plain(all) ==> parts.deep_view() =~= plain.take(i as int),
        decreases items@.len() - i,
    {
        let ghost before = parts.deep_view();
        let q = debug_text(items[i].as_str());
        proof {
            if all_plain(all) {
                assert(plain_printable(all[i as int]));
                assert(q@ == plain[i as int]);
                assert(plain.take(i + 1) =~= plain.take(i as int).push(plain[i as int]));
            }
        }
        parts.push(q);
        assert(parts.deep_view() =~= before.push(quoted[i as int]));
        assert(quoted.take(i + 1) =~= quoted.take(i as int).push(quoted[i as int]));
        i = i + 1;
    }
    assert(quoted.take(items@.len() as int) =~= quoted);
    assert(plain.take(items@.len() as int) =~= plain);
    let mut out = owned("[");
    let joined = crate::text::join_with(&parts, ", ");
    append(&mut out, joined.as_str());
    append(&mut out, "]");
    out
}

/// The values of `d` that are written with `{:?}` (its URL, branch,
/// revision and features) hold plain printable ASCII only.
pub open spec fn plain_values(d: DependencyValue) -> bool {
    match d {
        DependencyValue::CratesIo { features, .. } => all_plain(features),
        DependencyValue::Repository { url, branch, rev, features, .. } => {
            &&& plain_printable(url)
            &&& branch matches Some(b) ==> plain_printable(b)
            &&& rev matches Some(r) ==> plain_printable(r)
            &&& all_plain(features)
        },
    }
}

/// How the first interface writes `d` when its values are plain: every
/// value between double quotes, unchanged.
pub open spec fn plain_dependency_line(d: DependencyValue) -> Seq<char> {
    match d {
        DependencyValue::CratesIo { name, version, features } => {
            let v = version.unwrap_or("*"@);
            if features.len() > 0 {
                name + " = { version = \""@ + v + "\", features = "@ + plain_list(features)
                    + " }"@
            } else {
                name + " = \""@ + v + "\""@
            }
        },
        DependencyValue::Repository { name, url, branch, rev, features } => name
            + " = { git = "@ + plain_quoted(url) + match branch {
            Some(b) => ", branch = "@ + plain_quoted(b),
            None => Seq::empty(),
        } + match rev {
            Some(r) => ", rev = "@ + plain_quoted(r),
            None => Seq::empty(),
        } + if features.len() > 0 {
            ", features = "@ + plain_list(features)
        } else {
            Seq::empty()
        } + " }"@,
    }
}

/// How the first interface writes `dependency` in a `Cargo.toml`.
pub fn format_dependency(dependency: &Dependency) -> (r: String)
    ensures
        r@ == dependency_line(dependency@),
        plain_values(dependency@) ==> r@ == plain_dependency_line(dependency@),
{
    match dependency {
        Dependency::CratesIo { name, version, features } => {
            let v = match version {
                Some(v) => v.as_str(),
                None => "*",
            };
            let mut out = owned(name.as_str());
            if features.len() > 0 {
                append(&mut out, " = { version = \"");
                append(&mut out, v);
                append(&mut out, "\", features = ");
                let list = debug_list_of(features);
                append(&mut out, list.as_str());
                append(&mut out, " }");
            } else {
                append(&mut out, " = \"");
                append(&mut out, v);
                append(&mut out, "\"");
            }
            out
        },
        Dependency::Repository { name, url, branch, rev, features } => {
            let mut out = owned(name.as_str());
            append(&mut out, " = { git = ");
            let u = debug_text(url.as_str());
            append(&mut out, u.as_str());
            let ghost head = out@;
            if let Some(b) = branch {
                append(&mut out, ", branch = ");
                let q = debug_text(b.as_str());
                append(&mut out, q.as_str());
            }
            let ghost with_branch = out@;
            if let Some(r) = rev {
                append(&mut out, ", rev = ");
                let q = debug_text(r.as_str());
                append(&mut out, q.as_str());
            }
            let ghost with_rev = out@;
            if features.len() > 0 {
                append(&mut out, ", features = ");
                let list = debug_list_of(features);
                append(&mut out, list.as_str());
            }
            let ghost with_features = out@;
            append(&mut out, " }");
            proof {
                let b_part = match branch.deep_view() {
                    Some(b) => ", branch = "@ + debug_quoted(b),
                    None => Seq::<char>::empty(),
                };
                let r_part = match rev.deep_view() {
                    Some(r) => ", rev = "@ + debug_quoted(r),
                    None => Seq::<char>::empty(),
                };
                let f_part = if features@.len() > 0 {
                    ", features = "@ + debug_list(features.deep_view())
                } else {
                    Seq::<char>::empty()
                };
                assert(with_branch =~= head + b_part);
                assert(with_rev =~= head + b_part + r_part);
                assert(with_features =~= head + b_part + r_part + f_part);
                assert(out@ =~= dependency_line(dependency@));
                if plain_values(dependency@) {
                    assert(out@ =~= plain_dependency_line(dependency@));
                }
            }
            out
        },
    }
}


// ---------------------------------------------------------------------------
// The first command-line interface
// ---------------------------------------------------------------------------

/// The first command line of the tool: dependencies to add (`cargo-temp
/// anyhow tokio`), then options. When the shell exits, the temporary
/// directory is deleted unless the file `TO_DELETE` was removed.
pub struct Cli {
    /// Dependencies to add to `Cargo.toml`; the default version is `*`.
    pub dependencies: Vec<Dependency>,
    /// Create a library instead of a binary.
    pub lib: bool,
    /// Name of the temporary crate.
    pub project_name: Option<String>,
    /// Create a temporary Git working tree based on the repository in the current directory.
    pub worktree_branch: Option<Option<String>>,
    /// Create a temporary clone of a Git repository.
    pub git: Option<String>,
}

/// The text appended to `Cargo.toml` for the dependencies of the first
/// interface: each on a line of its own.
pub open spec fn first_manifest_text(deps: Seq<DependencyValue>) -> Seq<char>
    decreases deps.len(),
{
    if deps.len() == 0 {
        Seq::empty()
    } else {
        first_manifest_text(deps.drop_last()) + dependency_line(deps.last()) + "\n"@
    }
}

fn first_manifest(deps: &Vec<Dependency>) -> (r: String)
    ensures
        r@ == first_manifest_text(deps@.map_values(|d: Dependency| d@)),
{
    let ghost all = deps@.map_values(|d: Dependency| d@);
    let mut out = String::new();
    let mut i: usize = 0;
    assert(all.take(0) =~= Seq::<DependencyValue>::empty());
    while i < deps.len()
        invariant
            all == deps@.map_values(|d: Dependency| d@),
            i <= deps@.len(),
            out@ == first_manifest_text(all.take(i as int)),
        decreases deps@.len() - i,
    {
        assert(all.take(i + 1).drop_last() =~= all.take(i as int));
        assert(all.take(i + 1).last() == deps@[i as int]@);
        let line = format_dependency(&deps[i]);
        append(&mut out, line.as_str());
        append(&mut out, "\n");
        i = i + 1;
    }
    assert(all.take(deps@.len() as int) =~= all);
    out
}

/// What the first command line asks for: no edition, no benchmark, no
/// welcome message, and a shell failure reported with its cause.
pub open spec fn first_request(cli: Cli) -> RequestValue {
    RequestValue {
        worktree_branch: cli.worktree_branch.deep_view(),
        project_name: cli.project_name.deep_view(),
        lib: cli.lib,
        git: cli.git.deep_view(),
        edition: None,
        bench: None,
        manifest: first_manifest_text(cli.dependencies@.map_values(|d: Dependency| d@)),
        welcome: false,
        shell_error_detail: true,
    }
}

fn copy_option(o: &Option<String>) -> (r: Option<String>)
    ensures
        r.deep_view() == o.deep_view(),
{
    match o {
        Some(t) => Some(t.clone()),
        None => None,
    }
}

impl Cli {
    /// What this command line asks for.
    pub fn request(&self) -> (r: Request)
        ensures
            r@ == first_request(*self),
    {
        let worktree_branch = match &self.worktree_branch {
            Some(b) => Some(copy_option(b)),
            None => None,
        };
        Request {
            worktree_branch,
            project_name: copy_option(&self.project_name),
            lib: self.lib,
            git: copy_option(&self.git),
            edition: None,
            bench: None,
            manifest: first_manifest(&self.dependencies),
            welcome: false,
            shell_error_detail: true,
        }
    }

    /// One step of the session: create the project, add the dependencies,
    /// open the shell, then clean up.
    pub fn run(&self, config: &Config, env: &Environment, stage: Stage, event: project::Event) -> (r: (
        Stage,
        Action,
    ))
        requires
            accepts(stage@, event@),
        ensures
            (r.0@, r.1@) == next(first_request(*self), *config, env@, stage@, event@),
    {
        let req = self.request();
        step(&req, config, env, stage, event)
    }
}

} // verus!
