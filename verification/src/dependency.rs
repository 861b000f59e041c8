//! Dependencies given on the command line: how a specification such as
//! `tokio=1.48+io_std` or `https://github.com/rust-random/rand#0.9.0` is
//! read, and how the dependency is written into a `Cargo.toml`.
use crate::text::{
    after_last, after_last_of, append, ascii_alphanumeric, ascii_digit, ascii_hexdigit,
    contains_text, is_ascii_alphanumeric, is_ascii_digit, is_ascii_hexdigit, join, join_with,
    occurs_in, owned, same_text, split_by, split_on, split_progress, strip_prefix, trim_end_chars,
    trim_end_of, trim_end_text, trim_end_text_of, without_prefix,
};
use crate::matching::{captures, regex_captures};
use vstd::prelude::*;

verus! {

/// A dependency to add to the temporary project.
#[derive(Debug, Clone, PartialEq, Eq)]
pub enum Dependency {
    CratesIo {
        name: String,
        version: Option<String>,
        features: Vec<String>,
        default_features: bool,
    },
    Repository {
        name: String,
        version: Option<String>,
        features: Vec<String>,
        default_features: bool,
        url: String,
        branch: Option<String>,
        rev: Option<String>,
        tag: Option<String>,
    },
    Path {
        name: String,
        path: String,
        version: Option<String>,
        features: Vec<String>,
        default_features: bool,
    },
}

/// The mathematical value of a [`Dependency`]: every string is its sequence of characters.
pub enum DependencyValue {
    CratesIo {
        name: Seq<char>,
        version: Option<Seq<char>>,
        features: Seq<Seq<char>>,
        default_features: bool,
    },
    Repository {
        name: Seq<char>,
        version: Option<Seq<char>>,
        features: Seq<Seq<char>>,
        default_features: bool,
        url: Seq<char>,
        branch: Option<Seq<char>>,
        rev: Option<Seq<char>>,
        tag: Option<Seq<char>>,
    },
    Path {
        name: Seq<char>,
        path: Seq<char>,
        version: Option<Seq<char>>,
        features: Seq<Seq<char>>,
        default_features: bool,
    },
}

impl View for Dependency {
    type V = DependencyValue;

    open spec fn view(&self) -> DependencyValue {
        match self {
            Dependency::CratesIo { name, version, features, default_features } =>
                DependencyValue::CratesIo {
                    name: name@,
                    version: version.deep_view(),
                    features: features.deep_view(),
                    default_features: *default_features,
                },
            Dependency::Repository {
                name,
                version,
                features,
                default_features,
                url,
                branch,
                rev,
                tag,
            } => DependencyValue::Repository {
                name: name@,
                version: version.deep_view(),
                features: features.deep_view(),
                default_features: *default_features,
                url: url@,
                branch: branch.deep_view(),
                rev: rev.deep_view(),
                tag: tag.deep_view(),
            },
            Dependency::Path { name, path, version, features, default_features } =>
                DependencyValue::Path {
                    name: name@,
                    path: path@,
                    version: version.deep_view(),
                    features: features.deep_view(),
                    default_features: *default_features,
                },
        }
    }
}

/// The value of a parse result.
pub open spec fn parsed_value(r: Result<Dependency, String>) -> Result<DependencyValue, Seq<char>> {
    match r {
        Ok(d) => Ok(d@),
        Err(e) => Err(e@),
    }
}

// ---------------------------------------------------------------------------
// Reading a dependency
// ---------------------------------------------------------------------------

/// The named groups of the dependency pattern that took part in a match:
/// `url`, `path` or `name` (the source), `git_ref` (after `#`), `op` and
/// `version`, `default_features` (a lone `+`) and `features` (`+a+b`).
pub struct DependencyCaptures {
    pub url: Option<String>,
    pub path: Option<String>,
    pub name: Option<String>,
    pub git_ref: Option<String>,
    pub op: Option<String>,
    pub version: Option<String>,
    pub default_features: Option<String>,
    pub features: Option<String>,
}

/// The groups of [`DependencyCaptures`], in the order of its fields.
pub type CaptureGroups = (
    Option<Seq<char>>,
    Option<Seq<char>>,
    Option<Seq<char>>,
    Option<Seq<char>>,
    Option<Seq<char>>,
    Option<Seq<char>>,
    Option<Seq<char>>,
    Option<Seq<char>>,
);

impl View for DependencyCaptures {
    type V = CaptureGroups;

    open spec fn view(&self) -> CaptureGroups {
        (
            self.url.deep_view(),
            self.path.deep_view(),
            self.name.deep_view(),
            self.git_ref.deep_view(),
            self.op.deep_view(),
            self.version.deep_view(),
            self.default_features.deep_view(),
            self.features.deep_view(),
        )
    }
}

/// The dependency syntax: a source (a git URL, a local path or a crates.io
/// name), an optional `#REF`, an optional `OP VERSION`, an optional lone `+`
/// and `+FEATURE`s.
pub const DEPENDENCY_PATTERN: &'static str = r"(?x)^
(?:
    (?P<url>
        (?:https?|ssh)://
        (?:[^:@]+(?::[^@]+)?@)?
        [^/:@?\#=><~+]+
        (?:/[^\#=><~+]+)+
        (?:\.git)?
    )
    |
    (?P<path>
        (?:
            \.\.?[/\\]
            |
            /
            |
            [A-Za-z]:[/\\]
        )
        [^\#=><~+]+
    )
    |
    (?P<name>[^=><~+]+)
)
(?:\#(?P<git_ref>[^=><~+]+))?
(?:
    (?P<op>==|>=|<=|>|<|~|=)?
    (?P<version>[0-9A-Za-z.\-]+)
)?
(?P<default_features>\+)?
(?P<features>(?:\+[^+]+)*)$
";

/// The names of the groups of [`DEPENDENCY_PATTERN`], in the order of the
/// fields of [`DependencyCaptures`].
pub open spec fn dependency_group_names() -> Seq<Seq<char>> {
    seq![
        "url"@,
        "path"@,
        "name"@,
        "git_ref"@,
        "op"@,
        "version"@,
        "default_features"@,
        "features"@,
    ]
}

/// What [`DEPENDENCY_PATTERN`] captures in `s`, or `None` where it does not match.
pub open spec fn dependency_pattern_match(s: Seq<char>) -> Option<CaptureGroups> {
    match regex_captures(DEPENDENCY_PATTERN@, s, dependency_group_names()) {
        Some(g) => Some((g[0], g[1], g[2], g[3], g[4], g[5], g[6], g[7])),
        None => None,
    }
}

fn take_group(groups: &Vec<Option<String>>, i: usize) -> (r: Option<String>)
    requires
        i < groups@.len(),
    ensures
        r.deep_view() == groups.deep_view()[i as int],
{
    match &groups[i] {
        Some(t) => Some(t.clone()),
        None => None,
    }
}

/// Matches `s` against [`DEPENDENCY_PATTERN`].
pub fn capture_dependency(s: &str) -> (r: Option<DependencyCaptures>)
    ensures
        match r {
            Some(c) => dependency_pattern_match(s@) == Some(c@),
            None => dependency_pattern_match(s@) is None,
        },
{
    let names = vec![
        "url",
        "path",
        "name",
        "git_ref",
        "op",
        "version",
        "default_features",
        "features",
    ];
    assert(names.deep_view() =~= dependency_group_names());
    match captures(DEPENDENCY_PATTERN, s, &names) {
        None => None,
        Some(g) => Some(
            DependencyCaptures {
                url: take_group(&g, 0),
                path: take_group(&g, 1),
                name: take_group(&g, 2),
                git_ref: take_group(&g, 3),
                op: take_group(&g, 4),
                version: take_group(&g, 5),
                default_features: take_group(&g, 6),
                features: take_group(&g, 7),
            },
        ),
    }
}

/// The version requirement written for a comparison operator and a version:
/// `==` becomes `=`, a lone `=` is dropped, any other operator is kept.
pub open spec fn requirement(op: Option<Seq<char>>, version: Option<Seq<char>>) -> Option<Seq<char>> {
    match version {
        None => None,
        Some(v) => match op {
            None => Some(v),
            Some(o) => if o == "=="@ {
                Some("="@ + v)
            } else if o == "="@ {
                Some(v)
            } else {
                Some(o + v)
            },
        },
    }
}

/// The features listed in a `+a+b` group: what follows each `+`.
pub open spec fn listed_features(group: Option<Seq<char>>) -> Seq<Seq<char>> {
    match group {
        Some(g) => split_on(g, '+').skip(1),
        None => Seq::empty(),
    }
}

/// The package name of a repository: the last segment of its URL, without `.git` endings.
pub open spec fn repository_name(url: Seq<char>) -> Seq<char> {
    trim_end_text(after_last(url, seq!['/']), ".git"@)
}

/// The directory separators of both Unix and Windows paths.
pub open spec fn path_separators() -> Seq<char> {
    seq!['/', '\\']
}

/// The package name of a local path: its last component.
pub open spec fn path_package_name(path: Seq<char>) -> Seq<char> {
    after_last(trim_end_chars(path, path_separators()), path_separators())
}

/// `t` starts with a digit, holds only ASCII letters, digits, `-` and `.`,
/// has at least one `.`, and each `.` is followed by a digit.
pub open spec fn dotted_version(t: Seq<char>) -> bool {
    &&& t.len() > 0 && is_ascii_digit(t[0])
    &&& forall|i: int|
        1 <= i < t.len() ==> is_ascii_alphanumeric(#[trigger] t[i]) || t[i] == '-' || t[i] == '.'
    &&& forall|i: int|
        1 <= i < t.len() && #[trigger] t[i] == '.' ==> i + 1 < t.len() && is_ascii_digit(t[i + 1])
    &&& exists|i: int| 1 <= i < t.len() && #[trigger] t[i] == '.'
}

/// `s` looks like a version, with or without a leading `v`.
pub open spec fn version_like(s: Seq<char>) -> bool {
    if s.len() > 0 && s[0] == 'v' {
        dotted_version(s.skip(1))
    } else {
        dotted_version(s)
    }
}

/// `s` is at least seven bytes long and made of hexadecimal digits only.
pub open spec fn revision_like(s: Seq<char>) -> bool {
    &&& vstd::utf8::encode_utf8(s).len() >= 7
    &&& forall|i: int| 0 <= i < s.len() ==> is_ascii_hexdigit(#[trigger] s[i])
}

/// What a git reference designates, as `(branch, rev, tag)`: an explicit
/// `branch:`, `tag:` or `rev:` prefix decides; otherwise a revision-like
/// reference is a revision, a version-like one a tag, and anything else a branch.
pub open spec fn git_ref_kind(r: Seq<char>) -> (Option<Seq<char>>, Option<Seq<char>>, Option<Seq<char>>) {
    match without_prefix(r, "branch:"@) {
        Some(b) => (Some(b), None, None),
        None => match without_prefix(r, "tag:"@) {
            Some(t) => (None, None, Some(t)),
            None => match without_prefix(r, "rev:"@) {
                Some(v) => (None, Some(v), None),
                None => if revision_like(r) {
                    (None, Some(r), None)
                } else if version_like(r) {
                    (None, None, Some(r))
                } else {
                    (Some(r), None, None)
                },
            },
        },
    }
}

/// The dependency that the captured groups describe, or the error message.
pub open spec fn dependency_from_groups(c: CaptureGroups) -> Result<DependencyValue, Seq<char>> {
    let (url, path, name, git_ref, op, version, no_default, features) = c;
    let version = requirement(op, version);
    let features = listed_features(features);
    let default_features = no_default is None;
    match url {
        Some(u) => {
            let (branch, rev, tag) = match git_ref {
                Some(r) => git_ref_kind(r),
                None => (None, None, None),
            };
            Ok(
                DependencyValue::Repository {
                    name: repository_name(u),
                    version,
                    features,
                    default_features,
                    url: u,
                    branch,
                    rev,
                    tag,
                },
            )
        },
        None => match path {
            Some(p) => if path_package_name(p).len() == 0 {
                Err("could not infer name from path"@)
            } else {
                Ok(
                    DependencyValue::Path {
                        name: path_package_name(p),
                        path: p,
                        version,
                        features,
                        default_features,
                    },
                )
            },
            None => match name {
                Some(n) => if occurs_in(n, "://"@) {
                    Err("invalid URL"@)
                } else {
                    Ok(DependencyValue::CratesIo { name: n, version, features, default_features })
                },
                None => Err("invalid dependency source"@),
            },
        },
    }
}

/// The dependency that `s` describes, or the error message.
pub open spec fn dependency_from_text(s: Seq<char>) -> Result<DependencyValue, Seq<char>> {
    match dependency_pattern_match(s) {
        Some(c) => dependency_from_groups(c),
        None => Err("could not parse dependency"@),
    }
}

fn version_requirement(op: &Option<String>, version: &Option<String>) -> (r: Option<String>)
    ensures
        r.deep_view() == requirement(op.deep_view(), version.deep_view()),
{
    match version {
        None => None,
        Some(v) => match op {
            None => Some(v.clone()),
            Some(o) => {
                if same_text(o.as_str(), "==") {
                    let mut out = owned("=");
                    append(&mut out, v.as_str());
                    Some(out)
                } else if same_text(o.as_str(), "=") {
                    Some(v.clone())
                } else {
                    let mut out = o.clone();
                    append(&mut out, v.as_str());
                    Some(out)
                }
            },
        },
    }
}

fn features_of(group: &Option<String>) -> (r: Vec<String>)
    ensures
        r.deep_view() == listed_features(group.deep_view()),
{
    match group {
        None => Vec::new(),
        Some(g) => {
            let pieces = split_by(g.as_str(), '+');
            let ghost all = pieces.deep_view();
            let mut out: Vec<String> = Vec::new();
            let n = pieces.len();
            let mut i: usize = 1;
            proof {
                let (done, open) = split_progress(g@, '+');
                assert(all.len() == done.len() + 1);
            }
            while i < n
                invariant
                    n == pieces@.len(),
                    all == pieces.deep_view(),
                    1 <= n,
                    1 <= i <= n,
                    out.deep_view() =~= all.subrange(1, i as int),
                decreases n - i,
            {
                let ghost before = out.deep_view();
                out.push(pieces[i].clone());
                assert(out.deep_view() =~= before.push(all[i as int]));
                assert(all.subrange(1, i + 1) =~= all.subrange(1, i as int).push(all[i as int]));
                i = i + 1;
            }
            out
        },
    }
}

fn git_repository_name(url: &str) -> (r: String)
    ensures
        r@ == repository_name(url@),
{
    let seps = vec!['/'];
    assert(seps@ =~= seq!['/']);
    let last = after_last_of(url, &seps);
    trim_end_text_of(last.as_str(), ".git")
}

fn local_package_name(path: &str) -> (r: String)
    ensures
        r@ == path_package_name(path@),
{
    let seps = vec!['/', '\\'];
    assert(seps@ =~= path_separators());
    let trimmed = trim_end_of(path, &seps);
    after_last_of(trimmed.as_str(), &seps)
}

/// Whether `s` looks like a version such as `0.9.0` or `v1.2-rc1`.
pub fn is_version_like(s: &str) -> (r: bool)
    ensures
        r == version_like(s@),
{
    let n = s.unicode_len();
    let start: usize = if n > 0 && s.get_char(0) == 'v' {
        1
    } else {
        0
    };
    let ghost t = if s@.len() > 0 && s@[0] == 'v' {
        s@.skip(1)
    } else {
        s@
    };
    assert(t =~= s@.skip(start as int));
    assert(version_like(s@) == dotted_version(t));
    if start >= n {
        return false;
    }
    if !ascii_digit(s.get_char(start)) {
        assert(t[0] == s@[start as int]);
        return false;
    }
    let mut has_dot_digit = false;
    let mut i: usize = start + 1;
    while i < n
        invariant
            n == s@.len(),
            t =~= s@.skip(start as int),
            version_like(s@) == dotted_version(t),
            start < n,
            start + 1 <= i <= n + 1,
            is_ascii_digit(t[0]),
            forall|j: int|
                1 <= j < i - start && j < t.len() ==> is_ascii_alphanumeric(#[trigger] t[j])
                    || t[j] == '-' || t[j] == '.',
            forall|j: int|
                1 <= j < i - start && j < t.len() && #[trigger] t[j] == '.' ==> j + 1 < i - start
                    && j + 1 < t.len() && is_ascii_digit(t[j + 1]),
            has_dot_digit == exists|j: int| 1 <= j < i - start && j < t.len() && #[trigger] t[j] == '.',
        decreases n + 1 - i,
    {
        let c = s.get_char(i);
        assert(t[i - start] == c);
        if c == '.' {
            if i + 1 < n && ascii_digit(s.get_char(i + 1)) {
                assert(t[i + 1 - start] == s@[i + 1]);
                has_dot_digit = true;
                i = i + 2;
            } else {
                assert(t[i - start] == '.');
                if i + 1 < n {
                    assert(t[i + 1 - start] == s@[i + 1]);
                }
                assert(!dotted_version(t));
                return false;
            }
        } else if !ascii_alphanumeric(c) && c != '-' {
            assert(!dotted_version(t));
            return false;
        } else {
            i = i + 1;
        }
    }
    has_dot_digit
}

fn all_hex_digits(s: &str) -> (r: bool)
    ensures
        r == forall|i: int| 0 <= i < s@.len() ==> is_ascii_hexdigit(#[trigger] s@[i]),
{
    let n = s.unicode_len();
    let mut i: usize = 0;
    while i < n
        invariant
            n == s@.len(),
            i <= n,
            forall|j: int| 0 <= j < i ==> is_ascii_hexdigit(#[trigger] s@[j]),
        decreases n - i,
    {
        if !ascii_hexdigit(s.get_char(i)) {
            return false;
        }
        i = i + 1;
    }
    true
}

/// Sorts a git reference into `(branch, rev, tag)`.
pub fn classify_git_ref(r: &str) -> (res: (Option<String>, Option<String>, Option<String>))
    ensures
        (res.0.deep_view(), res.1.deep_view(), res.2.deep_view()) == git_ref_kind(r@),
{
    if let Some(stripped) = strip_prefix(r, "branch:") {
        (Some(stripped), None, None)
    } else if let Some(stripped) = strip_prefix(r, "tag:") {
        (None, None, Some(stripped))
    } else if let Some(stripped) = strip_prefix(r, "rev:") {
        (None, Some(stripped), None)
    } else if all_hex_digits(r) && r.unicode_len() >= 7 {
        proof {
            assert(vstd::utf8::is_ascii_chars(r@));
            vstd::utf8::is_ascii_chars_encode_utf8(r@);
        }
        (None, Some(owned(r)), None)
    } else if is_version_like(r) {
        proof {
            if forall|i: int| 0 <= i < r@.len() ==> is_ascii_hexdigit(#[trigger] r@[i]) {
                assert(vstd::utf8::is_ascii_chars(r@));
                vstd::utf8::is_ascii_chars_encode_utf8(r@);
            }
        }
        (None, None, Some(owned(r)))
    } else {
        proof {
            if forall|i: int| 0 <= i < r@.len() ==> is_ascii_hexdigit(#[trigger] r@[i]) {
                assert(vstd::utf8::is_ascii_chars(r@));
                vstd::utf8::is_ascii_chars_encode_utf8(r@);
            }
        }
        (Some(owned(r)), None, None)
    }
}

impl Dependency {
    /// The dependency that the groups captured by the dependency pattern describe.
    pub fn from_captures(caps: &DependencyCaptures) -> (r: Result<Dependency, String>)
        ensures
            parsed_value(r) == dependency_from_groups(caps@),
    {
        let version = version_requirement(&caps.op, &caps.version);
        let features = features_of(&caps.features);
        let default_features = caps.default_features.is_none();
        match &caps.url {
            Some(url) => {
                let name = git_repository_name(url.as_str());
                let (branch, rev, tag) = match &caps.git_ref {
                    Some(git_ref) => classify_git_ref(git_ref.as_str()),
                    None => (None, None, None),
                };
                Ok(
                    Dependency::Repository {
                        name,
                        url: url.clone(),
                        version,
                        features,
                        default_features,
                        branch,
                        rev,
                        tag,
                    },
                )
            },
            None => match &caps.path {
                Some(path) => {
                    let name = local_package_name(path.as_str());
                    if name.as_str().unicode_len() == 0 {
                        return Err(owned("could not infer name from path"));
                    }
                    Ok(
                        Dependency::Path {
                            name,
                            path: path.clone(),
                            version,
                            features,
                            default_features,
                        },
                    )
                },
                None => match &caps.name {
                    Some(name) => {
                        if contains_text(name.as_str(), "://") {
                            return Err(owned("invalid URL"));
                        }
                        Ok(
                            Dependency::CratesIo {
                                name: name.clone(),
                                version,
                                features,
                                default_features,
                            },
                        )
                    },
                    None => Err(owned("invalid dependency source")),
                },
            },
        }
    }

    /// Reads a dependency such as `anyhow`, `tokio=1.48+io_std`,
    /// `https://github.com/rust-random/rand#0.9.0` or `../shared-lib+`.
    pub fn from_str(s: &str) -> (r: Result<Dependency, String>)
        ensures
            parsed_value(r) == dependency_from_text(s@),
    {
        match capture_dependency(s) {
            Some(caps) => Dependency::from_captures(&caps),
            None => Err(owned("could not parse dependency")),
        }
    }
}


// ---------------------------------------------------------------------------
// Writing a dependency
// ---------------------------------------------------------------------------

/// The number of bytes that `c` takes in UTF-8.
pub open spec fn utf8_width(c: char) -> int {
    if (c as u32) < 0x80 {
        1
    } else if (c as u32) < 0x800 {
        2
    } else if (c as u32) < 0x10000 {
        3
    } else {
        4
    }
}

/// The number of bytes that `s` takes in UTF-8 (what `str::len` returns).
pub open spec fn byte_len(s: Seq<char>) -> int
    decreases s.len(),
{
    if s.len() == 0 {
        0
    } else {
        byte_len(s.drop_last()) + utf8_width(s.last())
    }
}

/// The bytes that the features add to the estimate of the inline form.
pub open spec fn features_weight(features: Seq<Seq<char>>) -> int
    decreases features.len(),
{
    if features.len() == 0 {
        0
    } else {
        features_weight(features.drop_last()) + byte_len(features.last()) + 6
    }
}

/// The bytes that an optional value adds to the estimate.
pub open spec fn optional_weight(o: Option<Seq<char>>, extra: int) -> int {
    match o {
        Some(v) => byte_len(v) + extra,
        None => 0,
    }
}

/// The bytes that the default-features flag adds to the estimate.
pub open spec fn defaults_weight(default_features: bool) -> int {
    if default_features {
        0
    } else {
        24
    }
}

/// An estimate of the length of the inline form of `d`.
pub open spec fn toml_weight(d: DependencyValue) -> int {
    match d {
        DependencyValue::CratesIo { name, version, features, default_features } => byte_len(name) + 5
            + optional_weight(version, 10) + 14 + features_weight(features) + defaults_weight(
            default_features,
        ),
        DependencyValue::Repository {
            name,
            version,
            features,
            default_features,
            url,
            branch,
            rev,
            tag,
        } => byte_len(name) + 5 + optional_weight(version, 9) + 13 + features_weight(features)
            + defaults_weight(default_features) + byte_len(url) + 10 + optional_weight(branch, 10)
            + optional_weight(rev, 6) + optional_weight(tag, 6),
        DependencyValue::Path { name, path, version, features, default_features } => byte_len(name)
            + 5 + optional_weight(version, 9) + 13 + features_weight(features) + defaults_weight(
            default_features,
        ) + byte_len(path) + 11,
    }
}

/// `d` is written as a `[dependencies.NAME]` table rather than inline:
/// its estimated inline length reaches 100 bytes.
pub open spec fn long_form(d: DependencyValue) -> bool {
    toml_weight(d) >= 100
}

/// `s` between double quotes.
pub open spec fn quoted(s: Seq<char>) -> Seq<char> {
    "\""@ + s + "\""@
}

/// The `features = [...]` entry.
pub open spec fn features_entry(features: Seq<Seq<char>>) -> Seq<char> {
    "features = [\""@ + join(features, "\", \""@) + "\"]"@
}

/// A `key = "value"` entry when the value is present.
pub open spec fn optional_entry(key: Seq<char>, o: Option<Seq<char>>) -> Seq<Seq<char>> {
    match o {
        Some(v) => seq![key + quoted(v)],
        None => Seq::empty(),
    }
}

/// The line break that follows an optional entry in the table form, when the entry is present.
pub open spec fn optional_break(o: Option<Seq<char>>, breaks: bool) -> Seq<bool> {
    match o {
        Some(_) => seq![breaks],
        None => Seq::empty(),
    }
}

/// The `default-features` and `features` entries.
pub open spec fn closing_entries(default_features: bool, features: Seq<Seq<char>>) -> Seq<Seq<char>> {
    (if default_features {
        Seq::empty()
    } else {
        seq!["default-features = false"@]
    }) + (if features.len() > 0 {
        seq![features_entry(features)]
    } else {
        Seq::empty()
    })
}

/// Whether a line break follows each of the closing entries in the table form.
pub open spec fn closing_breaks(default_features: bool, features: Seq<Seq<char>>) -> Seq<bool> {
    (if default_features {
        Seq::empty()
    } else {
        seq![features.len() > 0]
    }) + (if features.len() > 0 {
        seq![false]
    } else {
        Seq::empty()
    })
}

/// The entries of `d`, in the order in which they are written.
pub open spec fn toml_entries(d: DependencyValue) -> Seq<Seq<char>> {
    match d {
        DependencyValue::CratesIo { name, version, features, default_features } => seq![
            "version = "@ + quoted(version.unwrap_or("*"@)),
        ] + closing_entries(default_features, features),
        DependencyValue::Repository {
            name,
            version,
            features,
            default_features,
            url,
            branch,
            rev,
            tag,
        } => seq!["git = "@ + quoted(url)] + optional_entry("branch = "@, branch) + optional_entry(
            "rev = "@,
            rev,
        ) + optional_entry("tag = "@, tag) + optional_entry("version = "@, version)
            + closing_entries(default_features, features),
        DependencyValue::Path { name, path, version, features, default_features } => seq![
            "path = "@ + quoted(path),
        ] + optional_entry("version = "@, version) + closing_entries(default_features, features),
    }
}

/// Whether a line break follows each entry of `d` in the table form.
pub open spec fn toml_breaks(d: DependencyValue) -> Seq<bool> {
    match d {
        DependencyValue::CratesIo { name, version, features, default_features } => seq![
            !(default_features && features.len() > 0),
        ] + closing_breaks(default_features, features),
        DependencyValue::Repository {
            name,
            version,
            features,
            default_features,
            url,
            branch,
            rev,
            tag,
        } => {
            let bare = default_features && features.len() == 0;
            seq![!(branch is None && rev is None && tag is None && bare)] + optional_break(
                branch,
                !(version is None && bare),
            ) + optional_break(rev, !(version is None && bare)) + optional_break(
                tag,
                !(version is None && bare),
            ) + optional_break(version, !bare) + closing_breaks(default_features, features)
        },
        DependencyValue::Path { name, path, version, features, default_features } => {
            let bare = default_features && features.len() == 0;
            seq![!(version is None && bare)] + optional_break(version, !bare) + closing_breaks(
                default_features,
                features,
            )
        },
    }
}

/// The package name of `d`.
pub open spec fn package_name(d: DependencyValue) -> Seq<char> {
    match d {
        DependencyValue::CratesIo { name, .. } => name,
        DependencyValue::Repository { name, .. } => name,
        DependencyValue::Path { name, .. } => name,
    }
}

/// `NAME = { e1, e2, ... }`.
pub open spec fn inline_table(name: Seq<char>, entries: Seq<Seq<char>>) -> Seq<char> {
    name + " = { "@ + join(entries, ", "@) + " }"@
}

/// The entries one after the other, each followed by a line break where `breaks` says so.
pub open spec fn table_body(entries: Seq<Seq<char>>, breaks: Seq<bool>) -> Seq<char>
    decreases entries.len(),
{
    if entries.len() == 0 {
        Seq::empty()
    } else {
        table_body(entries.drop_last(), breaks.drop_last()) + entries.last() + (if breaks[entries.len()
            - 1] {
            "\n"@
        } else {
            Seq::empty()
        })
    }
}

/// `[dependencies.NAME]` followed by the entries.
pub open spec fn dependency_table(name: Seq<char>, entries: Seq<Seq<char>>, breaks: Seq<bool>) -> Seq<
    char,
> {
    "[dependencies."@ + name + "]\n"@ + table_body(entries, breaks)
}

/// How `d` is written in a `Cargo.toml`: a crates.io dependency with its
/// default features and no others as `NAME = "VERSION"` (`*` without a
/// version); any other dependency inline, unless it is long, then as a table.
pub open spec fn toml_text(d: DependencyValue) -> Seq<char> {
    match d {
        DependencyValue::CratesIo { name, version, features, default_features } if default_features
            && features.len() == 0 => name + " = "@ + quoted(version.unwrap_or("*"@)),
        _ => if !long_form(d) {
            inline_table(package_name(d), toml_entries(d))
        } else {
            dependency_table(package_name(d), toml_entries(d), toml_breaks(d))
        },
    }
}

fn utf8_len_capped(s: &str, cap: usize) -> (r: usize)
    requires
        cap <= 1000,
    ensures
        r as int == if byte_len(s@) < cap {
            byte_len(s@)
        } else {
            cap as int
        },
{
    let n = s.unicode_len();
    let mut acc: usize = 0;
    let mut i: usize = 0;
    assert(s@.take(0) =~= Seq::<char>::empty());
    while i < n
        invariant
            n == s@.len(),
            cap <= 1000,
            i <= n,
            acc as int == if byte_len(s@.take(i as int)) < cap {
                byte_len(s@.take(i as int))
            } else {
                cap as int
            },
        decreases n - i,
    {
        let c = s.get_char(i);
        assert(s@.take(i + 1).drop_last() =~= s@.take(i as int));
        proof {
            lemma_byte_len_nonneg(s@.take(i as int));
        }
        let w: usize = if (c as u32) < 0x80 {
            1
        } else if (c as u32) < 0x800 {
            2
        } else if (c as u32) < 0x10000 {
            3
        } else {
            4
        };
        acc = if acc + w < cap {
            acc + w
        } else {
            cap
        };
        i = i + 1;
    }
    assert(s@.take(n as int) =~= s@);
    acc
}

pub proof fn lemma_byte_len_nonneg(s: Seq<char>)
    ensures
        byte_len(s) >= 0,
    decreases s.len(),
{
    if s.len() > 0 {
        lemma_byte_len_nonneg(s.drop_last());
    }
}

proof fn lemma_weights_nonneg(d: DependencyValue)
    ensures
        match d {
            DependencyValue::CratesIo { name, version, features, .. } => byte_len(name) >= 0
                && optional_weight(version, 10) >= 0 && features_weight(features) >= 0,
            DependencyValue::Repository { name, version, features, url, branch, rev, tag, .. } =>
                byte_len(name) >= 0 && optional_weight(version, 9) >= 0 && features_weight(features)
                >= 0 && byte_len(url) >= 0 && optional_weight(branch, 10) >= 0 && optional_weight(
                rev,
                6,
            ) >= 0 && optional_weight(tag, 6) >= 0,
            DependencyValue::Path { name, path, version, features, .. } => byte_len(name) >= 0
                && optional_weight(version, 9) >= 0 && features_weight(features) >= 0 && byte_len(
                path,
            ) >= 0,
        },
{
    match d {
        DependencyValue::CratesIo { name, version, features, .. } => {
            lemma_byte_len_nonneg(name);
            lemma_features_weight_nonneg(features);
            if let Some(v) = version {
                lemma_byte_len_nonneg(v);
            }
        },
        DependencyValue::Repository { name, version, features, url, branch, rev, tag, .. } => {
            lemma_byte_len_nonneg(name);
            lemma_byte_len_nonneg(url);
            lemma_features_weight_nonneg(features);
            if let Some(v) = version {
                lemma_byte_len_nonneg(v);
            }
            if let Some(v) = branch {
                lemma_byte_len_nonneg(v);
            }
            if let Some(v) = rev {
                lemma_byte_len_nonneg(v);
            }
            if let Some(v) = tag {
                lemma_byte_len_nonneg(v);
            }
        },
        DependencyValue::Path { name, path, version, features, .. } => {
            lemma_byte_len_nonneg(name);
            lemma_byte_len_nonneg(path);
            lemma_features_weight_nonneg(features);
            if let Some(v) = version {
                lemma_byte_len_nonneg(v);
            }
        },
    }
}

proof fn lemma_features_weight_nonneg(fs: Seq<Seq<char>>)
    ensures
        features_weight(fs) >= 0,
    decreases fs.len(),
{
    if fs.len() > 0 {
        lemma_features_weight_nonneg(fs.drop_last());
        lemma_byte_len_nonneg(fs.last());
    }
}

/// The bytes in the estimate so far, capped at 100.
pub open spec fn capped(x: int) -> int {
    if x < 100 {
        x
    } else {
        100
    }
}

/// Adds the bytes of `s` and `extra` to an estimate capped at 100.
fn grow(acc: usize, s: &str, extra: usize) -> (r: usize)
    requires
        acc <= 100,
        extra <= 24,
    ensures
        r == capped(acc + byte_len(s@) + extra),
{
    let b = utf8_len_capped(s, 100);
    proof {
        lemma_byte_len_nonneg(s@);
    }
    if acc + b + extra < 100 {
        acc + b + extra
    } else {
        100
    }
}

/// Adds a constant to an estimate capped at 100.
fn grow_by(acc: usize, extra: usize) -> (r: usize)
    requires
        acc <= 100,
        extra <= 24,
    ensures
        r == capped(acc + extra),
{
    if acc + extra < 100 {
        acc + extra
    } else {
        100
    }
}

fn grow_optional(acc: usize, o: &Option<String>, extra: usize) -> (r: usize)
    requires
        acc <= 100,
        extra <= 24,
    ensures
        r == capped(acc + optional_weight(o.deep_view(), extra as int)),
{
    match o {
        Some(v) => grow(acc, v.as_str(), extra),
        None => acc,
    }
}

fn grow_features(acc: usize, features: &Vec<String>) -> (r: usize)
    requires
        acc <= 100,
    ensures
        r == capped(acc + features_weight(features.deep_view())),
{
    let ghost fs = features.deep_view();
    let mut cur = acc;
    let mut i: usize = 0;
    assert(fs.take(0) =~= Seq::<Seq<char>>::empty());
    while i < features.len()
        invariant
            fs == features.deep_view(),
            i <= features@.len(),
            cur <= 100,
            acc <= 100,
            cur == capped(acc + features_weight(fs.take(i as int))),
        decreases features@.len() - i,
    {
        assert(fs.take(i + 1).drop_last() =~= fs.take(i as int));
        assert(fs.take(i + 1).last() == features@[i as int]@);
        proof {
            lemma_features_weight_nonneg(fs.take(i as int));
        }
        proof {
            lemma_byte_len_nonneg(fs[i as int]);
        }
        cur = grow(cur, features[i].as_str(), 6);
        i = i + 1;
    }
    assert(fs.take(features@.len() as int) =~= fs);
    cur
}

fn quote(value: &str) -> (r: String)
    ensures
        r@ == quoted(value@),
{
    let mut out = owned("\"");
    append(&mut out, value);
    append(&mut out, "\"");
    out
}

fn quoted_entry(key: &str, value: &str) -> (r: String)
    ensures
        r@ == key@ + quoted(value@),
{
    let mut out = owned(key);
    let q = quote(value);
    append(&mut out, q.as_str());
    out
}

fn features_line(features: &Vec<String>) -> (r: String)
    ensures
        r@ == features_entry(features.deep_view()),
{
    let mut out = owned("features = [\"");
    let joined = join_with(features, "\", \"");
    append(&mut out, joined.as_str());
    append(&mut out, "\"]");
    out
}

fn push_closing_entries(
    entries: &mut Vec<String>,
    breaks: &mut Vec<bool>,
    default_features: bool,
    features: &Vec<String>,
)
    ensures
        final(entries).deep_view() == old(entries).deep_view() + closing_entries(
            default_features,
            features.deep_view(),
        ),
        final(breaks)@ == old(breaks)@ + closing_breaks(default_features, features.deep_view()),
{
    let ghost e0 = entries.deep_view();
    let ghost b0 = breaks@;
    if !default_features {
        entries.push(owned("default-features = false"));
        breaks.push(features.len() > 0);
    }
    if features.len() > 0 {
        entries.push(features_line(features));
        breaks.push(false);
    }
    assert(entries.deep_view() =~= e0 + closing_entries(default_features, features.deep_view()));
    assert(breaks@ =~= b0 + closing_breaks(default_features, features.deep_view()));
}

fn push_optional_entry(
    entries: &mut Vec<String>,
    breaks: &mut Vec<bool>,
    key: &str,
    value: &Option<String>,
    line_break: bool,
)
    ensures
        final(entries).deep_view() == old(entries).deep_view() + optional_entry(key@, value.deep_view()),
        final(breaks)@ == old(breaks)@ + optional_break(value.deep_view(), line_break),
{
    let ghost e0 = entries.deep_view();
    let ghost b0 = breaks@;
    if let Some(v) = value {
        entries.push(quoted_entry(key, v.as_str()));
        breaks.push(line_break);
    }
    assert(entries.deep_view() =~= e0 + optional_entry(key@, value.deep_view()));
    assert(breaks@ =~= b0 + optional_break(value.deep_view(), line_break));
}

fn render_table(name: &str, entries: &Vec<String>, breaks: &Vec<bool>) -> (r: String)
    requires
        entries@.len() == breaks@.len(),
    ensures
        r@ == dependency_table(name@, entries.deep_view(), breaks@),
{
    let ghost es = entries.deep_view();
    let mut out = owned("[dependencies.");
    append(&mut out, name);
    append(&mut out, "]\n");
    let ghost header = out@;
    let mut i: usize = 0;
    assert(es.take(0) =~= Seq::<Seq<char>>::empty());
    assert(header + table_body(es.take(0), breaks@.take(0)) =~= header);
    while i < entries.len()
        invariant
            es == entries.deep_view(),
            entries@.len() == breaks@.len(),
            i <= entries@.len(),
            header == "[dependencies."@ + name@ + "]\n"@,
            out@ == header + table_body(es.take(i as int), breaks@.take(i as int)),
        decreases entries@.len() - i,
    {
        assert(es.take(i + 1).drop_last() =~= es.take(i as int));
        assert(breaks@.take(i + 1).drop_last() =~= breaks@.take(i as int));
        assert(es.take(i + 1).last() == entries@[i as int]@);
        append(&mut out, entries[i].as_str());
        if breaks[i] {
            append(&mut out, "\n");
        }
        assert(out@ =~= header + table_body(es.take(i + 1), breaks@.take(i + 1)));
        i = i + 1;
    }
    assert(es.take(entries@.len() as int) =~= es);
    assert(breaks@.take(entries@.len() as int) =~= breaks@);
    out
}

fn render_inline(name: &str, entries: &Vec<String>) -> (r: String)
    ensures
        r@ == inline_table(name@, entries.deep_view()),
{
    let mut out = owned(name);
    append(&mut out, " = { ");
    let joined = join_with(entries, ", ");
    append(&mut out, joined.as_str());
    append(&mut out, " }");
    out
}

impl Dependency {
    /// Whether the dependency is written as a `[dependencies.NAME]` table:
    /// its inline form is estimated at 100 bytes or more.
    pub fn is_long(&self) -> (r: bool)
        ensures
            r == long_form(self@),
    {
        let w = match self {
            Dependency::CratesIo { name, version, features, default_features } => {
                proof {
                    lemma_weights_nonneg(self@);
                }
                let acc = grow(0, name.as_str(), 5);
                let acc = grow_optional(acc, version, 10);
                let acc = grow_by(acc, 14);
                let acc = grow_features(acc, features);
                let acc = if *default_features {
                    acc
                } else {
                    grow_by(acc, 24)
                };
                acc
            },
            Dependency::Repository {
                name,
                version,
                features,
                default_features,
                url,
                branch,
                rev,
                tag,
            } => {
                proof {
                    lemma_weights_nonneg(self@);
                }
                let acc = grow(0, name.as_str(), 5);
                let acc = grow_optional(acc, version, 9);
                let acc = grow_by(acc, 13);
                let acc = grow_features(acc, features);
                let acc = if *default_features {
                    acc
                } else {
                    grow_by(acc, 24)
                };
                let acc = grow(acc, url.as_str(), 10);
                let acc = grow_optional(acc, branch, 10);
                let acc = grow_optional(acc, rev, 6);
                let acc = grow_optional(acc, tag, 6);
                acc
            },
            Dependency::Path { name, path, version, features, default_features } => {
                proof {
                    lemma_weights_nonneg(self@);
                }
                let acc = grow(0, name.as_str(), 5);
                let acc = grow_optional(acc, version, 9);
                let acc = grow_by(acc, 13);
                let acc = grow_features(acc, features);
                let acc = if *default_features {
                    acc
                } else {
                    grow_by(acc, 24)
                };
                let acc = grow(acc, path.as_str(), 11);
                acc
            },
        };
        w >= 100
    }

    /// The entries of the dependency and whether a line break follows each in the table form.
    fn entries(&self) -> (r: (Vec<String>, Vec<bool>))
        ensures
            r.0.deep_view() == toml_entries(self@),
            r.1@ == toml_breaks(self@),
    {
        let mut entries: Vec<String> = Vec::new();
        let mut breaks: Vec<bool> = Vec::new();
        match self {
            Dependency::CratesIo { version, features, default_features, .. } => {
                let v = match version {
                    Some(v) => v.as_str(),
                    None => "*",
                };
                entries.push(quoted_entry("version = ", v));
                breaks.push(!(*default_features && features.len() > 0));
                push_closing_entries(&mut entries, &mut breaks, *default_features, features);
                assert(entries.deep_view() =~= toml_entries(self@));
                assert(breaks@ =~= toml_breaks(self@));
            },
            Dependency::Repository {
                version,
                features,
                default_features,
                url,
                branch,
                rev,
                tag,
                ..
            } => {
                let bare = *default_features && features.len() == 0;
                let refs_break = !(version.is_none() && bare);
                entries.push(quoted_entry("git = ", url.as_str()));
                breaks.push(!(branch.is_none() && rev.is_none() && tag.is_none() && bare));
                push_optional_entry(&mut entries, &mut breaks, "branch = ", branch, refs_break);
                push_optional_entry(&mut entries, &mut breaks, "rev = ", rev, refs_break);
                push_optional_entry(&mut entries, &mut breaks, "tag = ", tag, refs_break);
                push_optional_entry(&mut entries, &mut breaks, "version = ", version, !bare);
                push_closing_entries(&mut entries, &mut breaks, *default_features, features);
                assert(entries.deep_view() =~= toml_entries(self@));
                assert(breaks@ =~= toml_breaks(self@));
            },
            Dependency::Path { path, version, features, default_features, .. } => {
                let bare = *default_features && features.len() == 0;
                entries.push(quoted_entry("path = ", path.as_str()));
                breaks.push(!(version.is_none() && bare));
                push_optional_entry(&mut entries, &mut breaks, "version = ", version, !bare);
                push_closing_entries(&mut entries, &mut breaks, *default_features, features);
                assert(entries.deep_view() =~= toml_entries(self@));
                assert(breaks@ =~= toml_breaks(self@));
            },
        }
        (entries, breaks)
    }

    /// The package name.
    pub fn name(&self) -> (r: &String)
        ensures
            r@ == package_name(self@),
    {
        match self {
            Dependency::CratesIo { name, .. } => name,
            Dependency::Repository { name, .. } => name,
            Dependency::Path { name, .. } => name,
        }
    }

    /// How the dependency is written in the `[dependencies]` section of a `Cargo.toml`.
    pub fn to_string(&self) -> (r: String)
        ensures
            r@ == toml_text(self@),
    {
        if let Dependency::CratesIo { name, version, features, default_features } = self {
            if *default_features && features.len() == 0 {
                let v = match version {
                    Some(v) => v.as_str(),
                    None => "*",
                };
                let mut out = owned(name.as_str());
                append(&mut out, " = ");
                let q = quote(v);
                append(&mut out, q.as_str());
                return out;
            }
        }
        let (entries, breaks) = self.entries();
        if !self.is_long() {
            render_inline(self.name().as_str(), &entries)
        } else {
            proof {
                assert(entries@.len() == breaks@.len());
            }
            render_table(self.name().as_str(), &entries, &breaks)
        }
    }
}

} // verus!
