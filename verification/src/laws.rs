//! Properties of the library as a whole, stated over the spec functions
//! that the contracts of its functions use, and proved.
use crate::config::{depth_arguments, Config, Depth};
use crate::dependency::{
    dependency_from_groups, git_ref_kind, listed_features, long_form, package_name,
    repository_name, requirement, toml_text, CaptureGroups, DependencyValue,
};
use crate::project::{
    accepts, delete_file_name, next, ActionValue, EnvironmentValue, EventValue,
    FailureValue, RequestValue, StageValue,
};
use crate::text::{
    after_last, has_prefix, has_suffix, is_ascii_hexdigit, join, lemma_after_last_append,
    lemma_split_progress_append, split_on, split_progress, without_prefix,
};
use crate::dependency::{
    closing_entries, inline_table, optional_entry, quoted,
    revision_like, toml_entries, version_like,
};
use crate::text::{lemma_concat_without, lemma_join_without};
use crate::paths::{
    body_start, last_piece, last_slash, lemma_last_slash, no_component, path_file_name,
    path_parent, path_push, trim_back, lemma_trim_back_bounds, unix_file_stem,
};
use crate::project::{needs_move, preserved_path, edition_arguments, init_command_of};
use crate::paths::{body_components_back, components_back, cut_point, same_path};
use crate::text::{is_white_space, lemma_after_last, lemma_trim_end_chars, lemma_trim_end_space, lemma_trim_start_space, trimmed};
use crate::dependency::{path_package_name, path_separators};
use crate::dependency::{
    byte_len, features_weight, lemma_byte_len_nonneg,
    optional_weight, table_body, toml_breaks, toml_weight, closing_breaks, optional_break,
};
use vstd::prelude::*;

verus! {

// ---------------------------------------------------------------------------
// The session
// ---------------------------------------------------------------------------

/// Once the shell has been opened, the clean-up begins when it exits,
/// whether it succeeded or failed: the next action looks for the file
/// whose removal preserves the project.
pub proof fn cleanup_follows_the_shell(
    req: RequestValue,
    config: Config,
    env: EnvironmentValue,
    dir: Seq<char>,
    event: EventValue,
)
    requires
        accepts(StageValue::InShell { dir }, event),
    ensures
        ({
            let (stage, action) = next(req, config, env, StageValue::InShell { dir }, event);
            &&& stage matches StageValue::CheckingDeleteFile { dir: d, .. } && d == dir
            &&& action == ActionValue::CheckDeleteFile { dir, file_name: delete_file_name() }
        }),
{
}

/// A project whose `TO_DELETE` file was removed is preserved.
pub proof fn removing_the_file_preserves_the_project(
    req: RequestValue,
    config: Config,
    env: EnvironmentValue,
    dir: Seq<char>,
    shell_error: Option<Seq<char>>,
)
    ensures
        next(
            req,
            config,
            env,
            StageValue::CheckingDeleteFile { dir, shell_error },
            EventValue::DeleteFileFound(false),
        ).1 is Preserve,
{
}

/// Without the prompt, a project whose `TO_DELETE` file is still there is
/// deleted: its worktree is removed when it has one of a named branch,
/// otherwise the directory is discarded with the subprocesses stopped.
pub proof fn keeping_the_file_deletes_the_project(
    req: RequestValue,
    config: Config,
    env: EnvironmentValue,
    dir: Seq<char>,
    shell_error: Option<Seq<char>>,
)
    requires
        !config.prompt,
    ensures
        ({
            let action = next(
                req,
                config,
                env,
                StageValue::CheckingDeleteFile { dir, shell_error },
                EventValue::DeleteFileFound(true),
            ).1;
            ||| action == ActionValue::StopSubprocesses { discard_project: true }
            ||| action is Run && req.worktree_branch matches Some(Some(_))
        }),
{
}

/// The session ends successfully only after the subprocesses were stopped
/// and when the shell did not fail.
pub proof fn success_only_after_a_clean_exit(
    req: RequestValue,
    config: Config,
    env: EnvironmentValue,
    stage: StageValue,
    event: EventValue,
)
    requires
        accepts(stage, event),
        next(req, config, env, stage, event).1 == ActionValue::Finish(Ok(())),
    ensures
        stage == (StageValue::StoppingSubprocesses { shell_error: None }),
        event == EventValue::Done,
{
}

/// A failure while the project is being made ends the session with that
/// failure, before any shell is opened.
pub proof fn failures_before_the_shell_end_the_session(
    req: RequestValue,
    config: Config,
    env: EnvironmentValue,
    stage: StageValue,
    f: FailureValue,
)
    requires
        stage is CreatingDirectory || stage is Initializing || stage is AddingDependencies
            || stage is AddingBenchmark || stage is WritingDeleteFile,
    ensures
        next(req, config, env, stage, EventValue::Failed(f)) == (
            StageValue::Finished,
            ActionValue::Finish(Err(f)),
        ),
{
}

/// A shell that failed makes the session fail, once the clean-up is done.
pub proof fn a_failed_shell_fails_the_session(
    req: RequestValue,
    config: Config,
    env: EnvironmentValue,
    error: Seq<char>,
)
    ensures
        next(
            req,
            config,
            env,
            StageValue::StoppingSubprocesses { shell_error: Some(error) },
            EventValue::Done,
        ).1 is Finish,
        next(
            req,
            config,
            env,
            StageValue::StoppingSubprocesses { shell_error: Some(error) },
            EventValue::Done,
        ).1->Finish_0 is Err,
{
}

/// Unless configured otherwise, a clone keeps only the last commit.
pub proof fn clones_keep_the_last_commit_by_default()
    ensures
        depth_arguments(None) == seq!["--depth"@, "1"@],
        depth_arguments(Some(Depth::Active(true))) == seq!["--depth"@, "1"@],
        depth_arguments(Some(Depth::Active(false))) == Seq::<Seq<char>>::empty(),
{
}


// ---------------------------------------------------------------------------
// Reading dependencies
// ---------------------------------------------------------------------------

/// The package name inferred from a repository URL does not depend on a
/// `.git` extension.
pub proof fn the_git_extension_is_optional(url: Seq<char>)
    ensures
        repository_name(url + ".git"@) == repository_name(url),
{
    reveal_strlit(".git");
    let g = ".git"@;
    let seps = seq!['/'];
    assert forall|i: int| 0 <= i < g.len() implies !seps.contains(#[trigger] g[i]) by {
        if seps.contains(g[i]) {
            assert(seps[0] == g[i]);
        }
    }
    lemma_after_last_append(url, g, seps);
    let x = after_last(url, seps);
    assert((x + g).subrange((x + g).len() - g.len(), (x + g).len() as int) =~= g);
    assert(has_suffix(x + g, g));
    assert((x + g).subrange(0, (x + g).len() - g.len()) =~= x);
}

/// Each git reference designates exactly one of a branch, a revision and a tag.
pub proof fn a_reference_is_one_thing(r: Seq<char>)
    ensures
        ({
            let (b, v, t) = git_ref_kind(r);
            ||| b is Some && v is None && t is None
            ||| b is None && v is Some && t is None
            ||| b is None && v is None && t is Some
        }),
{
}

proof fn lemma_no_prefix_at(s: Seq<char>, p: Seq<char>, i: int)
    requires
        0 <= i < p.len(),
        i < s.len(),
        s[i] != p[i],
    ensures
        without_prefix(s, p) is None,
{
    if has_prefix(s, p) {
        assert(s.subrange(0, p.len() as int)[i] == s[i]);
    }
}

/// An explicit `branch:`, `tag:` or `rev:` prefix decides what a reference designates.
pub proof fn explicit_prefixes_decide(x: Seq<char>)
    ensures
        git_ref_kind("branch:"@ + x) == (Some(x), None::<Seq<char>>, None::<Seq<char>>),
        git_ref_kind("tag:"@ + x) == (None::<Seq<char>>, None::<Seq<char>>, Some(x)),
        git_ref_kind("rev:"@ + x) == (None::<Seq<char>>, Some(x), None::<Seq<char>>),
{
    reveal_strlit("branch:");
    reveal_strlit("tag:");
    reveal_strlit("rev:");
    let b = "branch:"@ + x;
    assert(b.subrange(0, 7) =~= "branch:"@);
    assert(b.skip(7) =~= x);
    let t = "tag:"@ + x;
    lemma_no_prefix_at(t, "branch:"@, 0);
    assert(t.subrange(0, 4) =~= "tag:"@);
    assert(t.skip(4) =~= x);
    let v = "rev:"@ + x;
    lemma_no_prefix_at(v, "branch:"@, 0);
    lemma_no_prefix_at(v, "tag:"@, 0);
    assert(v.subrange(0, 4) =~= "rev:"@);
    assert(v.skip(4) =~= x);
}

proof fn lemma_unprefixed(r: Seq<char>)
    requires
        r.len() > 0,
        r[0] != 'b' && r[0] != 't' && r[0] != 'r',
    ensures
        without_prefix(r, "branch:"@) is None,
        without_prefix(r, "tag:"@) is None,
        without_prefix(r, "rev:"@) is None,
{
    reveal_strlit("branch:");
    reveal_strlit("tag:");
    reveal_strlit("rev:");
    lemma_no_prefix_at(r, "branch:"@, 0);
    lemma_no_prefix_at(r, "tag:"@, 0);
    lemma_no_prefix_at(r, "rev:"@, 0);
}

/// A reference of seven or more hexadecimal digits is a revision.
pub proof fn hexadecimal_references_are_revisions(r: Seq<char>)
    requires
        revision_like(r),
    ensures
        git_ref_kind(r) == (None::<Seq<char>>, Some(r), None::<Seq<char>>),
{
    reveal_strlit("branch:");
    reveal_strlit("tag:");
    reveal_strlit("rev:");
    assert(vstd::utf8::is_ascii_chars(r));
    vstd::utf8::is_ascii_chars_encode_utf8(r);
    assert(is_ascii_hexdigit(r[0]));
    if r[0] == 'b' {
        assert(is_ascii_hexdigit(r[1]));
        lemma_no_prefix_at(r, "branch:"@, 1);
        lemma_no_prefix_at(r, "tag:"@, 0);
        lemma_no_prefix_at(r, "rev:"@, 0);
    } else {
        lemma_unprefixed(r);
    }
}

/// A version-like reference that is not a revision is a tag.
pub proof fn version_references_are_tags(r: Seq<char>)
    requires
        version_like(r),
        !revision_like(r),
    ensures
        git_ref_kind(r) == (None::<Seq<char>>, None::<Seq<char>>, Some(r)),
{
    if r.len() > 0 && r[0] == 'v' {
        assert(r.skip(1)[0] == r[1]);
    }
    lemma_unprefixed(r);
}

/// The version operators: `==` and `=` both ask for an exact version, `=`
/// written as the bare version, and the others are kept in front of it.
pub proof fn version_operators(op: Seq<char>, v: Seq<char>)
    ensures
        requirement(Some("=="@), Some(v)) == Some("="@ + v),
        requirement(Some("="@), Some(v)) == Some(v),
        requirement(None, Some(v)) == Some(v),
        op != "=="@ && op != "="@ ==> requirement(Some(op), Some(v)) == Some(op + v),
        requirement(Some(op), None) is None,
{
    reveal_strlit("==");
    reveal_strlit("=");
    assert("="@.len() != "=="@.len());
}

/// The text of a list of features as written after a dependency: `+F` for each feature `F`.
pub open spec fn features_suffix(features: Seq<Seq<char>>) -> Seq<char>
    decreases features.len(),
{
    if features.len() == 0 {
        Seq::empty()
    } else {
        features_suffix(features.drop_last()) + "+"@ + features.last()
    }
}

proof fn lemma_split_features_suffix(features: Seq<Seq<char>>)
    requires
        forall|i: int| 0 <= i < features.len() ==> !(#[trigger] features[i]).contains('+'),
    ensures
        split_on(features_suffix(features), '+') == seq![Seq::<char>::empty()] + features,
    decreases features.len(),
{
    reveal_strlit("+");
    if features.len() == 0 {
        assert(split_on(Seq::<char>::empty(), '+') =~= seq![Seq::<char>::empty()]);
        assert(seq![Seq::<char>::empty()] + features =~= seq![Seq::<char>::empty()]);
    } else {
        let rest = features.drop_last();
        let f = features.last();
        assert forall|i: int| 0 <= i < rest.len() implies !(#[trigger] rest[i]).contains('+') by {
            assert(rest[i] == features[i]);
        }
        lemma_split_features_suffix(rest);
        let p = features_suffix(rest);
        let q = p + "+"@;
        assert(q.drop_last() =~= p);
        assert(q.last() == '+');
        assert(!f.contains('+')) by {
            assert(features[features.len() - 1] == f);
        }
        lemma_split_progress_append(q, f, '+');
        assert(features_suffix(features) == q + f);
        let (d, o) = split_progress(p, '+');
        assert(split_progress(q, '+') == (d.push(o), Seq::<char>::empty()));
        assert(Seq::<char>::empty() + f =~= f);
        assert(split_on(features_suffix(features), '+') =~= d.push(o).push(f));
        assert(seq![Seq::<char>::empty()] + features =~= (seq![Seq::<char>::empty()] + rest).push(f));
    }
}

/// The features listed after a dependency are the texts that follow each `+`.
pub proof fn features_follow_each_plus(features: Seq<Seq<char>>)
    requires
        forall|i: int| 0 <= i < features.len() ==> !(#[trigger] features[i]).contains('+'),
    ensures
        listed_features(Some(features_suffix(features))) == features,
{
    lemma_split_features_suffix(features);
    assert((seq![Seq::<char>::empty()] + features).skip(1) =~= features);
}

/// A lone `+` before the features turns the default features off; a
/// dependency read from a URL is named after the URL.
pub proof fn reading_the_groups(c: CaptureGroups)
    ensures
        dependency_from_groups(c) matches Ok(d) ==> match d {
            DependencyValue::CratesIo { default_features, .. } => default_features == (c.6 is None),
            DependencyValue::Repository { default_features, name, url, .. } => default_features == (
            c.6 is None) && name == repository_name(url) && c.0 == Some(url),
            DependencyValue::Path { default_features, .. } => default_features == (c.6 is None),
        },
{
}

// ---------------------------------------------------------------------------
// Writing dependencies
// ---------------------------------------------------------------------------

/// A crates.io dependency without version or features asks for the latest version.
pub proof fn the_latest_version_by_default(name: Seq<char>)
    ensures
        toml_text(
            DependencyValue::CratesIo {
                name,
                version: None,
                features: Seq::empty(),
                default_features: true,
            },
        ) == name + " = \"*\""@,
{
    reveal_strlit(" = ");
    reveal_strlit("\"");
    reveal_strlit("*");
    reveal_strlit(" = \"*\"");
    assert(name + " = "@ + ("\""@ + "*"@ + "\""@) =~= name + " = \"*\""@);
}


/// No text of `d` holds a line break.
pub open spec fn fields_on_one_line(d: DependencyValue) -> bool {
    let line = |s: Seq<char>| !s.contains('\n');
    let line_opt = |o: Option<Seq<char>>|
        match o {
            Some(s) => !s.contains('\n'),
            None => true,
        };
    let lines = |fs: Seq<Seq<char>>| forall|i: int| 0 <= i < fs.len() ==> !(#[trigger] fs[i]).contains('\n');
    match d {
        DependencyValue::CratesIo { name, version, features, .. } => line(name) && line_opt(version)
            && lines(features),
        DependencyValue::Repository { name, version, features, url, branch, rev, tag, .. } => line(
            name,
        ) && line_opt(version) && lines(features) && line(url) && line_opt(branch) && line_opt(rev)
            && line_opt(tag),
        DependencyValue::Path { name, path, version, features, .. } => line(name) && line_opt(
            version,
        ) && lines(features) && line(path),
    }
}

proof fn lemma_literals_on_one_line()
    ensures
        !" = "@.contains('\n'),
        !"\""@.contains('\n'),
        !"*"@.contains('\n'),
        !" = { "@.contains('\n'),
        !", "@.contains('\n'),
        !" }"@.contains('\n'),
        !"version = "@.contains('\n'),
        !"git = "@.contains('\n'),
        !"branch = "@.contains('\n'),
        !"rev = "@.contains('\n'),
        !"tag = "@.contains('\n'),
        !"path = "@.contains('\n'),
        !"default-features = false"@.contains('\n'),
        !"features = [\""@.contains('\n'),
        !"\", \""@.contains('\n'),
        !"\"]"@.contains('\n'),
{
    reveal_strlit(" = ");
    reveal_strlit("\"");
    reveal_strlit("*");
    reveal_strlit(" = { ");
    reveal_strlit(", ");
    reveal_strlit(" }");
    reveal_strlit("version = ");
    reveal_strlit("git = ");
    reveal_strlit("branch = ");
    reveal_strlit("rev = ");
    reveal_strlit("tag = ");
    reveal_strlit("path = ");
    reveal_strlit("default-features = false");
    reveal_strlit("features = [\"");
    reveal_strlit("\", \"");
    reveal_strlit("\"]");
}

proof fn lemma_quoted_on_one_line(key: Seq<char>, v: Seq<char>)
    requires
        !key.contains('\n'),
        !v.contains('\n'),
    ensures
        !(key + quoted(v)).contains('\n'),
        !quoted(v).contains('\n'),
{
    lemma_literals_on_one_line();
    lemma_concat_without("\""@, v, '\n');
    lemma_concat_without("\""@ + v, "\""@, '\n');
    lemma_concat_without(key, quoted(v), '\n');
}

proof fn lemma_entries_on_one_line(d: DependencyValue)
    requires
        fields_on_one_line(d),
    ensures
        forall|i: int|
            0 <= i < toml_entries(d).len() ==> !(#[trigger] toml_entries(d)[i]).contains('\n'),
{
    lemma_literals_on_one_line();
    let (features, default_features) = match d {
        DependencyValue::CratesIo { features, default_features, .. } => (features, default_features),
        DependencyValue::Repository { features, default_features, .. } => (
            features,
            default_features,
        ),
        DependencyValue::Path { features, default_features, .. } => (features, default_features),
    };
    lemma_join_without(features, "\", \""@, '\n');
    lemma_concat_without("features = [\""@, join(features, "\", \""@), '\n');
    lemma_concat_without("features = [\""@ + join(features, "\", \""@), "\"]"@, '\n');
    let closing = closing_entries(default_features, features);
    assert(forall|i: int| 0 <= i < closing.len() ==> !(#[trigger] closing[i]).contains('\n'));
    let entries = toml_entries(d);
    match d {
        DependencyValue::CratesIo { version, .. } => {
            reveal_strlit("*");
            let v = version.unwrap_or("*"@);
            lemma_quoted_on_one_line("version = "@, v);
            let head = seq!["version = "@ + quoted(v)];
            assert(entries == head + closing);
            assert forall|i: int| 0 <= i < entries.len() implies !(#[trigger] entries[i]).contains('\n') by {
                if i < 1 {
                    assert(entries[i] == head[i]);
                } else {
                    assert(entries[i] == closing[i - 1]);
                }
            }
        },
        DependencyValue::Repository { version, url, branch, rev, tag, .. } => {
            lemma_quoted_on_one_line("git = "@, url);
            let parts = seq![
                seq!["git = "@ + quoted(url)],
                optional_entry("branch = "@, branch),
                optional_entry("rev = "@, rev),
                optional_entry("tag = "@, tag),
                optional_entry("version = "@, version),
                closing,
            ];
            if let Some(b) = branch {
                lemma_quoted_on_one_line("branch = "@, b);
            }
            if let Some(r) = rev {
                lemma_quoted_on_one_line("rev = "@, r);
            }
            if let Some(t) = tag {
                lemma_quoted_on_one_line("tag = "@, t);
            }
            if let Some(v) = version {
                lemma_quoted_on_one_line("version = "@, v);
            }
            let a = parts[0];
            let b = parts[1];
            let c = parts[2];
            let e = parts[3];
            let f = parts[4];
            assert(entries == a + b + c + e + f + closing);
            assert forall|i: int| 0 <= i < entries.len() implies !(#[trigger] entries[i]).contains('\n') by {
                let n0 = a.len() as int;
                let n1 = n0 + b.len();
                let n2 = n1 + c.len();
                let n3 = n2 + e.len();
                let n4 = n3 + f.len();
                if i < n0 {
                    assert(entries[i] == a[i]);
                } else if i < n1 {
                    assert(entries[i] == b[i - n0]);
                } else if i < n2 {
                    assert(entries[i] == c[i - n1]);
                } else if i < n3 {
                    assert(entries[i] == e[i - n2]);
                } else if i < n4 {
                    assert(entries[i] == f[i - n3]);
                } else {
                    assert(entries[i] == closing[i - n4]);
                }
            }
        },
        DependencyValue::Path { version, path, .. } => {
            lemma_quoted_on_one_line("path = "@, path);
            if let Some(v) = version {
                lemma_quoted_on_one_line("version = "@, v);
            }
            let a = seq!["path = "@ + quoted(path)];
            let b = optional_entry("version = "@, version);
            assert(entries == a + b + closing);
            assert forall|i: int| 0 <= i < entries.len() implies !(#[trigger] entries[i]).contains('\n') by {
                let n0 = a.len() as int;
                let n1 = n0 + b.len();
                if i < n0 {
                    assert(entries[i] == a[i]);
                } else if i < n1 {
                    assert(entries[i] == b[i - n0]);
                } else {
                    assert(entries[i] == closing[i - n1]);
                }
            }
        },
    }
}

/// A dependency that is not long is written on one line (and so is a
/// crates.io dependency with its default features only, however long).
pub proof fn short_dependencies_fit_on_one_line(d: DependencyValue)
    requires
        fields_on_one_line(d),
        !long_form(d) || (d matches DependencyValue::CratesIo { features, default_features, .. }
            && default_features && features.len() == 0),
    ensures
        !toml_text(d).contains('\n'),
{
    lemma_literals_on_one_line();
    reveal_strlit("*");
    match d {
        DependencyValue::CratesIo { name, version, features, default_features } if default_features
            && features.len() == 0 => {
            let v = version.unwrap_or("*"@);
            lemma_quoted_on_one_line(" = "@, v);
            lemma_concat_without(name, " = "@ + quoted(v), '\n');
            assert(name + " = "@ + quoted(v) =~= name + (" = "@ + quoted(v)));
        },
        _ => {
            lemma_entries_on_one_line(d);
            let name = package_name(d);
            let entries = toml_entries(d);
            lemma_join_without(entries, ", "@, '\n');
            lemma_concat_without(name, " = { "@, '\n');
            lemma_concat_without(name + " = { "@, join(entries, ", "@), '\n');
            lemma_concat_without(name + " = { "@ + join(entries, ", "@), " }"@, '\n');
            assert(toml_text(d) == inline_table(name, entries));
        },
    }
}


// ---------------------------------------------------------------------------
// The table form
// ---------------------------------------------------------------------------

/// The entries of a long dependency are broken into lines one per entry:
/// not for a crates.io dependency with its default features and other
/// features, nor for a git dependency with its default features and no
/// features that has a version and no reference, or no version and more
/// than one reference.
pub open spec fn one_entry_per_line(d: DependencyValue) -> bool {
    match d {
        DependencyValue::CratesIo { default_features, features, .. } => !(default_features
            && features.len() > 0),
        DependencyValue::Repository { version, default_features, features, branch, rev, tag, .. } => {
            let refs = (if branch is Some {
                1int
            } else {
                0
            }) + (if rev is Some {
                1int
            } else {
                0
            }) + (if tag is Some {
                1int
            } else {
                0
            });
            !(default_features && features.len() == 0 && ((version is Some && refs == 0) || (
            version is None && refs >= 2)))
        },
        DependencyValue::Path { .. } => true,
    }
}

proof fn lemma_table_all_breaks(entries: Seq<Seq<char>>, breaks: Seq<bool>)
    requires
        entries.len() >= 1,
        breaks.len() == entries.len(),
        forall|i: int| 0 <= i < breaks.len() ==> #[trigger] breaks[i],
    ensures
        table_body(entries, breaks) == join(entries, "\n"@) + "\n"@,
    decreases entries.len(),
{
    if entries.len() == 1 {
        assert(table_body(entries.drop_last(), breaks.drop_last()) == Seq::<char>::empty());
        assert(Seq::<char>::empty() + entries.last() =~= entries[0]);
    } else {
        let e = entries.drop_last();
        let b = breaks.drop_last();
        assert forall|i: int| 0 <= i < b.len() implies #[trigger] b[i] by {
            assert(b[i] == breaks[i]);
        }
        lemma_table_all_breaks(e, b);
        assert(breaks[entries.len() - 1]);
    }
}

proof fn lemma_table_lines(entries: Seq<Seq<char>>, breaks: Seq<bool>)
    requires
        entries.len() >= 1,
        breaks.len() == entries.len(),
        forall|i: int| 0 <= i < breaks.len() ==> #[trigger] breaks[i] == (i < breaks.len() - 1),
    ensures
        table_body(entries, breaks) == join(entries, "\n"@),
{
    let e = entries.drop_last();
    let b = breaks.drop_last();
    assert(!breaks[entries.len() - 1]);
    if entries.len() == 1 {
        assert(table_body(e, b) == Seq::<char>::empty());
        assert(Seq::<char>::empty() + entries.last() + Seq::<char>::empty() =~= entries[0]);
    } else {
        assert forall|i: int| 0 <= i < b.len() implies #[trigger] b[i] by {
            assert(b[i] == breaks[i]);
        }
        lemma_table_all_breaks(e, b);
        assert(table_body(entries, breaks) =~= table_body(e, b) + entries.last());
    }
}

proof fn lemma_entries_match_breaks(d: DependencyValue)
    ensures
        toml_breaks(d).len() == toml_entries(d).len(),
        toml_entries(d).len() >= 1,
{
    match d {
        DependencyValue::CratesIo { default_features, features, .. } => {
            assert(closing_breaks(default_features, features).len() == closing_entries(
                default_features,
                features,
            ).len());
        },
        DependencyValue::Repository { version, default_features, features, branch, rev, tag, .. } => {
            assert(closing_breaks(default_features, features).len() == closing_entries(
                default_features,
                features,
            ).len());
            assert(optional_break(branch, true).len() == optional_entry("branch = "@, branch).len());
            assert(optional_break(rev, true).len() == optional_entry("rev = "@, rev).len());
            assert(optional_break(tag, true).len() == optional_entry("tag = "@, tag).len());
            assert(optional_break(version, true).len() == optional_entry("version = "@, version).len());
        },
        DependencyValue::Path { version, default_features, features, .. } => {
            assert(closing_breaks(default_features, features).len() == closing_entries(
                default_features,
                features,
            ).len());
            assert(optional_break(version, true).len() == optional_entry("version = "@, version).len());
        },
    }
}

/// Breaks after every item but the last.
spec fn line_breaks(b: Seq<bool>) -> bool {
    &&& b.len() >= 1
    &&& forall|i: int| 0 <= i < b.len() ==> #[trigger] b[i] == (i < b.len() - 1)
}

spec fn all_breaks(b: Seq<bool>) -> bool {
    forall|i: int| 0 <= i < b.len() ==> #[trigger] b[i]
}

proof fn lemma_lines_after_breaks(a: Seq<bool>, b: Seq<bool>)
    requires
        all_breaks(a),
        line_breaks(b),
    ensures
        line_breaks(a + b),
{
    let s = a + b;
    assert forall|i: int| 0 <= i < s.len() implies #[trigger] s[i] == (i < s.len() - 1) by {
        if i < a.len() {
            assert(s[i] == a[i]);
        } else {
            assert(s[i] == b[i - a.len()]);
        }
    }
}

proof fn lemma_breaks_join(a: Seq<bool>, b: Seq<bool>)
    requires
        all_breaks(a),
        all_breaks(b),
    ensures
        all_breaks(a + b),
{
    let s = a + b;
    assert forall|i: int| 0 <= i < s.len() implies #[trigger] s[i] by {
        if i < a.len() {
            assert(s[i] == a[i]);
        } else {
            assert(s[i] == b[i - a.len()]);
        }
    }
}

proof fn lemma_closing_lines(default_features: bool, features: Seq<Seq<char>>)
    requires
        !(default_features && features.len() == 0),
    ensures
        line_breaks(closing_breaks(default_features, features)),
{
    let c = closing_breaks(default_features, features);
    if default_features {
        assert(c =~= seq![false]);
    } else if features.len() > 0 {
        assert(c =~= seq![true, false]);
    } else {
        assert(c =~= seq![false]);
    }
}

proof fn lemma_breaks_are_lines(d: DependencyValue)
    requires
        !(d matches DependencyValue::CratesIo { features, default_features, .. }
            && default_features && features.len() == 0),
        one_entry_per_line(d),
    ensures
        toml_breaks(d).len() == toml_entries(d).len(),
        line_breaks(toml_breaks(d)),
{
    lemma_entries_match_breaks(d);
    match d {
        DependencyValue::CratesIo { default_features, features, .. } => {
            lemma_closing_lines(default_features, features);
            lemma_lines_after_breaks(seq![true], closing_breaks(default_features, features));
        },
        DependencyValue::Repository { version, default_features, features, branch, rev, tag, .. } => {
            let bare = default_features && features.len() == 0;
            let x = !(version is None && bare);
            let a = seq![!(branch is None && rev is None && tag is None && bare)];
            let b = optional_break(branch, x);
            let c = optional_break(rev, x);
            let t = optional_break(tag, x);
            let e = optional_break(version, !bare);
            let f = closing_breaks(default_features, features);
            assert(toml_breaks(d) == a + b + c + t + e + f);
            if !bare {
                lemma_closing_lines(default_features, features);
                lemma_breaks_join(a, b);
                lemma_breaks_join(a + b, c);
                lemma_breaks_join(a + b + c, t);
                lemma_breaks_join(a + b + c + t, e);
                lemma_lines_after_breaks(a + b + c + t + e, f);
            } else if version is Some {
                assert(f =~= Seq::<bool>::empty());
                assert(e =~= seq![false]);
                lemma_breaks_join(a, b);
                lemma_breaks_join(a + b, c);
                lemma_breaks_join(a + b + c, t);
                lemma_lines_after_breaks(a + b + c + t, e);
                assert(a + b + c + t + e + f =~= a + b + c + t + e);
            } else {
                assert(f =~= Seq::<bool>::empty());
                assert(e =~= Seq::<bool>::empty());
                let all = a + b + c + t + e + f;
                if branch is Some {
                    assert(all =~= seq![true, false]);
                } else if rev is Some {
                    assert(all =~= seq![true, false]);
                } else if tag is Some {
                    assert(all =~= seq![true, false]);
                } else {
                    assert(all =~= seq![false]);
                }
            }
        },
        DependencyValue::Path { version, default_features, features, .. } => {
            let bare = default_features && features.len() == 0;
            let a = seq![!(version is None && bare)];
            let e = optional_break(version, !bare);
            let f = closing_breaks(default_features, features);
            assert(toml_breaks(d) == a + e + f);
            if !bare {
                lemma_closing_lines(default_features, features);
                lemma_breaks_join(a, e);
                lemma_lines_after_breaks(a + e, f);
            } else {
                assert(f =~= Seq::<bool>::empty());
                if version is Some {
                    assert(a + e + f =~= seq![true, false]);
                } else {
                    assert(a + e + f =~= seq![false]);
                }
            }
        },
    }
}

/// A long dependency (other than a crates.io one with its default features
/// only) is written as `[dependencies.NAME]` followed by its entries, one
/// per line, wherever its entries are broken into lines one per entry; an
/// entry holds no line break when the fields hold none.
pub proof fn one_key_per_line(d: DependencyValue)
    requires
        long_form(d),
        !(d matches DependencyValue::CratesIo { features, default_features, .. }
            && default_features && features.len() == 0),
        one_entry_per_line(d),
    ensures
        toml_text(d) == "[dependencies."@ + package_name(d) + "]\n"@ + join(toml_entries(d), "\n"@),
        fields_on_one_line(d) ==> forall|i: int|
            0 <= i < toml_entries(d).len() ==> !(#[trigger] toml_entries(d)[i]).contains('\n'),
{
    let entries = toml_entries(d);
    let breaks = toml_breaks(d);
    lemma_breaks_are_lines(d);
    lemma_table_lines(entries, breaks);
    if fields_on_one_line(d) {
        lemma_entries_on_one_line(d);
    }
}

// ---------------------------------------------------------------------------
// Growing a dependency
// ---------------------------------------------------------------------------

/// An optional value that grows: it was absent, or it takes at least as many bytes.
pub open spec fn optional_grows(a: Option<Seq<char>>, b: Option<Seq<char>>) -> bool {
    match a {
        None => true,
        Some(x) => match b {
            Some(y) => byte_len(x) <= byte_len(y),
            None => false,
        },
    }
}

/// A list of features that grows: the features stay, each taking at least
/// as many bytes, and more may follow.
pub open spec fn features_grow(a: Seq<Seq<char>>, b: Seq<Seq<char>>) -> bool {
    &&& a.len() <= b.len()
    &&& forall|i: int| 0 <= i < a.len() ==> byte_len(#[trigger] a[i]) <= byte_len(b[i])
}

/// `d2` is `d` grown: the same kind of source, each text taking at least as
/// many bytes, optional values only added or grown, features only grown or
/// added, and the default features only turned off.
pub open spec fn grown(d: DependencyValue, d2: DependencyValue) -> bool {
    match (d, d2) {
        (
            DependencyValue::CratesIo { name, version, features, default_features },
            DependencyValue::CratesIo {
                name: name2,
                version: version2,
                features: features2,
                default_features: default_features2,
            },
        ) => byte_len(name) <= byte_len(name2) && optional_grows(version, version2) && features_grow(
            features,
            features2,
        ) && (default_features2 ==> default_features),
        (
            DependencyValue::Repository {
                name,
                version,
                features,
                default_features,
                url,
                branch,
                rev,
                tag,
            },
            DependencyValue::Repository {
                name: name2,
                version: version2,
                features: features2,
                default_features: default_features2,
                url: url2,
                branch: branch2,
                rev: rev2,
                tag: tag2,
            },
        ) => byte_len(name) <= byte_len(name2) && optional_grows(version, version2) && features_grow(
            features,
            features2,
        ) && (default_features2 ==> default_features) && byte_len(url) <= byte_len(url2)
            && optional_grows(branch, branch2) && optional_grows(rev, rev2) && optional_grows(
            tag,
            tag2,
        ),
        (
            DependencyValue::Path { name, path, version, features, default_features },
            DependencyValue::Path {
                name: name2,
                path: path2,
                version: version2,
                features: features2,
                default_features: default_features2,
            },
        ) => byte_len(name) <= byte_len(name2) && optional_grows(version, version2) && features_grow(
            features,
            features2,
        ) && (default_features2 ==> default_features) && byte_len(path) <= byte_len(path2),
        _ => false,
    }
}

proof fn lemma_optional_grows(a: Option<Seq<char>>, b: Option<Seq<char>>, extra: int)
    requires
        optional_grows(a, b),
        extra >= 0,
    ensures
        optional_weight(a, extra) <= optional_weight(b, extra),
{
    if let Some(y) = b {
        lemma_byte_len_nonneg(y);
    }
}

proof fn lemma_features_grow(a: Seq<Seq<char>>, b: Seq<Seq<char>>)
    requires
        features_grow(a, b),
    ensures
        features_weight(a) <= features_weight(b),
    decreases b.len(),
{
    if b.len() > a.len() {
        let b1 = b.drop_last();
        assert forall|i: int| 0 <= i < a.len() implies byte_len(#[trigger] a[i]) <= byte_len(b1[i]) by {
            assert(b1[i] == b[i]);
        }
        lemma_features_grow(a, b1);
        lemma_byte_len_nonneg(b.last());
    } else if a.len() > 0 {
        let a1 = a.drop_last();
        let b1 = b.drop_last();
        assert forall|i: int| 0 <= i < a1.len() implies byte_len(#[trigger] a1[i]) <= byte_len(b1[i]) by {
            assert(a1[i] == a[i]);
            assert(b1[i] == b[i]);
        }
        lemma_features_grow(a1, b1);
        assert(byte_len(a[a.len() - 1]) <= byte_len(b[a.len() - 1]));
    }
}

/// A long dependency stays long as it grows: the estimate of its inline
/// length does not shrink.
pub proof fn growing_keeps_a_dependency_long(d: DependencyValue, d2: DependencyValue)
    requires
        grown(d, d2),
    ensures
        toml_weight(d) <= toml_weight(d2),
        long_form(d) ==> long_form(d2),
{
    match (d, d2) {
        (
            DependencyValue::CratesIo { version, features, .. },
            DependencyValue::CratesIo { version: version2, features: features2, .. },
        ) => {
            lemma_optional_grows(version, version2, 10);
            lemma_features_grow(features, features2);
        },
        (
            DependencyValue::Repository { version, features, branch, rev, tag, .. },
            DependencyValue::Repository {
                version: version2,
                features: features2,
                branch: branch2,
                rev: rev2,
                tag: tag2,
                ..
            },
        ) => {
            lemma_optional_grows(version, version2, 9);
            lemma_optional_grows(branch, branch2, 10);
            lemma_optional_grows(rev, rev2, 6);
            lemma_optional_grows(tag, tag2, 6);
            lemma_features_grow(features, features2);
        },
        (
            DependencyValue::Path { version, features, .. },
            DependencyValue::Path { version: version2, features: features2, .. },
        ) => {
            lemma_optional_grows(version, version2, 9);
            lemma_features_grow(features, features2);
        },
        _ => {},
    }
}

// ---------------------------------------------------------------------------
// Reading more of a dependency
// ---------------------------------------------------------------------------

/// `d` with the feature `f` added after its features.
pub open spec fn with_feature(d: DependencyValue, f: Seq<char>) -> DependencyValue {
    match d {
        DependencyValue::CratesIo { name, version, features, default_features } =>
            DependencyValue::CratesIo { name, version, features: features.push(f), default_features },
        DependencyValue::Repository {
            name,
            version,
            features,
            default_features,
            url,
            branch,
            rev,
            tag,
        } => DependencyValue::Repository {
            name,
            version,
            features: features.push(f),
            default_features,
            url,
            branch,
            rev,
            tag,
        },
        DependencyValue::Path { name, path, version, features, default_features } =>
            DependencyValue::Path { name, path, version, features: features.push(f), default_features },
    }
}

/// The captured groups with `+F` appended to the features group.
pub open spec fn groups_with_feature(c: CaptureGroups, f: Seq<char>) -> CaptureGroups {
    let x = match c.7 {
        Some(x) => x,
        None => Seq::empty(),
    };
    (c.0, c.1, c.2, c.3, c.4, c.5, c.6, Some(x + "+"@ + f))
}

/// A feature `+F` that follows the features read adds `F` after them and
/// changes nothing else; an error stays the same error.
pub proof fn an_added_feature_comes_last(c: CaptureGroups, f: Seq<char>)
    requires
        !f.contains('+'),
    ensures
        dependency_from_groups(groups_with_feature(c, f)) == match dependency_from_groups(c) {
            Ok(d) => Ok(with_feature(d, f)),
            Err(e) => Err(e),
        },
{
    reveal_strlit("+");
    let x = match c.7 {
        Some(x) => x,
        None => Seq::empty(),
    };
    let q = x + "+"@;
    assert(q.drop_last() =~= x);
    assert(q.last() == '+');
    lemma_split_progress_append(q, f, '+');
    let (d0, o0) = split_progress(x, '+');
    assert(split_progress(q, '+') == (d0.push(o0), Seq::<char>::empty()));
    assert(Seq::<char>::empty() + f =~= f);
    assert(x + "+"@ + f == q + f);
    assert(split_on(q + f, '+') =~= split_on(x, '+').push(f));
    assert(split_on(x, '+').push(f).skip(1) =~= split_on(x, '+').skip(1).push(f));
    if c.7 is None {
        assert(split_on(Seq::<char>::empty(), '+') =~= seq![Seq::<char>::empty()]);
        assert(split_on(x, '+').skip(1) =~= Seq::<Seq<char>>::empty());
    }
    assert(listed_features(groups_with_feature(c, f).7) == listed_features(c.7).push(f));
}

/// In the first syntax, `NAME=URL` reads as `URL` when `NAME` is the name
/// that the URL ends with: the groups captured differ only by the name.
pub proof fn naming_a_repository_after_its_url(
    s1: Seq<char>,
    s2: Seq<char>,
    n: Seq<char>,
    version: Option<Seq<char>>,
    u: Seq<char>,
    branch: Option<Seq<char>>,
    rev: Option<Seq<char>>,
    features: Option<Seq<char>>,
)
    requires
        unix_file_stem(u) == Some(n),
    ensures
        crate::dependency_from_groups(s1, (Some(n), version, Some(u), branch, rev, features))
            == crate::dependency_from_groups(s2, (None, version, Some(u), branch, rev, features)),
{
}


// ---------------------------------------------------------------------------
// Preserving a project
// ---------------------------------------------------------------------------

/// A name for a directory: not empty, without `/`, and neither `.` nor `..`.
pub open spec fn plain_name(n: Seq<char>) -> bool {
    n.len() > 0 && !n.contains('/') && n != seq!['.'] && n != seq!['.', '.']
}

proof fn lemma_push_file_name(p: Seq<char>, n: Seq<char>)
    requires
        plain_name(n),
    ensures
        path_file_name(path_push(p, n)) == Some(n),
{
    let s = path_push(p, n);
    assert(n[0] != '/') by {
        if n[0] == '/' {
            assert(n.contains('/'));
        }
    }
    let k: int = if p.len() > 0 && p.last() != '/' {
        assert(s =~= p + seq!['/'] + n);
        p.len() as int
    } else {
        assert(s =~= p + n);
        p.len() - 1
    };
    assert(s.len() == k + 1 + n.len());
    assert(k >= 0 ==> s[k] == '/');
    assert forall|j: int| k < j < s.len() implies s[j] == n[j - k - 1] && s[j] != '/' by {
        if s[j] == '/' {
            assert(n[j - k - 1] == '/');
            assert(n.contains('/'));
        }
    }
    let base = body_start(s);
    assert(base <= k + 1) by {
        if k < 0 {
            assert(s =~= n);
            if n.len() == 1 && n[0] == '.' {
                assert(n =~= seq!['.']);
            }
            if n.len() > 1 {
                assert(s[1] == n[1]);
            }
        }
    }
    let len = s.len() as int;
    lemma_last_slash(s, base, len);
    let r = last_slash(s, base, len);
    if r != k {
        if r > k {
            assert(s[r] == '/');
        } else {
            assert(k >= base);
            assert(s[k] == '/');
        }
    }
    assert(last_piece(s, base, len) =~= n);
    assert(!no_component(n));
}

/// A preserved project takes the name given for it; without one it keeps
/// its own directory name, in the directory of preserved projects when
/// that is configured. Kept where it is, with neither, it is not moved.
/// There is no target only when a directory of preserved projects is
/// configured and the project's path has no file name.
pub proof fn a_preserved_project_keeps_or_takes_its_name(
    dir: Seq<char>,
    project_name: Option<Seq<char>>,
    preserved_dir: Option<Seq<char>>,
)
    requires
        project_name matches Some(n) ==> plain_name(n),
    ensures
        preserved_path(dir, None, None) == Some(dir),
        !needs_move(dir, Some(dir)),
        match preserved_path(dir, project_name, preserved_dir) {
            Some(t) => path_file_name(t) == match project_name {
                Some(n) => Some(n),
                None => path_file_name(dir),
            },
            None => preserved_dir is Some && path_file_name(dir) is None,
        },
{
    if let Some(d) = preserved_dir {
        if let Some(f) = path_file_name(dir) {
            let base = body_start(dir);
            let e = trim_back(dir, base, dir.len() as int);
            lemma_trim_back_bounds(dir, base, dir.len() as int);
            lemma_last_slash(dir, base, e);
            assert forall|j: int| 0 <= j < f.len() implies f[j] != '/' by {
                assert(f[j] == dir[last_slash(dir, base, e) + 1 + j]);
            }
            assert(!f.contains('/'));
            lemma_push_file_name(d, f);
        }
    }
    let moved = match preserved_dir {
        Some(d) => match path_file_name(dir) {
            Some(f) => Some(path_push(d, f)),
            None => None,
        },
        None => Some(dir),
    };
    if let Some(m) = moved {
        if let Some(n) = project_name {
            lemma_push_file_name(
                if path_file_name(m) is Some {
                    path_parent(m)
                } else {
                    m
                },
                n,
            );
        }
    }
}


// ---------------------------------------------------------------------------
// Local paths, answers, editions and benchmarks
// ---------------------------------------------------------------------------

/// The package name of a local path is its last component: separators
/// that end the path (as shell completion adds them) do not change it.
/// So the groups of a path source `Q N T`, where `Q` is empty or ends with
/// a separator, `N` is a non-empty component and `T` is made of
/// separators, read as a path dependency named `N`.
pub proof fn trailing_separators_keep_the_package_name(
    c: CaptureGroups,
    q: Seq<char>,
    n: Seq<char>,
    t: Seq<char>,
)
    requires
        q.len() == 0 || q.last() == '/' || q.last() == '\\',
        n.len() > 0,
        forall|i: int| 0 <= i < n.len() ==> #[trigger] n[i] != '/' && n[i] != '\\',
        forall|i: int| 0 <= i < t.len() ==> #[trigger] t[i] == '/' || t[i] == '\\',
        c.0 is None,
        c.1 == Some(q + n + t),
    ensures
        path_package_name(q + n + t) == n,
        dependency_from_groups(c) matches Ok(DependencyValue::Path { name, path, .. })
            && name == n && path == q + n + t,
{
    let seps = seq!['/', '\\'];
    let s = q + n + t;
    let i: int = (q.len() + n.len()) as int;
    assert(s[i - 1] == n[n.len() - 1]);
    assert(!seps.contains(s[i - 1])) by {
        if seps.contains(s[i - 1]) {
            let k = choose|k: int| 0 <= k < seps.len() && seps[k] == s[i - 1];
            assert(seps[k] == '/' || seps[k] == '\\');
        }
    }
    assert forall|j: int| i <= j < s.len() implies seps.contains(#[trigger] s[j]) by {
        assert(s[j] == t[j - i]);
        if t[j - i] == '/' {
            assert(seps[0] == s[j]);
        } else {
            assert(seps[1] == s[j]);
        }
    }
    lemma_trim_end_chars(s, seps, i);
    let u = s.subrange(0, i);
    assert(u =~= q + n);
    if q.len() > 0 {
        assert(u[q.len() - 1] == q.last());
        if q.last() == '/' {
            assert(seps[0] == u[q.len() - 1]);
        } else {
            assert(seps[1] == u[q.len() - 1]);
        }
    }
    assert forall|j: int| q.len() <= j < u.len() implies !seps.contains(#[trigger] u[j]) by {
        assert(u[j] == n[j - q.len()]);
        if seps.contains(u[j]) {
            let k = choose|k: int| 0 <= k < seps.len() && seps[k] == u[j];
            assert(seps[k] == '/' || seps[k] == '\\');
        }
    }
    lemma_after_last(u, seps, q.len() as int);
    assert(u.subrange(q.len() as int, u.len() as int) =~= n);
    assert(path_separators() == seps);
}

proof fn lemma_answers_differ()
    ensures
        "N"@ != "Y"@,
        "N"@ != "y"@,
        "n"@ != "Y"@,
        "n"@ != "y"@,
        "No"@ != "Yes"@,
        "No"@ != "yes"@,
        "no"@ != "Yes"@,
        "no"@ != "yes"@,
        "N"@ != ""@,
        "n"@ != ""@,
        "No"@ != ""@,
        "no"@ != ""@,
        "No"@ != "Y"@,
        "No"@ != "y"@,
        "no"@ != "Y"@,
        "no"@ != "y"@,
        "N"@ != "Yes"@,
        "N"@ != "yes"@,
        "n"@ != "Yes"@,
        "n"@ != "yes"@,
{
    reveal_strlit("");
    reveal_strlit("Yes");
    reveal_strlit("yes");
    reveal_strlit("Y");
    reveal_strlit("y");
    reveal_strlit("No");
    reveal_strlit("no");
    reveal_strlit("N");
    reveal_strlit("n");
    assert(""@.len() == 0 && "Y"@.len() == 1 && "y"@.len() == 1 && "N"@.len() == 1 && "n"@.len() == 1);
    assert("Yes"@.len() == 3 && "yes"@.len() == 3 && "No"@.len() == 2 && "no"@.len() == 2);
    assert("N"@[0] != "Y"@[0]);
    assert("N"@[0] != "y"@[0]);
    assert("n"@[0] != "Y"@[0]);
    assert("n"@[0] != "y"@[0]);
}

proof fn lemma_editions_differ()
    ensures
        "21"@ != "15"@,
        "21"@ != "18"@,
        "18"@ != "15"@,
        "2021"@ != "2015"@,
        "2021"@ != "2018"@,
        "2018"@ != "2015"@,
        "21"@ != "2015"@,
        "21"@ != "2018"@,
        "18"@ != "2015"@,
        "2021"@ != "15"@,
        "2021"@ != "18"@,
        "2018"@ != "15"@,
{
    reveal_strlit("15");
    reveal_strlit("2015");
    reveal_strlit("18");
    reveal_strlit("2018");
    reveal_strlit("21");
    reveal_strlit("2021");
    assert("15"@.len() == 2 && "18"@.len() == 2 && "21"@.len() == 2);
    assert("2015"@.len() == 4 && "2018"@.len() == 4 && "2021"@.len() == 4);
    assert("21"@[0] != "15"@[0]);
    assert("21"@[0] != "18"@[0]);
    assert("18"@[1] != "15"@[1]);
    assert("2021"@[2] != "2015"@[2]);
    assert("2021"@[2] != "2018"@[2]);
    assert("2018"@[3] != "2015"@[3]);
}

proof fn lemma_padded_answer(w1: Seq<char>, a: Seq<char>, w2: Seq<char>)
    requires
        forall|i: int| 0 <= i < w1.len() ==> is_white_space(#[trigger] w1[i]),
        forall|i: int| 0 <= i < w2.len() ==> is_white_space(#[trigger] w2[i]),
        a.len() == 0 || (!is_white_space(a[0]) && !is_white_space(a.last())),
    ensures
        trimmed(w1 + a + w2) == a,
{
    let s = w1 + a + w2;
    if a.len() == 0 {
        assert forall|j: int| 0 <= j < s.len() implies is_white_space(#[trigger] s[j]) by {
            if j < w1.len() {
                assert(s[j] == w1[j]);
            } else {
                assert(s[j] == w2[j - w1.len()]);
            }
        }
        lemma_trim_end_space(s, 0);
        assert(s.subrange(0, 0) =~= Seq::<char>::empty());
        lemma_trim_start_space(Seq::<char>::empty(), 0);
        assert(Seq::<char>::empty().skip(0) =~= a);
    } else {
        let i: int = (w1.len() + a.len()) as int;
        assert(s[i - 1] == a.last());
        assert forall|j: int| i <= j < s.len() implies is_white_space(#[trigger] s[j]) by {
            assert(s[j] == w2[j - i]);
        }
        lemma_trim_end_space(s, i);
        let u = s.subrange(0, i);
        assert(u =~= w1 + a);
        assert(u[w1.len() as int] == a[0]);
        assert forall|j: int| 0 <= j < w1.len() implies is_white_space(#[trigger] u[j]) by {
            assert(u[j] == w1[j]);
        }
        lemma_trim_start_space(u, w1.len() as int);
        assert(u.skip(w1.len() as int) =~= a);
    }
}

/// Yes, asked whether to delete the project, deletes it, as a project
/// whose `TO_DELETE` is still there is deleted without the prompt: an
/// empty answer, `Yes`, `yes`, `Y` or `y` (white space around it does not
/// count) removes a named-branch worktree with `git worktree remove --force`
/// or else discards the directory; it never preserves the project.
pub proof fn a_yes_deletes_the_project(
    req: RequestValue,
    config: Config,
    env: EnvironmentValue,
    dir: Seq<char>,
    shell_error: Option<Seq<char>>,
    w1: Seq<char>,
    a: Seq<char>,
    w2: Seq<char>,
)
    requires
        a == ""@ || a == "Yes"@ || a == "yes"@ || a == "Y"@ || a == "y"@,
        forall|i: int| 0 <= i < w1.len() ==> is_white_space(#[trigger] w1[i]),
        forall|i: int| 0 <= i < w2.len() ==> is_white_space(#[trigger] w2[i]),
    ensures
        ({
            let (stage, action) = next(
                req,
                config,
                env,
                StageValue::Asking { dir, shell_error },
                EventValue::Answered(w1 + a + w2),
            );
            &&& action !is Preserve
            &&& match req.worktree_branch {
                Some(Some(_)) => {
                    &&& stage == StageValue::RemovingWorktree { shell_error }
                    &&& action matches ActionValue::Run(c)
                    &&& c.program == "git"@
                    &&& c.args == seq!["worktree"@, "remove"@, dir, "--force"@]
                },
                _ => {
                    &&& stage == StageValue::StoppingSubprocesses { shell_error }
                    &&& action == ActionValue::StopSubprocesses { discard_project: true }
                },
            }
            &&& (stage, action) == next(
                req,
                Config { prompt: false, ..config },
                env,
                StageValue::CheckingDeleteFile { dir, shell_error },
                EventValue::DeleteFileFound(true),
            )
        }),
{
    reveal_strlit("");
    reveal_strlit("Yes");
    reveal_strlit("yes");
    reveal_strlit("Y");
    reveal_strlit("y");
    reveal_strlit("No");
    reveal_strlit("no");
    reveal_strlit("N");
    reveal_strlit("n");
    lemma_padded_answer(w1, a, w2);
}

/// No, asked whether to delete the project, preserves it: `No`, `no`, `N`
/// or `n` (white space around it does not count).
pub proof fn a_no_preserves_the_project(
    req: RequestValue,
    config: Config,
    env: EnvironmentValue,
    dir: Seq<char>,
    shell_error: Option<Seq<char>>,
    w1: Seq<char>,
    a: Seq<char>,
    w2: Seq<char>,
)
    requires
        a == "No"@ || a == "no"@ || a == "N"@ || a == "n"@,
        forall|i: int| 0 <= i < w1.len() ==> is_white_space(#[trigger] w1[i]),
        forall|i: int| 0 <= i < w2.len() ==> is_white_space(#[trigger] w2[i]),
    ensures
        ({
            let (stage, action) = next(
                req,
                config,
                env,
                StageValue::Asking { dir, shell_error },
                EventValue::Answered(w1 + a + w2),
            );
            &&& stage == StageValue::Preserving { shell_error }
            &&& action matches ActionValue::Preserve { dir: d, .. } && d == dir
        }),
{
    reveal_strlit("");
    reveal_strlit("Yes");
    reveal_strlit("yes");
    reveal_strlit("Y");
    reveal_strlit("y");
    reveal_strlit("No");
    reveal_strlit("no");
    reveal_strlit("N");
    reveal_strlit("n");
    lemma_answers_differ();
    lemma_padded_answer(w1, a, w2);
}

/// The three known editions, each by its two-digit or four-digit name,
/// are passed to `cargo init` as `--edition YEAR`, without a warning.
pub proof fn known_editions_are_passed_on(
    req: RequestValue,
    dir: Seq<char>,
    name: Seq<char>,
    depth: Option<Depth>,
    vcs: Option<Seq<char>>,
    short: Seq<char>,
    year: Seq<char>,
)
    requires
        (short == "15"@ && year == "2015"@) || (short == "18"@ && year == "2018"@) || (short
            == "21"@ && year == "2021"@),
    ensures
        edition_arguments(short) == Some(seq!["--edition"@, year]),
        edition_arguments(year) == Some(seq!["--edition"@, year]),
        req.worktree_branch is None && req.git is None && (req.edition == Some(short)
            || req.edition == Some(year)) ==> ({
            let c = init_command_of(req, dir, name, depth, vcs);
            &&& c.program == "cargo"@
            &&& c.warning is None
            &&& c.args.len() >= 5
            &&& c.args.subrange(0, 3) == seq!["init"@, "--name"@, name]
            &&& c.args.subrange(c.args.len() - 2, c.args.len() as int) == seq!["--edition"@, year]
        }),
{
    lemma_editions_differ();
    if req.worktree_branch is None && req.git is None && (req.edition == Some(short)
        || req.edition == Some(year)) {
        let c = init_command_of(req, dir, name, depth, vcs);
        let head = seq!["init"@, "--name"@, name] + (if req.lib {
            seq!["--lib"@]
        } else {
            Seq::empty()
        }) + match vcs {
            Some(v) => seq!["--vcs"@, v],
            None => Seq::empty(),
        };
        assert(c.args == head + seq!["--edition"@, year]);
        assert(c.args.subrange(0, 3) =~= seq!["init"@, "--name"@, name]);
        assert(c.args.subrange(c.args.len() - 2, c.args.len() as int) =~= seq!["--edition"@, year]);
    }
}

/// Once the dependencies are added, `--bench NAME` adds a benchmark named
/// `NAME`: its `[[bench]]` section names it and it is written to
/// `benches/NAME.rs`; `--bench` alone names it `benchmark`; without
/// `--bench` the next step writes `TO_DELETE`.
pub proof fn the_benchmark_takes_the_given_name(
    req: RequestValue,
    config: Config,
    env: EnvironmentValue,
    dir: Seq<char>,
)
    ensures
        ({
            let (stage, action) = next(
                req,
                config,
                env,
                StageValue::AddingDependencies { dir },
                EventValue::Done,
            );
            match req.bench {
                Some(b) => {
                    let n = match b {
                        Some(n) => n,
                        None => "benchmark"@,
                    };
                    &&& stage == StageValue::AddingBenchmark { dir }
                    &&& action matches ActionValue::AddBenchmark { dir: d, name, sections, .. }
                        && d == dir && name == n && sections
                        == "\n[dev-dependencies]\ncriterion = \"*\"\n\n[profile.release]\ndebug = true\n\n[[bench]]\nname = \""@
                        + n + "\"\nharness = false"@
                },
                None => action matches ActionValue::WriteDeleteFile { dir: d, .. } && d == dir,
            }
        }),
{
}

// ---------------------------------------------------------------------------
// Moving a preserved project
// ---------------------------------------------------------------------------

/// Whether `c` is a name: neither the root, `.` nor `..`.
spec fn names_a_file(c: Seq<char>) -> bool {
    c != seq!['/'] && c != seq!['.'] && c != seq!['.', '.']
}

proof fn lemma_components_skip_trailing(p: Seq<char>, base: int, end: int)
    requires
        0 <= base <= end <= p.len(),
    ensures
        body_components_back(p, base, end) == body_components_back(
            p,
            base,
            trim_back(p, base, end),
        ),
    decreases end - base,
{
    if end > base && no_component(last_piece(p, base, end)) {
        lemma_last_slash(p, base, end);
        lemma_components_skip_trailing(p, base, cut_point(p, base, end));
    }
}

proof fn lemma_file_name_from_components(p: Seq<char>)
    ensures
        path_file_name(p) == if components_back(p).len() > 0 && names_a_file(
            components_back(p)[0],
        ) {
            Some(components_back(p)[0])
        } else {
            None::<Seq<char>>
        },
{
    let base = body_start(p);
    let len = p.len() as int;
    lemma_components_skip_trailing(p, base, len);
    lemma_trim_back_bounds(p, base, len);
    let e = trim_back(p, base, len);
    let cb = components_back(p);
    let marker = if p.len() > 0 && p[0] == '/' {
        seq![seq!['/']]
    } else if base == 1 {
        seq![seq!['.']]
    } else {
        Seq::<Seq<char>>::empty()
    };
    if e > base {
        lemma_last_slash(p, base, e);
        let piece = last_piece(p, base, e);
        assert(body_components_back(p, base, e) == seq![piece] + body_components_back(
            p,
            base,
            cut_point(p, base, e),
        ));
        assert(cb[0] == piece);
        assert(piece != seq!['/']) by {
            if piece == seq!['/'] {
                assert(p[last_slash(p, base, e) + 1] == piece[0]);
            }
        }
    } else {
        assert(body_components_back(p, base, e) == Seq::<Seq<char>>::empty());
        assert(cb =~= marker);
    }
}

/// Two paths that are the same `Path` have the same file name: a project
/// whose target has another file name than its directory is moved.
pub proof fn the_same_path_has_the_same_file_name(a: Seq<char>, b: Seq<char>)
    requires
        same_path(a, b),
    ensures
        path_file_name(a) == path_file_name(b),
{
    lemma_file_name_from_components(a);
    lemma_file_name_from_components(b);
}

/// The project is moved exactly when its target is not the same path as
/// its directory; in particular a project renamed to a name other than its
/// own directory name is moved, and a project left where it is is not.
pub proof fn a_preserved_project_is_moved_to_a_new_place(
    req: RequestValue,
    config: Config,
    env: EnvironmentValue,
    dir: Seq<char>,
    shell_error: Option<Seq<char>>,
)
    ensures
        ({
            let (stage, action) = next(
                req,
                config,
                env,
                StageValue::CheckingDeleteFile { dir, shell_error },
                EventValue::DeleteFileFound(false),
            );
            &&& action matches ActionValue::Preserve { dir: d, target, relocate, .. }
            &&& d == dir
            &&& relocate == (target matches Some(t) && !same_path(t, dir))
            &&& (req.project_name matches Some(n) && plain_name(n) && path_file_name(dir) != Some(n)
                && (config.preserved_project_dir is None || path_file_name(dir) is Some)
                ==> target is Some && relocate)
        }),
{
    let (stage, action) = next(
        req,
        config,
        env,
        StageValue::CheckingDeleteFile { dir, shell_error },
        EventValue::DeleteFileFound(false),
    );
    let pd = config.preserved_project_dir.deep_view();
    if let Some(n) = req.project_name {
        if plain_name(n) && path_file_name(dir) != Some(n) {
            a_preserved_project_keeps_or_takes_its_name(dir, req.project_name, pd);
            if let Some(t) = preserved_path(dir, req.project_name, pd) {
                if same_path(t, dir) {
                    the_same_path_has_the_same_file_name(t, dir);
                }
            } else {
                assert(pd is Some && path_file_name(dir) is None);
                a_preserved_project_keeps_or_takes_its_name(dir, req.project_name, pd);
            }
        }
    }
}

} // verus!
