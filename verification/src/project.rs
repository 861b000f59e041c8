//! The life of a temporary project: the commands that create it, what is
//! written into it, the shell that is opened in it, and whether it is
//! deleted or preserved when the shell exits.
//!
//! The decisions are a state machine: [`step`] takes the current stage and
//! what the last action produced, and gives the next stage and action; the
//! program that drives it performs the actions.
use crate::benchmarking::{
    bench_name, benchmark_source, benchmark_source_text, benchmarking_sections, default_bench_name,
    format_benchmarking,
};
use crate::cli::Cli;
use crate::config::{depth_args, depth_arguments, Config, Depth};
use crate::dependency::{toml_text, Dependency, DependencyValue};
use crate::paths::{
    file_name_of, path_file_name, path_push, path_with_file_name, push_path, same_path,
    same_path_of, with_file_name_of,
};
use crate::text::{append, owned, same_text, trim_space, trimmed};
use vstd::prelude::*;

verus! {

// ---------------------------------------------------------------------------
// Commands
// ---------------------------------------------------------------------------

/// An error: its message, and the error that caused it if any.
pub struct Failure {
    pub message: String,
    pub cause: Option<String>,
}

pub struct FailureValue {
    pub message: Seq<char>,
    pub cause: Option<Seq<char>>,
}

impl View for Failure {
    type V = FailureValue;

    open spec fn view(&self) -> FailureValue {
        FailureValue { message: self.message@, cause: self.cause.deep_view() }
    }
}

/// A failure with a message only.
pub open spec fn failure_of(message: Seq<char>) -> FailureValue {
    FailureValue { message, cause: None }
}

fn failure(message: &str) -> (r: Failure)
    ensures
        r@ == failure_of(message@),
{
    Failure { message: owned(message), cause: None }
}

/// An external command to run.
pub struct Command {
    /// The program.
    pub program: String,
    /// Its arguments.
    pub args: Vec<String>,
    /// The directory it runs in, when not the current one.
    pub current_dir: Option<String>,
    /// The error reported when the command cannot be started.
    pub start_failure: String,
    /// The error reported when the command exits unsuccessfully.
    pub exit_failure: String,
    /// A warning to log before the command runs.
    pub warning: Option<String>,
}

pub struct CommandValue {
    pub program: Seq<char>,
    pub args: Seq<Seq<char>>,
    pub current_dir: Option<Seq<char>>,
    pub start_failure: Seq<char>,
    pub exit_failure: Seq<char>,
    pub warning: Option<Seq<char>>,
}

impl View for Command {
    type V = CommandValue;

    open spec fn view(&self) -> CommandValue {
        CommandValue {
            program: self.program@,
            args: self.args.deep_view(),
            current_dir: self.current_dir.deep_view(),
            start_failure: self.start_failure@,
            exit_failure: self.exit_failure@,
            warning: self.warning.deep_view(),
        }
    }
}

/// The prefix of the temporary directory: `wk-` for a worktree, `tmp-` otherwise.
pub open spec fn directory_prefix(worktree: bool) -> Seq<char> {
    if worktree {
        "wk-"@
    } else {
        "tmp-"@
    }
}

/// The suffix of the temporary directory: `-NAME` when a project name is given.
pub open spec fn directory_suffix(project_name: Option<Seq<char>>) -> Seq<char> {
    match project_name {
        Some(n) => "-"@ + n,
        None => Seq::empty(),
    }
}

pub fn tempdir_prefix(worktree: bool) -> (r: String)
    ensures
        r@ == directory_prefix(worktree),
{
    if worktree {
        owned("wk-")
    } else {
        owned("tmp-")
    }
}

pub fn tempdir_suffix(project_name: &Option<String>) -> (r: String)
    ensures
        r@ == directory_suffix(project_name.deep_view()),
{
    match project_name {
        Some(n) => {
            let mut out = owned("-");
            append(&mut out, n.as_str());
            out
        },
        None => String::new(),
    }
}

/// `s` in lower case, as `str::to_lowercase` gives it.
pub uninterp spec fn lowercase(s: Seq<char>) -> Seq<char>;

/// An ASCII character in lower case.
pub open spec fn ascii_lower(c: char) -> char {
    if 'A' <= c <= 'Z' {
        ((c as u32) + 32) as char
    } else {
        c
    }
}

/// Calls `str::to_lowercase`. The result is named `lowercase`; what std
/// documents for ASCII text is stated: each letter `A` to `Z` becomes its
/// lower-case letter and every other ASCII character stays. The mapping of
/// other characters, after the Unicode tables, is not stated.
#[verifier::external_body]
fn to_lowercase(s: &str) -> (r: String)
    ensures
        r@ == lowercase(s@),
        vstd::utf8::is_ascii_chars(s@) ==> r@ == s@.map_values(|c: char| ascii_lower(c)),
{
    s.to_lowercase()
}

/// The crate name: the one given, else the directory name in lower case.
pub open spec fn crate_name(project_name: Option<Seq<char>>, dir_name: Seq<char>) -> Seq<char> {
    match project_name {
        Some(n) => n,
        None => lowercase(dir_name),
    }
}

pub fn project_crate_name(project_name: &Option<String>, dir_name: &str) -> (r: String)
    ensures
        r@ == crate_name(project_name.deep_view(), dir_name@),
{
    match project_name {
        Some(n) => n.clone(),
        None => to_lowercase(dir_name),
    }
}

/// The `--edition` arguments of `cargo init` for an edition given as
/// `15`/`2015`, `18`/`2018` or `21`/`2021`; none for anything else.
pub open spec fn edition_arguments(edition: Seq<char>) -> Option<Seq<Seq<char>>> {
    if edition == "15"@ || edition == "2015"@ {
        Some(seq!["--edition"@, "2015"@])
    } else if edition == "18"@ || edition == "2018"@ {
        Some(seq!["--edition"@, "2018"@])
    } else if edition == "21"@ || edition == "2021"@ {
        Some(seq!["--edition"@, "2021"@])
    } else {
        None
    }
}

pub fn edition_args(edition: &str) -> (r: Option<Vec<String>>)
    ensures
        r.deep_view() == edition_arguments(edition@),
{
    if same_text(edition, "15") || same_text(edition, "2015") {
        Some(vec![owned("--edition"), owned("2015")])
    } else if same_text(edition, "18") || same_text(edition, "2018") {
        Some(vec![owned("--edition"), owned("2018")])
    } else if same_text(edition, "21") || same_text(edition, "2021") {
        Some(vec![owned("--edition"), owned("2021")])
    } else {
        None
    }
}

/// What the project is made from, and how.
pub struct Request {
    pub worktree_branch: Option<Option<String>>,
    pub project_name: Option<String>,
    pub lib: bool,
    pub git: Option<String>,
    pub edition: Option<String>,
    pub bench: Option<Option<String>>,
    /// The text appended to the project's `Cargo.toml` for its dependencies.
    pub manifest: String,
    /// Whether the welcome message may be printed.
    pub welcome: bool,
    /// Whether a shell failure is reported with its cause.
    pub shell_error_detail: bool,
}

pub struct RequestValue {
    pub worktree_branch: Option<Option<Seq<char>>>,
    pub project_name: Option<Seq<char>>,
    pub lib: bool,
    pub git: Option<Seq<char>>,
    pub edition: Option<Seq<char>>,
    pub bench: Option<Option<Seq<char>>>,
    pub manifest: Seq<char>,
    pub welcome: bool,
    pub shell_error_detail: bool,
}

impl View for Request {
    type V = RequestValue;

    open spec fn view(&self) -> RequestValue {
        RequestValue {
            worktree_branch: self.worktree_branch.deep_view(),
            project_name: self.project_name.deep_view(),
            lib: self.lib,
            git: self.git.deep_view(),
            edition: self.edition.deep_view(),
            bench: self.bench.deep_view(),
            manifest: self.manifest@,
            welcome: self.welcome,
            shell_error_detail: self.shell_error_detail,
        }
    }
}

/// The arguments of `cargo init`: the crate name, then `--lib`, `--vcs` and
/// `--edition` where asked for.
pub open spec fn cargo_init_arguments(
    name: Seq<char>,
    lib: bool,
    vcs: Option<Seq<char>>,
    edition: Option<Seq<char>>,
) -> Seq<Seq<char>> {
    seq!["init"@, "--name"@, name] + (if lib {
        seq!["--lib"@]
    } else {
        Seq::empty()
    }) + match vcs {
        Some(v) => seq!["--vcs"@, v],
        None => Seq::empty(),
    } + match edition {
        Some(e) => match edition_arguments(e) {
            Some(a) => a,
            None => Seq::empty(),
        },
        None => Seq::empty(),
    }
}

/// The warning for an edition that is not known.
pub open spec fn edition_warning(edition: Option<Seq<char>>) -> Option<Seq<char>> {
    match edition {
        Some(e) => match edition_arguments(e) {
            Some(_) => None,
            None => Some("cannot find the "@ + e + " edition, using the latest"@),
        },
        None => None,
    }
}

/// The command that fills the new directory `dir`: `git worktree add` for
/// a worktree, `git clone` for a repository, `cargo init` otherwise.
pub open spec fn init_command_of(
    req: RequestValue,
    dir: Seq<char>,
    name: Seq<char>,
    depth: Option<Depth>,
    vcs: Option<Seq<char>>,
) -> CommandValue {
    match req.worktree_branch {
        Some(branch) => CommandValue {
            program: "git"@,
            args: seq!["worktree"@, "add"@] + match branch {
                Some(b) => seq![dir, b],
                None => seq!["-d"@, dir],
            },
            current_dir: None,
            start_failure: "Could not start git"@,
            exit_failure: "cannot create working tree"@,
            warning: None,
        },
        None => match req.git {
            Some(url) => CommandValue {
                program: "git"@,
                args: seq!["clone"@, url, dir] + depth_arguments(depth),
                current_dir: None,
                start_failure: "Could not start git"@,
                exit_failure: "cannot clone repository"@,
                warning: None,
            },
            None => CommandValue {
                program: "cargo"@,
                args: cargo_init_arguments(name, req.lib, vcs, req.edition),
                current_dir: Some(dir),
                start_failure: "Could not start cargo"@,
                exit_failure: "cargo command failed"@,
                warning: edition_warning(req.edition),
            },
        },
    }
}

fn append_all(dest: &mut Vec<String>, items: Vec<String>)
    ensures
        final(dest).deep_view() == old(dest).deep_view() + items.deep_view(),
{
    let ghost start = dest.deep_view();
    let mut i: usize = 0;
    while i < items.len()
        invariant
            i <= items@.len(),
            dest.deep_view() =~= start + items.deep_view().take(i as int),
        decreases items@.len() - i,
    {
        let ghost before = dest.deep_view();
        dest.push(items[i].clone());
        assert(dest.deep_view() =~= before.push(items.deep_view()[i as int]));
        assert(items.deep_view().take(i + 1) =~= items.deep_view().take(i as int).push(
            items.deep_view()[i as int],
        ));
        i = i + 1;
    }
    assert(items.deep_view().take(items@.len() as int) =~= items.deep_view());
}

/// The command that fills the new directory `dir` of the project.
pub fn init_command(
    req: &Request,
    dir: &str,
    name: &str,
    depth: Option<Depth>,
    vcs: &Option<String>,
) -> (r: Command)
    ensures
        r@ == init_command_of(req@, dir@, name@, depth, vcs.deep_view()),
{
    match &req.worktree_branch {
        Some(branch) => {
            let mut args = vec![owned("worktree"), owned("add")];
            match branch {
                Some(b) => {
                    args.push(owned(dir));
                    args.push(b.clone());
                },
                None => {
                    args.push(owned("-d"));
                    args.push(owned(dir));
                },
            }
            let r = Command {
                program: owned("git"),
                args,
                current_dir: None,
                start_failure: owned("Could not start git"),
                exit_failure: owned("cannot create working tree"),
                warning: None,
            };
            assert(r@.args =~= init_command_of(req@, dir@, name@, depth, vcs.deep_view()).args);
            r
        },
        None => match &req.git {
            Some(url) => {
                let mut args = vec![owned("clone"), url.clone(), owned(dir)];
                assert(args.deep_view() =~= seq!["clone"@, url@, dir@]);
                let extra = depth_args(depth);
                append_all(&mut args, extra);
                Command {
                    program: owned("git"),
                    args,
                    current_dir: None,
                    start_failure: owned("Could not start git"),
                    exit_failure: owned("cannot clone repository"),
                    warning: None,
                }
            },
            None => {
                let mut args = vec![owned("init"), owned("--name"), owned(name)];
                assert(args.deep_view() =~= seq!["init"@, "--name"@, name@]);
                let ghost base = args.deep_view();
                if req.lib {
                    args.push(owned("--lib"));
                }
                let ghost with_lib = args.deep_view();
                if let Some(v) = vcs {
                    args.push(owned("--vcs"));
                    args.push(v.clone());
                }
                let ghost with_vcs = args.deep_view();
                let mut warning: Option<String> = None;
                let ghost edition_part = match req.edition.deep_view() {
                    Some(e) => match edition_arguments(e) {
                        Some(a) => a,
                        None => Seq::<Seq<char>>::empty(),
                    },
                    None => Seq::<Seq<char>>::empty(),
                };
                if let Some(e) = &req.edition {
                    match edition_args(e.as_str()) {
                        Some(extra) => append_all(&mut args, extra),
                        None => {
                            let mut w = owned("cannot find the ");
                            append(&mut w, e.as_str());
                            append(&mut w, " edition, using the latest");
                            warning = Some(w);
                        },
                    }
                }
                proof {
                    let lib_part = if req.lib {
                        seq!["--lib"@]
                    } else {
                        Seq::<Seq<char>>::empty()
                    };
                    let vcs_part = match vcs.deep_view() {
                        Some(v) => seq!["--vcs"@, v],
                        None => Seq::<Seq<char>>::empty(),
                    };
                    assert(with_lib =~= base + lib_part);
                    assert(with_vcs =~= base + lib_part + vcs_part);
                    assert(args.deep_view() =~= with_vcs + edition_part);
                    assert(args.deep_view() =~= cargo_init_arguments(
                        name@,
                        req.lib,
                        vcs.deep_view(),
                        req.edition.deep_view(),
                    ));
                }
                Command {
                    program: owned("cargo"),
                    args,
                    current_dir: Some(owned(dir)),
                    start_failure: owned("Could not start cargo"),
                    exit_failure: owned("cargo command failed"),
                    warning,
                }
            },
        },
    }
}

/// `git worktree remove DIR --force`.
pub open spec fn worktree_removal(dir: Seq<char>) -> CommandValue {
    CommandValue {
        program: "git"@,
        args: seq!["worktree"@, "remove"@, dir, "--force"@],
        current_dir: None,
        start_failure: "Could not start git"@,
        exit_failure: "cannot remove working tree"@,
        warning: None,
    }
}

pub fn worktree_remove_command(dir: &str) -> (r: Command)
    ensures
        r@ == worktree_removal(dir@),
{
    let r = Command {
        program: owned("git"),
        args: vec![owned("worktree"), owned("remove"), owned(dir), owned("--force")],
        current_dir: None,
        start_failure: owned("Could not start git"),
        exit_failure: owned("cannot remove working tree"),
        warning: None,
    };
    assert(r@.args =~= worktree_removal(dir@).args);
    r
}

/// The shell to open: `$SHELL` when it is set, else `/bin/sh`.
pub open spec fn shell_or_default(env_shell: Option<Seq<char>>) -> Seq<char> {
    match env_shell {
        Some(s) => s,
        None => "/bin/sh"@,
    }
}

pub fn get_shell(env_shell: Option<String>) -> (r: String)
    ensures
        r@ == shell_or_default(env_shell.deep_view()),
{
    match env_shell {
        Some(s) => s,
        None => owned("/bin/sh"),
    }
}

/// What is opened in the project: the configured editor, with its
/// arguments and the project directory, or else the shell.
pub open spec fn session_command(
    editor: Option<Seq<char>>,
    editor_args: Option<Seq<Seq<char>>>,
    shell: Seq<char>,
    dir: Seq<char>,
) -> CommandValue {
    CommandValue {
        program: match editor {
            Some(e) => e,
            None => shell,
        },
        args: match editor {
            Some(_) => (match editor_args {
                Some(a) => a,
                None => Seq::empty(),
            }) + seq![dir],
            None => Seq::empty(),
        },
        current_dir: Some(dir),
        start_failure: "cannot spawn shell process"@,
        exit_failure: "cannot wait shell process"@,
        warning: None,
    }
}

pub fn shell_command(config: &Config, shell: &str, dir: &str) -> (r: Command)
    ensures
        r@ == session_command(
            config.editor.deep_view(),
            config.editor_args.deep_view(),
            shell@,
            dir@,
        ),
{
    let (program, args) = match &config.editor {
        Some(editor) => {
            let mut args: Vec<String> = Vec::new();
            if let Some(extra) = &config.editor_args {
                let copy = extra.clone();
                assert(copy.deep_view() =~= extra.deep_view()) by {
                    assert forall|i: int| 0 <= i < copy@.len() implies copy@[i]@ == extra@[i]@ by {
                        assert(vstd::pervasive::cloned::<String>(extra@[i], copy@[i]));
                    }
                }
                append_all(&mut args, copy);
            }
            let ghost before = args.deep_view();
            args.push(owned(dir));
            assert(args.deep_view() =~= before.push(dir@));
            (editor.clone(), args)
        },
        None => (owned(shell), Vec::new()),
    };
    let r = Command {
        program,
        args,
        current_dir: Some(owned(dir)),
        start_failure: owned("cannot spawn shell process"),
        exit_failure: owned("cannot wait shell process"),
        warning: None,
    };
    assert(r@.args =~= session_command(
        config.editor.deep_view(),
        config.editor_args.deep_view(),
        shell@,
        dir@,
    ).args);
    r
}

/// The `CARGO_TARGET_DIR` to set for the session: the configured one,
/// unless the variable is set already.
pub fn target_dir_to_set(already_set: bool, configured: &Option<String>) -> (r: Option<String>)
    ensures
        r.deep_view() == if already_set {
            None
        } else {
            configured.deep_view()
        },
{
    if already_set {
        None
    } else {
        match configured {
            Some(d) => Some(d.clone()),
            None => None,
        }
    }
}

// ---------------------------------------------------------------------------
// Messages
// ---------------------------------------------------------------------------

/// The name of the file whose removal preserves the project.
pub open spec fn delete_file_name() -> Seq<char> {
    "TO_DELETE"@
}

/// The text of that file.
pub open spec fn delete_file_text() -> Seq<char> {
    "Delete this file if you want to preserve this project"@
}

/// The message printed when the shell starts.
pub open spec fn welcome_text() -> Seq<char> {
    "\nTo preserve the project when exiting the shell, don't forget to delete the `TO_DELETE` file.\nTo exit the project, you can type \"exit\" or use `Ctrl+D`"@
}

/// The question asked before a project is deleted.
pub open spec fn delete_question() -> Seq<char> {
    "Are you sure you want to delete this project? (Y/n)"@
}

/// The reply to an answer that is neither yes nor no.
pub open spec fn unclear_answer_text(answer: Seq<char>) -> Seq<char> {
    "hmm, `"@ + trimmed(answer) + "` doesn't look like `yes` or `no`"@
}

/// The reply to a failed read of the answer.
pub open spec fn read_failure_text(error: Seq<char>) -> Seq<char> {
    "failed to read input: "@ + error
}

/// What an answer to the question means: an empty answer and the forms of
/// yes delete the project, the forms of no preserve it; white space around
/// the answer does not count.
pub open spec fn answer_meaning(line: Seq<char>) -> Option<bool> {
    let a = trimmed(line);
    if a == ""@ || a == "Yes"@ || a == "yes"@ || a == "Y"@ || a == "y"@ {
        Some(true)
    } else if a == "No"@ || a == "no"@ || a == "N"@ || a == "n"@ {
        Some(false)
    } else {
        None
    }
}

/// Reads an answer to the question asked before the project is deleted.
pub fn interpret_answer(line: &str) -> (r: Option<bool>)
    ensures
        r == answer_meaning(line@),
{
    let a = trim_space(line);
    let a = a.as_str();
    if same_text(a, "") || same_text(a, "Yes") || same_text(a, "yes") || same_text(a, "Y")
        || same_text(a, "y") {
        Some(true)
    } else if same_text(a, "No") || same_text(a, "no") || same_text(a, "N") || same_text(a, "n") {
        Some(false)
    } else {
        None
    }
}


// ---------------------------------------------------------------------------
// The state machine
// ---------------------------------------------------------------------------

/// What the session needs from its surroundings.
pub struct Environment {
    /// The directory in which temporary projects are created.
    pub temporary_project_dir: String,
    /// The shell to open when no editor is configured.
    pub shell: String,
    /// Whether `CARGO_TARGET_DIR` is set already.
    pub target_dir_set: bool,
}

pub struct EnvironmentValue {
    pub temporary_project_dir: Seq<char>,
    pub shell: Seq<char>,
    pub target_dir_set: bool,
}

impl View for Environment {
    type V = EnvironmentValue;

    open spec fn view(&self) -> EnvironmentValue {
        EnvironmentValue {
            temporary_project_dir: self.temporary_project_dir@,
            shell: self.shell@,
            target_dir_set: self.target_dir_set,
        }
    }
}

/// Where the session stands. `shell_error` is the message of the shell's
/// failure, if it failed.
pub enum Stage {
    Start,
    CreatingDirectory,
    Initializing { dir: String },
    AddingDependencies { dir: String },
    AddingBenchmark { dir: String },
    WritingDeleteFile { dir: String },
    StartingSubprocesses { dir: String },
    InShell { dir: String },
    CheckingDeleteFile { dir: String, shell_error: Option<String> },
    Asking { dir: String, shell_error: Option<String> },
    Preserving { shell_error: Option<String> },
    RemovingWorktree { shell_error: Option<String> },
    StoppingSubprocesses { shell_error: Option<String> },
    Finished,
}

pub enum StageValue {
    Start,
    CreatingDirectory,
    Initializing { dir: Seq<char> },
    AddingDependencies { dir: Seq<char> },
    AddingBenchmark { dir: Seq<char> },
    WritingDeleteFile { dir: Seq<char> },
    StartingSubprocesses { dir: Seq<char> },
    InShell { dir: Seq<char> },
    CheckingDeleteFile { dir: Seq<char>, shell_error: Option<Seq<char>> },
    Asking { dir: Seq<char>, shell_error: Option<Seq<char>> },
    Preserving { shell_error: Option<Seq<char>> },
    RemovingWorktree { shell_error: Option<Seq<char>> },
    StoppingSubprocesses { shell_error: Option<Seq<char>> },
    Finished,
}

impl View for Stage {
    type V = StageValue;

    open spec fn view(&self) -> StageValue {
        match self {
            Stage::Start => StageValue::Start,
            Stage::CreatingDirectory => StageValue::CreatingDirectory,
            Stage::Initializing { dir } => StageValue::Initializing { dir: dir@ },
            Stage::AddingDependencies { dir } => StageValue::AddingDependencies { dir: dir@ },
            Stage::AddingBenchmark { dir } => StageValue::AddingBenchmark { dir: dir@ },
            Stage::WritingDeleteFile { dir } => StageValue::WritingDeleteFile { dir: dir@ },
            Stage::StartingSubprocesses { dir } => StageValue::StartingSubprocesses { dir: dir@ },
            Stage::InShell { dir } => StageValue::InShell { dir: dir@ },
            Stage::CheckingDeleteFile { dir, shell_error } => StageValue::CheckingDeleteFile {
                dir: dir@,
                shell_error: shell_error.deep_view(),
            },
            Stage::Asking { dir, shell_error } => StageValue::Asking {
                dir: dir@,
                shell_error: shell_error.deep_view(),
            },
            Stage::Preserving { shell_error } => StageValue::Preserving {
                shell_error: shell_error.deep_view(),
            },
            Stage::RemovingWorktree { shell_error } => StageValue::RemovingWorktree {
                shell_error: shell_error.deep_view(),
            },
            Stage::StoppingSubprocesses { shell_error } => StageValue::StoppingSubprocesses {
                shell_error: shell_error.deep_view(),
            },
            Stage::Finished => StageValue::Finished,
        }
    }
}

/// What the last action produced.
pub enum Event {
    /// The session begins.
    Begin,
    /// The project directory was created, with this path and file name.
    DirectoryCreated { dir: String, dir_name: String },
    /// The command ran, and succeeded or not.
    Exited { success: bool },
    /// The action was done.
    Done,
    /// The action failed.
    Failed(Failure),
    /// Whether the file whose removal preserves the project is still there.
    DeleteFileFound(bool),
    /// The line that the user answered.
    Answered(String),
}

pub enum EventValue {
    Begin,
    DirectoryCreated { dir: Seq<char>, dir_name: Seq<char> },
    Exited { success: bool },
    Done,
    Failed(FailureValue),
    DeleteFileFound(bool),
    Answered(Seq<char>),
}

impl View for Event {
    type V = EventValue;

    open spec fn view(&self) -> EventValue {
        match self {
            Event::Begin => EventValue::Begin,
            Event::DirectoryCreated { dir, dir_name } => EventValue::DirectoryCreated {
                dir: dir@,
                dir_name: dir_name@,
            },
            Event::Exited { success } => EventValue::Exited { success: *success },
            Event::Done => EventValue::Done,
            Event::Failed(f) => EventValue::Failed(f@),
            Event::DeleteFileFound(b) => EventValue::DeleteFileFound(*b),
            Event::Answered(line) => EventValue::Answered(line@),
        }
    }
}

/// What is to be done next.
pub enum Action {
    /// Create a directory in `parent` whose name has the given prefix and
    /// suffix; when `parent` is missing, create it first, failing with `failure`.
    CreateDirectory { parent: String, prefix: String, suffix: String, failure: String },
    /// Run a command.
    Run(Command),
    /// Append `text` to `Cargo.toml` in `dir`.
    AppendToManifest { dir: String, text: String },
    /// Append `sections` to `Cargo.toml` in `dir` and write `source` to `benches/NAME.rs`.
    AddBenchmark { dir: String, name: String, sections: String, source: String },
    /// Write `text` to the file `file_name` in `dir`.
    WriteDeleteFile { dir: String, file_name: String, text: String },
    /// Start the configured subprocesses in `dir`.
    StartSubprocesses { dir: String },
    /// Print `welcome` if any, set `CARGO_TARGET_DIR` to `target_dir` if
    /// any, run `command` and wait for it.
    OpenSession { dir: String, welcome: Option<String>, command: Command, target_dir: Option<String> },
    /// Tell whether the file `file_name` is in `dir`.
    CheckDeleteFile { dir: String, file_name: String },
    /// Print `say` and log `complain` when given, then read a line.
    Ask { say: Option<String>, complain: Option<String> },
    /// Remove the file `file_name` from `dir` and keep the directory;
    /// create `preserved_dir` when it is given and missing; then move the
    /// directory to `target` when `relocate`. Without a `target` (a
    /// preserved directory is given but `dir` has no file name), fail.
    Preserve {
        dir: String,
        file_name: String,
        preserved_dir: Option<String>,
        target: Option<String>,
        relocate: bool,
    },
    /// Delete the project directory when `discard_project`, then stop the subprocesses.
    StopSubprocesses { discard_project: bool },
    /// The session is over, with this result.
    Finish(Result<(), Failure>),
}

pub enum ActionValue {
    CreateDirectory { parent: Seq<char>, prefix: Seq<char>, suffix: Seq<char>, failure: Seq<char> },
    Run(CommandValue),
    AppendToManifest { dir: Seq<char>, text: Seq<char> },
    AddBenchmark { dir: Seq<char>, name: Seq<char>, sections: Seq<char>, source: Seq<char> },
    WriteDeleteFile { dir: Seq<char>, file_name: Seq<char>, text: Seq<char> },
    StartSubprocesses { dir: Seq<char> },
    OpenSession {
        dir: Seq<char>,
        welcome: Option<Seq<char>>,
        command: CommandValue,
        target_dir: Option<Seq<char>>,
    },
    CheckDeleteFile { dir: Seq<char>, file_name: Seq<char> },
    Ask { say: Option<Seq<char>>, complain: Option<Seq<char>> },
    Preserve {
        dir: Seq<char>,
        file_name: Seq<char>,
        preserved_dir: Option<Seq<char>>,
        target: Option<Seq<char>>,
        relocate: bool,
    },
    StopSubprocesses { discard_project: bool },
    Finish(Result<(), FailureValue>),
}

impl View for Action {
    type V = ActionValue;

    open spec fn view(&self) -> ActionValue {
        match self {
            Action::CreateDirectory { parent, prefix, suffix, failure } =>
                ActionValue::CreateDirectory {
                parent: parent@,
                prefix: prefix@,
                suffix: suffix@,
                failure: failure@,
            },
            Action::Run(c) => ActionValue::Run(c@),
            Action::AppendToManifest { dir, text } => ActionValue::AppendToManifest {
                dir: dir@,
                text: text@,
            },
            Action::AddBenchmark { dir, name, sections, source } => ActionValue::AddBenchmark {
                dir: dir@,
                name: name@,
                sections: sections@,
                source: source@,
            },
            Action::WriteDeleteFile { dir, file_name, text } => ActionValue::WriteDeleteFile {
                dir: dir@,
                file_name: file_name@,
                text: text@,
            },
            Action::StartSubprocesses { dir } => ActionValue::StartSubprocesses { dir: dir@ },
            Action::OpenSession { dir, welcome, command, target_dir } => ActionValue::OpenSession {
                dir: dir@,
                welcome: welcome.deep_view(),
                command: command@,
                target_dir: target_dir.deep_view(),
            },
            Action::CheckDeleteFile { dir, file_name } => ActionValue::CheckDeleteFile {
                dir: dir@,
                file_name: file_name@,
            },
            Action::Ask { say, complain } => ActionValue::Ask {
                say: say.deep_view(),
                complain: complain.deep_view(),
            },
            Action::Preserve { dir, file_name, preserved_dir, target, relocate } =>
                ActionValue::Preserve {
                dir: dir@,
                file_name: file_name@,
                preserved_dir: preserved_dir.deep_view(),
                target: target.deep_view(),
                relocate: *relocate,
            },
            Action::StopSubprocesses { discard_project } => ActionValue::StopSubprocesses {
                discard_project: *discard_project,
            },
            Action::Finish(r) => ActionValue::Finish(
                match r {
                    Ok(()) => Ok(()),
                    Err(f) => Err(f@),
                },
            ),
        }
    }
}

/// The events that each stage waits for.
pub open spec fn accepts(stage: StageValue, event: EventValue) -> bool {
    match stage {
        StageValue::Start => event is Begin,
        StageValue::CreatingDirectory => event is DirectoryCreated || event is Failed,
        StageValue::Initializing { .. } => event is Exited || event is Failed,
        StageValue::CheckingDeleteFile { .. } => event is DeleteFileFound,
        StageValue::Asking { .. } => event is Answered || event is Failed,
        StageValue::RemovingWorktree { .. } => event is Exited || event is Failed,
        StageValue::Finished => false,
        _ => event is Done || event is Failed,
    }
}

/// The error that ends the session when the command that fills the project fails.
pub open spec fn init_exit_failure(req: RequestValue) -> Seq<char> {
    if req.worktree_branch is Some {
        "cannot create working tree"@
    } else if req.git is Some {
        "cannot clone repository"@
    } else {
        "cargo command failed"@
    }
}

/// The error that ends a session whose shell failed.
pub open spec fn shell_failure_text(req: RequestValue, error: Seq<char>) -> Seq<char> {
    if req.shell_error_detail {
        "problem within the shell process: "@ + error
    } else {
        "problem within the shell process"@
    }
}

/// The step that writes the file whose removal preserves the project.
pub open spec fn delete_file_step(dir: Seq<char>) -> (StageValue, ActionValue) {
    (
        StageValue::WritingDeleteFile { dir },
        ActionValue::WriteDeleteFile {
            dir,
            file_name: delete_file_name(),
            text: delete_file_text(),
        },
    )
}

/// Where a preserved project ends up: inside `preserved_dir`, under its
/// own file name, when that is given (none when `dir` has no file name);
/// then renamed to `project_name` when that is given. Paths are joined and
/// file names replaced as `Path::join` and `Path::with_file_name` do on Unix.
pub open spec fn preserved_path(
    dir: Seq<char>,
    project_name: Option<Seq<char>>,
    preserved_dir: Option<Seq<char>>,
) -> Option<Seq<char>> {
    let moved = match preserved_dir {
        Some(d) => match path_file_name(dir) {
            Some(f) => Some(path_push(d, f)),
            None => None,
        },
        None => Some(dir),
    };
    match moved {
        Some(m) => Some(
            match project_name {
                Some(n) => path_with_file_name(m, n),
                None => m,
            },
        ),
        None => None,
    }
}

/// Whether the project must be moved to reach `target`: it has a target
/// that is not the same path as `dir`.
pub open spec fn needs_move(dir: Seq<char>, target: Option<Seq<char>>) -> bool {
    match target {
        Some(t) => !same_path(t, dir),
        None => false,
    }
}

/// Where a preserved project ends up.
pub fn preserved_location(
    dir: &str,
    project_name: &Option<String>,
    preserved_dir: &Option<String>,
) -> (r: Option<String>)
    ensures
        r.deep_view() == preserved_path(dir@, project_name.deep_view(), preserved_dir.deep_view()),
{
    let moved = match preserved_dir {
        Some(d) => match file_name_of(dir) {
            Some(f) => Some(push_path(d.as_str(), f.as_str())),
            None => None,
        },
        None => Some(owned(dir)),
    };
    match moved {
        Some(m) => Some(
            match project_name {
                Some(n) => with_file_name_of(m.as_str(), n.as_str()),
                None => m,
            },
        ),
        None => None,
    }
}

/// The step that preserves the project.
pub open spec fn preserve_step(
    req: RequestValue,
    config: Config,
    dir: Seq<char>,
    shell_error: Option<Seq<char>>,
) -> (StageValue, ActionValue) {
    (
        StageValue::Preserving { shell_error },
        ActionValue::Preserve {
            dir,
            file_name: delete_file_name(),
            preserved_dir: config.preserved_project_dir.deep_view(),
            target: preserved_path(dir, req.project_name, config.preserved_project_dir.deep_view()),
            relocate: needs_move(dir, preserved_path(dir, req.project_name, config.preserved_project_dir.deep_view())),
        },
    )
}

/// The step that deletes the project: its worktree is removed first when
/// it is a worktree of a named branch.
pub open spec fn delete_step(req: RequestValue, dir: Seq<char>, shell_error: Option<Seq<char>>) -> (
    StageValue,
    ActionValue,
) {
    match req.worktree_branch {
        Some(Some(_)) => (
            StageValue::RemovingWorktree { shell_error },
            ActionValue::Run(worktree_removal(dir)),
        ),
        _ => (
            StageValue::StoppingSubprocesses { shell_error },
            ActionValue::StopSubprocesses { discard_project: true },
        ),
    }
}

/// The end of the session after a failure.
pub open spec fn failed_step(f: FailureValue) -> (StageValue, ActionValue) {
    (StageValue::Finished, ActionValue::Finish(Err(f)))
}

/// The next stage and action, from the current stage and what the last action produced.
pub open spec fn next(
    req: RequestValue,
    config: Config,
    env: EnvironmentValue,
    stage: StageValue,
    event: EventValue,
) -> (StageValue, ActionValue) {
    match (stage, event) {
        (StageValue::CreatingDirectory, EventValue::DirectoryCreated { dir, dir_name }) => (
            StageValue::Initializing { dir },
            ActionValue::Run(
                init_command_of(
                    req,
                    dir,
                    crate_name(req.project_name, dir_name),
                    config.git_repo_depth,
                    config.vcs.deep_view(),
                ),
            ),
        ),
        (StageValue::Initializing { dir }, EventValue::Exited { success }) => if success {
            (StageValue::AddingDependencies { dir }, ActionValue::AppendToManifest { dir, text: req.manifest })
        } else {
            failed_step(failure_of(init_exit_failure(req)))
        },
        (StageValue::AddingDependencies { dir }, EventValue::Done) => match req.bench {
            Some(b) => {
                let name = match b {
                    Some(n) => n,
                    None => default_bench_name(),
                };
                (
                    StageValue::AddingBenchmark { dir },
                    ActionValue::AddBenchmark {
                        dir,
                        name,
                        sections: benchmarking_sections(name),
                        source: benchmark_source_text(),
                    },
                )
            },
            None => delete_file_step(dir),
        },
        (StageValue::AddingBenchmark { dir }, EventValue::Done) => delete_file_step(dir),
        (StageValue::WritingDeleteFile { dir }, EventValue::Done) => (
            StageValue::StartingSubprocesses { dir },
            ActionValue::StartSubprocesses { dir },
        ),
        (StageValue::StartingSubprocesses { dir }, EventValue::Done) => (
            StageValue::InShell { dir },
            ActionValue::OpenSession {
                dir,
                welcome: if req.welcome && config.welcome_message {
                    Some(welcome_text())
                } else {
                    None
                },
                command: session_command(
                    config.editor.deep_view(),
                    config.editor_args.deep_view(),
                    env.shell,
                    dir,
                ),
                target_dir: if env.target_dir_set {
                    None
                } else {
                    config.cargo_target_dir.deep_view()
                },
            },
        ),
        (StageValue::InShell { dir }, EventValue::Done) => (
            StageValue::CheckingDeleteFile { dir, shell_error: None },
            ActionValue::CheckDeleteFile { dir, file_name: delete_file_name() },
        ),
        (StageValue::InShell { dir }, EventValue::Failed(f)) => (
            StageValue::CheckingDeleteFile { dir, shell_error: Some(f.message) },
            ActionValue::CheckDeleteFile { dir, file_name: delete_file_name() },
        ),
        (StageValue::CheckingDeleteFile { dir, shell_error }, EventValue::DeleteFileFound(found)) =>
            if !found {
            preserve_step(req, config, dir, shell_error)
        } else if config.prompt {
            (
                StageValue::Asking { dir, shell_error },
                ActionValue::Ask { say: Some(delete_question()), complain: None },
            )
        } else {
            delete_step(req, dir, shell_error)
        },
        (StageValue::Asking { dir, shell_error }, EventValue::Answered(line)) => match answer_meaning(
            line,
        ) {
            Some(true) => delete_step(req, dir, shell_error),
            Some(false) => preserve_step(req, config, dir, shell_error),
            None => (
                StageValue::Asking { dir, shell_error },
                ActionValue::Ask { say: Some(unclear_answer_text(line)), complain: None },
            ),
        },
        (StageValue::Asking { dir, shell_error }, EventValue::Failed(f)) => (
            StageValue::Asking { dir, shell_error },
            ActionValue::Ask { say: None, complain: Some(read_failure_text(f.message)) },
        ),
        (StageValue::Preserving { shell_error }, EventValue::Done) => (
            StageValue::StoppingSubprocesses { shell_error },
            ActionValue::StopSubprocesses { discard_project: false },
        ),
        (StageValue::RemovingWorktree { shell_error }, EventValue::Exited { success }) => if success {
            (
                StageValue::StoppingSubprocesses { shell_error },
                ActionValue::StopSubprocesses { discard_project: true },
            )
        } else {
            failed_step(failure_of("cannot remove working tree"@))
        },
        (StageValue::StoppingSubprocesses { shell_error }, EventValue::Done) => (
            StageValue::Finished,
            ActionValue::Finish(
                match shell_error {
                    None => Ok(()),
                    Some(e) => Err(failure_of(shell_failure_text(req, e))),
                },
            ),
        ),
        (StageValue::Start, EventValue::Begin) => (
            StageValue::CreatingDirectory,
            ActionValue::CreateDirectory {
                parent: env.temporary_project_dir,
                prefix: directory_prefix(req.worktree_branch is Some),
                suffix: directory_suffix(req.project_name),
                failure: "cannot create temporary project's directory"@,
            },
        ),
        (_, EventValue::Failed(f)) => failed_step(f),
        _ => failed_step(failure_of("unexpected event"@)),
    }
}


fn clone_option(o: &Option<String>) -> (r: Option<String>)
    ensures
        r.deep_view() == o.deep_view(),
{
    match o {
        Some(t) => Some(t.clone()),
        None => None,
    }
}

fn delete_file_action(dir: String) -> (r: (Stage, Action))
    ensures
        (r.0@, r.1@) == delete_file_step(dir@),
{
    let d = dir.clone();
    (
        Stage::WritingDeleteFile { dir: d },
        Action::WriteDeleteFile {
            dir,
            file_name: owned("TO_DELETE"),
            text: owned("Delete this file if you want to preserve this project"),
        },
    )
}

fn preserve_action(req: &Request, config: &Config, dir: String, shell_error: Option<String>) -> (r: (
    Stage,
    Action,
))
    ensures
        (r.0@, r.1@) == preserve_step(req@, *config, dir@, shell_error.deep_view()),
{
    let target = preserved_location(dir.as_str(), &req.project_name, &config.preserved_project_dir);
    let relocate = match &target {
        Some(t) => !same_path_of(t.as_str(), dir.as_str()),
        None => false,
    };
    (
        Stage::Preserving { shell_error },
        Action::Preserve {
            dir,
            file_name: owned("TO_DELETE"),
            preserved_dir: clone_option(&config.preserved_project_dir),
            target,
            relocate,
        },
    )
}

fn delete_action(req: &Request, dir: String, shell_error: Option<String>) -> (r: (Stage, Action))
    ensures
        (r.0@, r.1@) == delete_step(req@, dir@, shell_error.deep_view()),
{
    match &req.worktree_branch {
        Some(Some(_)) => (
            Stage::RemovingWorktree { shell_error },
            Action::Run(worktree_remove_command(dir.as_str())),
        ),
        _ => (
            Stage::StoppingSubprocesses { shell_error },
            Action::StopSubprocesses { discard_project: true },
        ),
    }
}

fn failed_action(f: Failure) -> (r: (Stage, Action))
    ensures
        (r.0@, r.1@) == failed_step(f@),
{
    (Stage::Finished, Action::Finish(Err(f)))
}

/// The next stage and action, from the current stage and what the last
/// action produced.
pub fn step(req: &Request, config: &Config, env: &Environment, stage: Stage, event: Event) -> (r: (
    Stage,
    Action,
))
    requires
        accepts(stage@, event@),
    ensures
        (r.0@, r.1@) == next(req@, *config, env@, stage@, event@),
{
    match (stage, event) {
        (Stage::Start, Event::Begin) => (
            Stage::CreatingDirectory,
            Action::CreateDirectory {
                parent: env.temporary_project_dir.clone(),
                prefix: tempdir_prefix(req.worktree_branch.is_some()),
                suffix: tempdir_suffix(&req.project_name),
                failure: owned("cannot create temporary project's directory"),
            },
        ),
        (Stage::CreatingDirectory, Event::DirectoryCreated { dir, dir_name }) => {
            let name = project_crate_name(&req.project_name, dir_name.as_str());
            let command = init_command(req, dir.as_str(), name.as_str(), config.git_repo_depth, &config.vcs);
            (Stage::Initializing { dir }, Action::Run(command))
        },
        (Stage::Initializing { dir }, Event::Exited { success }) => {
            if success {
                let d = dir.clone();
                (
                    Stage::AddingDependencies { dir },
                    Action::AppendToManifest { dir: d, text: req.manifest.clone() },
                )
            } else if req.worktree_branch.is_some() {
                failed_action(failure("cannot create working tree"))
            } else if req.git.is_some() {
                failed_action(failure("cannot clone repository"))
            } else {
                failed_action(failure("cargo command failed"))
            }
        },
        (Stage::AddingDependencies { dir }, Event::Done) => match &req.bench {
            Some(b) => {
                let name = match b {
                    Some(n) => bench_name(Some(n.as_str())),
                    None => bench_name(None),
                };
                let sections = format_benchmarking(name.as_str());
                let d = dir.clone();
                (
                    Stage::AddingBenchmark { dir },
                    Action::AddBenchmark { dir: d, name, sections, source: benchmark_source() },
                )
            },
            None => delete_file_action(dir),
        },
        (Stage::AddingBenchmark { dir }, Event::Done) => delete_file_action(dir),
        (Stage::WritingDeleteFile { dir }, Event::Done) => {
            let d = dir.clone();
            (Stage::StartingSubprocesses { dir }, Action::StartSubprocesses { dir: d })
        },
        (Stage::StartingSubprocesses { dir }, Event::Done) => {
            let welcome = if req.welcome && config.welcome_message {
                Some(
                    owned(
                        "\nTo preserve the project when exiting the shell, don't forget to delete the `TO_DELETE` file.\nTo exit the project, you can type \"exit\" or use `Ctrl+D`",
                    ),
                )
            } else {
                None
            };
            let command = shell_command(config, env.shell.as_str(), dir.as_str());
            let target_dir = target_dir_to_set(env.target_dir_set, &config.cargo_target_dir);
            let d = dir.clone();
            (Stage::InShell { dir }, Action::OpenSession { dir: d, welcome, command, target_dir })
        },
        (Stage::InShell { dir }, Event::Done) => {
            let d = dir.clone();
            (
                Stage::CheckingDeleteFile { dir, shell_error: None },
                Action::CheckDeleteFile { dir: d, file_name: owned("TO_DELETE") },
            )
        },
        (Stage::InShell { dir }, Event::Failed(f)) => {
            let d = dir.clone();
            (
                Stage::CheckingDeleteFile { dir, shell_error: Some(f.message) },
                Action::CheckDeleteFile { dir: d, file_name: owned("TO_DELETE") },
            )
        },
        (Stage::CheckingDeleteFile { dir, shell_error }, Event::DeleteFileFound(found)) => {
            if !found {
                preserve_action(req, config, dir, shell_error)
            } else if config.prompt {
                (
                    Stage::Asking { dir, shell_error },
                    Action::Ask {
                        say: Some(owned("Are you sure you want to delete this project? (Y/n)")),
                        complain: None,
                    },
                )
            } else {
                delete_action(req, dir, shell_error)
            }
        },
        (Stage::Asking { dir, shell_error }, Event::Answered(line)) => {
            match interpret_answer(line.as_str()) {
                Some(true) => delete_action(req, dir, shell_error),
                Some(false) => preserve_action(req, config, dir, shell_error),
                None => {
                    let mut say = owned("hmm, `");
                    let answer = trim_space(line.as_str());
                    append(&mut say, answer.as_str());
                    append(&mut say, "` doesn't look like `yes` or `no`");
                    (Stage::Asking { dir, shell_error }, Action::Ask { say: Some(say), complain: None })
                },
            }
        },
        (Stage::Asking { dir, shell_error }, Event::Failed(f)) => {
            let mut complain = owned("failed to read input: ");
            append(&mut complain, f.message.as_str());
            (Stage::Asking { dir, shell_error }, Action::Ask { say: None, complain: Some(complain) })
        },
        (Stage::Preserving { shell_error }, Event::Done) => (
            Stage::StoppingSubprocesses { shell_error },
            Action::StopSubprocesses { discard_project: false },
        ),
        (Stage::RemovingWorktree { shell_error }, Event::Exited { success }) => {
            if success {
                (
                    Stage::StoppingSubprocesses { shell_error },
                    Action::StopSubprocesses { discard_project: true },
                )
            } else {
                failed_action(failure("cannot remove working tree"))
            }
        },
        (Stage::StoppingSubprocesses { shell_error }, Event::Done) => {
            let result = match shell_error {
                None => Ok(()),
                Some(e) => {
                    if req.shell_error_detail {
                        let mut message = owned("problem within the shell process: ");
                        append(&mut message, e.as_str());
                        Err(Failure { message, cause: None })
                    } else {
                        Err(failure("problem within the shell process"))
                    }
                },
            };
            (Stage::Finished, Action::Finish(result))
        },
        (_, Event::Failed(f)) => failed_action(f),
        _ => failed_action(failure("unexpected event")),
    }
}

/// The text appended to `Cargo.toml` for the dependencies: each on a line of its own.
pub open spec fn manifest_text(deps: Seq<DependencyValue>) -> Seq<char>
    decreases deps.len(),
{
    if deps.len() == 0 {
        Seq::empty()
    } else {
        manifest_text(deps.drop_last()) + toml_text(deps.last()) + "\n"@
    }
}

/// The text appended to `Cargo.toml` for the dependencies.
pub fn manifest_lines(deps: &Vec<Dependency>) -> (r: String)
    ensures
        r@ == manifest_text(deps@.map_values(|d: Dependency| d@)),
{
    let ghost all = deps@.map_values(|d: Dependency| d@);
    let mut out = String::new();
    let mut i: usize = 0;
    assert(all.take(0) =~= Seq::<DependencyValue>::empty());
    while i < deps.len()
        invariant
            all == deps@.map_values(|d: Dependency| d@),
            i <= deps@.len(),
            out@ == manifest_text(all.take(i as int)),
        decreases deps@.len() - i,
    {
        assert(all.take(i + 1).drop_last() =~= all.take(i as int));
        assert(all.take(i + 1).last() == deps@[i as int]@);
        let line = deps[i].to_string();
        append(&mut out, line.as_str());
        append(&mut out, "\n");
        i = i + 1;
    }
    assert(all.take(deps@.len() as int) =~= all);
    out
}

/// What the current command line asks for.
pub open spec fn request_of(cli: Cli) -> RequestValue {
    RequestValue {
        worktree_branch: cli.worktree_branch.deep_view(),
        project_name: cli.project_name.deep_view(),
        lib: cli.lib,
        git: cli.git.deep_view(),
        edition: cli.edition.deep_view(),
        bench: cli.bench.deep_view(),
        manifest: manifest_text(cli.dependencies@.map_values(|d: Dependency| d@)),
        welcome: true,
        shell_error_detail: false,
    }
}

fn clone_nested(o: &Option<Option<String>>) -> (r: Option<Option<String>>)
    ensures
        r.deep_view() == o.deep_view(),
{
    match o {
        Some(inner) => Some(clone_option(inner)),
        None => None,
    }
}

/// What the current command line asks for.
pub fn request_for(cli: &Cli) -> (r: Request)
    ensures
        r@ == request_of(*cli),
{
    Request {
        worktree_branch: clone_nested(&cli.worktree_branch),
        project_name: clone_option(&cli.project_name),
        lib: cli.lib,
        git: clone_option(&cli.git),
        edition: clone_option(&cli.edition),
        bench: clone_nested(&cli.bench),
        manifest: manifest_lines(&cli.dependencies),
        welcome: true,
        shell_error_detail: false,
    }
}

/// One step of a session for the current command line.
pub fn execute(cli: &Cli, config: &Config, env: &Environment, stage: Stage, event: Event) -> (r: (
    Stage,
    Action,
))
    requires
        accepts(stage@, event@),
    ensures
        (r.0@, r.1@) == next(request_of(*cli), *config, env@, stage@, event@),
{
    let req = request_for(cli);
    step(&req, config, env, stage, event)
}


/// Whether `stage` waits for `event`.
pub fn accepts_event(stage: &Stage, event: &Event) -> (r: bool)
    ensures
        r == accepts(stage@, event@),
{
    match stage {
        Stage::Start => matches!(event, Event::Begin),
        Stage::CreatingDirectory => matches!(event, Event::DirectoryCreated { .. } | Event::Failed(_)),
        Stage::Initializing { .. } => matches!(event, Event::Exited { .. } | Event::Failed(_)),
        Stage::CheckingDeleteFile { .. } => matches!(event, Event::DeleteFileFound(_)),
        Stage::Asking { .. } => matches!(event, Event::Answered(_) | Event::Failed(_)),
        Stage::RemovingWorktree { .. } => matches!(event, Event::Exited { .. } | Event::Failed(_)),
        Stage::Finished => false,
        _ => matches!(event, Event::Done | Event::Failed(_)),
    }
}

} // verus!
