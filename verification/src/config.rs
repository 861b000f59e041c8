//! The configuration of cargo-temp, read from `config.toml`.
use crate::subprocess::SubProcess;
use crate::text::{append, owned};
use vstd::prelude::*;

verus! {

/// The settings of the configuration file.
pub struct Config {
    pub welcome_message: bool,
    pub temporary_project_dir: Option<String>,
    pub preserved_project_dir: Option<String>,
    pub prompt: bool,
    pub vcs: Option<String>,
    pub git_repo_depth: Option<Depth>,
    pub cargo_target_dir: Option<String>,
    pub editor: Option<String>,
    pub editor_args: Option<Vec<String>>,
    pub subprocesses: Vec<SubProcess>,
}

/// How much history `git clone` keeps: `Active(true)` the last commit,
/// `Active(false)` all of it, `Level(n)` the last `n` commits.
#[derive(Debug, Clone, Copy, PartialEq, Eq, Structural)]
pub enum Depth {
    Active(bool),
    Level(u8),
}

/// The digit `d` (from 0 to 9) as text.
pub open spec fn digit_text(d: int) -> Seq<char> {
    "0123456789"@.subrange(d, d + 1)
}

/// The decimal digits of `n`.
pub open spec fn decimal(n: nat) -> Seq<char>
    decreases n,
{
    if n < 10 {
        digit_text(n as int)
    } else {
        decimal(n / 10) + digit_text((n % 10) as int)
    }
}

fn digit(d: u8) -> (r: String)
    requires
        d < 10,
    ensures
        r@ == digit_text(d as int),
{
    let digits = "0123456789";
    proof {
        reveal_strlit("0123456789");
    }
    digits.substring_char(d as usize, (d + 1) as usize).to_owned()
}

/// The decimal digits of `n`.
pub fn decimal_text(n: u8) -> (r: String)
    ensures
        r@ == decimal(n as nat),
{
    if n < 10 {
        digit(n)
    } else if n < 100 {
        let mut out = digit(n / 10);
        let low = digit(n % 10);
        append(&mut out, low.as_str());
        assert(decimal((n / 10) as nat) == digit_text((n / 10) as int));
        out
    } else {
        let mut out = digit(n / 100);
        let mid = digit((n / 10) % 10);
        let low = digit(n % 10);
        append(&mut out, mid.as_str());
        append(&mut out, low.as_str());
        assert(decimal((n / 100) as nat) == digit_text((n / 100) as int));
        assert((n / 10) / 10 == n / 100);
        assert(decimal((n / 10) as nat) == decimal((n / 100) as nat) + digit_text(
            ((n / 10) % 10) as int,
        ));
        out
    }
}

/// The `--depth` arguments that `git clone` is given for a configured depth.
pub open spec fn depth_arguments(depth: Option<Depth>) -> Seq<Seq<char>> {
    match depth {
        Some(Depth::Active(false)) => Seq::empty(),
        Some(Depth::Level(level)) => seq!["--depth"@, decimal(level as nat)],
        _ => seq!["--depth"@, "1"@],
    }
}

/// The `--depth` arguments that `git clone` is given: none when the depth
/// is disabled, the level when one is set, `1` otherwise.
pub fn depth_args(depth: Option<Depth>) -> (r: Vec<String>)
    ensures
        r.deep_view() == depth_arguments(depth),
{
    match depth {
        Some(Depth::Active(false)) => Vec::new(),
        Some(Depth::Level(level)) => vec![owned("--depth"), decimal_text(level)],
        _ => vec![owned("--depth"), owned("1")],
    }
}

/// The editor that the configuration template suggests.
pub open spec fn suggested_editor(windows: bool) -> Seq<char> {
    if windows {
        "C:\\Program Files\\Microsoft VS Code\\Code.exe"@
    } else {
        "/usr/bin/code"@
    }
}

/// The opening of the configuration template, up to the temporary project directory.
pub open spec fn template_head() -> Seq<char> {
    "# cargo-temp configuration.\n\n# Directory where the temporary projects are created.\ntemporary_project_dir = '"@
}

/// The part of the template between the temporary project directory and the suggested editor.
pub open spec fn template_middle() -> Seq<char> {
    "'\n\n# Print how to preserve the project when the shell starts.\nwelcome_message = true\n\n# Directory where preserved projects are moved.\n# preserved_project_dir = '/path/to/preserved/projects'\n\n# Ask before deleting the project when the shell exits.\n# prompt = false\n\n# Version control system given to `cargo init --vcs`.\n# vcs = 'git'\n\n# History kept by `--git` clones: true (the last commit), false (all), or a number of commits.\n# git_repo_depth = true\n\n# `CARGO_TARGET_DIR` for the projects, when it is not set already.\n# cargo_target_dir = '/path/to/target'\n\n# Editor opened on the project instead of a shell, and its arguments.\n# editor = '"@
}

/// The end of the template, after the suggested editor.
pub open spec fn template_tail() -> Seq<char> {
    "'\n# editor_args = ['--new-window']\n\n# Commands started beside the shell.\n# [[subprocess]]\n# command = 'cargo watch -x check'\n# foreground = false\n# keep_on_exit = false\n# working_dir = '/path/to/directory'\n# stdout = false\n# stderr = false\n"@
}

/// The configuration file written on the first run.
pub open spec fn template_text(temporary_project_dir: Seq<char>, windows: bool) -> Seq<char> {
    template_head() + temporary_project_dir + template_middle() + suggested_editor(windows)
        + template_tail()
}

impl Config {
    /// The configuration file written on the first run: it sets the
    /// temporary project directory, turns the welcome message on and
    /// suggests the rest of the settings in comments.
    pub fn template(temporary_project_dir: &str, windows: bool) -> (r: String)
        ensures
            r@ == template_text(temporary_project_dir@, windows),
    {
        let mut out = owned(
            "# cargo-temp configuration.\n\n# Directory where the temporary projects are created.\ntemporary_project_dir = '",
        );
        append(&mut out, temporary_project_dir);
        append(
            &mut out,
            "'\n\n# Print how to preserve the project when the shell starts.\nwelcome_message = true\n\n# Directory where preserved projects are moved.\n# preserved_project_dir = '/path/to/preserved/projects'\n\n# Ask before deleting the project when the shell exits.\n# prompt = false\n\n# Version control system given to `cargo init --vcs`.\n# vcs = 'git'\n\n# History kept by `--git` clones: true (the last commit), false (all), or a number of commits.\n# git_repo_depth = true\n\n# `CARGO_TARGET_DIR` for the projects, when it is not set already.\n# cargo_target_dir = '/path/to/target'\n\n# Editor opened on the project instead of a shell, and its arguments.\n# editor = '",
        );
        if windows {
            append(&mut out, "C:\\Program Files\\Microsoft VS Code\\Code.exe");
        } else {
            append(&mut out, "/usr/bin/code");
        }
        append(
            &mut out,
            "'\n# editor_args = ['--new-window']\n\n# Commands started beside the shell.\n# [[subprocess]]\n# command = 'cargo watch -x check'\n# foreground = false\n# keep_on_exit = false\n# working_dir = '/path/to/directory'\n# stdout = false\n# stderr = false\n",
        );
        out
    }

    /// The directory of the temporary projects: the configured one, else `default`.
    pub fn temporary_dir_or(&self, default: &str) -> (r: String)
        ensures
            r@ == match self.temporary_project_dir {
                Some(d) => d@,
                None => default@,
            },
    {
        match &self.temporary_project_dir {
            Some(d) => d.clone(),
            None => owned(default),
        }
    }
}

impl Default for Config {
    /// The configuration used when there is no configuration file: the
    /// welcome message on, everything else off or unset.
    fn default() -> (r: Self)
        ensures
            r.welcome_message,
            r.temporary_project_dir is None,
            r.preserved_project_dir is None,
            !r.prompt,
            r.vcs is None,
            r.git_repo_depth is None,
            r.cargo_target_dir is None,
            r.editor is None,
            r.editor_args is None,
            r.subprocesses@.len() == 0,
    {
        Config {
            welcome_message: true,
            cargo_target_dir: None,
            preserved_project_dir: None,
            prompt: false,
            editor: None,
            editor_args: None,
            temporary_project_dir: None,
            git_repo_depth: None,
            vcs: None,
            subprocesses: Vec::new(),
        }
    }
}

} // verus!
