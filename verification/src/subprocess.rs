//! Processes started beside the project's shell, as configured in the
//! `[[subprocess]]` tables of the configuration file.
use crate::text::{append, owned};
use vstd::prelude::*;

verus! {

/// A command run in the project directory when the shell starts.
pub struct SubProcess {
    /// The command line, run through the user's shell on Unix.
    pub command: String,
    /// Whether the shell waits for the command to finish before it starts.
    pub foreground: bool,
    /// Whether a background command is left running when the shell exits.
    pub keep_on_exit: bool,
    /// The directory to run the command in, instead of the project directory.
    pub working_dir: Option<String>,
    /// Whether the command's standard output is shown (Unix).
    pub stdout: Option<bool>,
    /// Whether the command's standard error is shown (Unix).
    pub stderr: Option<bool>,
    /// Whether the command inherits the console's handles (Windows).
    pub inherit_handles: Option<bool>,
}


/// Whether an output stream is discarded: a stream is shown when the
/// setting says so, and by default only for a foreground command.
pub open spec fn discarded(foreground: bool, shown: Option<bool>) -> bool {
    !match shown {
        Some(b) => b,
        None => foreground,
    }
}

/// How a subprocess is started on Unix: `SHELL -c COMMAND` in its working
/// directory (the project directory by default), with no input.
pub struct SpawnPlan {
    pub program: String,
    pub args: Vec<String>,
    pub current_dir: String,
    pub discard_stdout: bool,
    pub discard_stderr: bool,
    /// Whether the command is waited for before the shell starts.
    pub wait: bool,
}

impl SubProcess {
    /// How the subprocess is started, with `shell` as the command interpreter.
    pub fn plan(&self, project_dir: &str, shell: &str) -> (r: SpawnPlan)
        ensures
            r.program@ == shell@,
            r.args.deep_view() == seq!["-c"@, self.command@],
            r.current_dir@ == match self.working_dir {
                Some(d) => d@,
                None => project_dir@,
            },
            r.discard_stdout == discarded(self.foreground, self.stdout),
            r.discard_stderr == discarded(self.foreground, self.stderr),
            r.wait == self.foreground,
    {
        let args = vec![owned("-c"), self.command.clone()];
        assert(args.deep_view() =~= seq!["-c"@, self.command@]);
        let shown_stdout = match self.stdout {
            Some(b) => b,
            None => self.foreground,
        };
        let shown_stderr = match self.stderr {
            Some(b) => b,
            None => self.foreground,
        };
        SpawnPlan {
            program: owned(shell),
            args,
            current_dir: match &self.working_dir {
                Some(d) => d.clone(),
                None => owned(project_dir),
            },
            discard_stdout: !shown_stdout,
            discard_stderr: !shown_stderr,
            wait: self.foreground,
        }
    }

    /// Whether a started subprocess is stopped when the shell exits: a
    /// background command that started, unless it is kept on exit.
    pub fn stopped_on_exit(&self, started: bool) -> (r: bool)
        ensures
            r == (!self.foreground && started && !self.keep_on_exit),
    {
        !self.foreground && started && !self.keep_on_exit
    }

    /// The error logged when the subprocess could not be run.
    pub fn failure_message(&self, error: &str) -> (r: String)
        ensures
            r@ == if self.foreground {
                "an error occurred within the foreground subprocess: "@ + error@
            } else {
                "an error occurred within the subprocess"@
            },
    {
        if self.foreground {
            let mut out = owned("an error occurred within the foreground subprocess: ");
            append(&mut out, error);
            out
        } else {
            owned("an error occurred within the subprocess")
        }
    }
}

/// How long a background subprocess is given to stop once asked, in seconds.
pub const STOP_GRACE_SECS: u64 = 2;

/// How often a subprocess that was asked to stop is checked, in milliseconds.
pub const STOP_POLL_MILLIS: u64 = 200;

/// Whether to go on waiting for a subprocess that was asked to stop: it has
/// not exited, and the grace period is not over. One that is still running
/// when the waiting ends is killed.
pub fn keep_waiting(elapsed_secs: u64, exited: bool) -> (r: bool)
    ensures
        r == (!exited && elapsed_secs < STOP_GRACE_SECS),
{
    !exited && elapsed_secs < STOP_GRACE_SECS
}

} // verus!
