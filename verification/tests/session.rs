use cargo_temp::cli::Cli;
use cargo_temp::config::{Config, Depth};
use cargo_temp::dependency::Dependency;
use cargo_temp::project::{
    edition_args, execute, get_shell, init_command, interpret_answer, project_crate_name,
    request_for, step, tempdir_prefix, tempdir_suffix, Action, Environment, Event, Failure,
    Request, Stage,
};

fn cli() -> Cli {
    Cli {
        dependencies: vec![Dependency::from_str("anyhow").unwrap()],
        lib: false,
        edition: None,
        project_name: None,
        bench: None,
        worktree_branch: None,
        git: None,
    }
}

fn env() -> Environment {
    Environment {
        temporary_project_dir: "/cache".to_string(),
        shell: "/bin/zsh".to_string(),
        target_dir_set: false,
    }
}

fn args(action: &Action) -> Vec<String> {
    match action {
        Action::Run(command) => command.args.clone(),
        _ => panic!("not a command"),
    }
}

#[test]
fn directory_names() {
    assert_eq!(tempdir_prefix(true), "wk-");
    assert_eq!(tempdir_prefix(false), "tmp-");
    assert_eq!(tempdir_suffix(&Some("demo".to_string())), "-demo");
    assert_eq!(tempdir_suffix(&None), "");
    assert_eq!(project_crate_name(&None, "tmp-AbC123"), "tmp-abc123");
    assert_eq!(project_crate_name(&Some("Mine".to_string()), "tmp-x"), "Mine");
    assert_eq!(get_shell(None), "/bin/sh");
    assert_eq!(get_shell(Some("/bin/fish".to_string())), "/bin/fish");
}

#[test]
fn editions() {
    assert_eq!(edition_args("2015"), Some(vec!["--edition".to_string(), "2015".to_string()]));
    assert_eq!(edition_args("18"), Some(vec!["--edition".to_string(), "2018".to_string()]));
    assert_eq!(edition_args("21"), Some(vec!["--edition".to_string(), "2021".to_string()]));
    assert_eq!(edition_args("2024"), None);
}

#[test]
fn answers() {
    for yes in ["", "y", "Y", "yes", "Yes", "  yes\n"] {
        assert_eq!(interpret_answer(yes), Some(true), "{yes:?}");
    }
    for no in ["n", "N", "no", "No", "no\n"] {
        assert_eq!(interpret_answer(no), Some(false), "{no:?}");
    }
    assert_eq!(interpret_answer("maybe"), None);
    assert_eq!(interpret_answer("YES"), None);
}

#[test]
fn init_commands() {
    let mut c = cli();
    c.lib = true;
    c.edition = Some("2018".to_string());
    let req = request_for(&c);
    let cmd = init_command(&req, "/cache/tmp-1", "tmp-1", None, &Some("git".to_string()));
    assert_eq!(cmd.program, "cargo");
    assert_eq!(cmd.args, vec!["init", "--name", "tmp-1", "--lib", "--vcs", "git", "--edition", "2018"]);
    assert_eq!(cmd.current_dir.as_deref(), Some("/cache/tmp-1"));
    assert_eq!(cmd.exit_failure, "cargo command failed");
    assert!(cmd.warning.is_none());

    c.edition = Some("2024".to_string());
    let cmd = init_command(&request_for(&c), "/d", "d", None, &None);
    assert_eq!(cmd.args, vec!["init", "--name", "d", "--lib"]);
    assert_eq!(cmd.warning.as_deref(), Some("cannot find the 2024 edition, using the latest"));

    let mut c = cli();
    c.git = Some("https://github.com/rust-random/rand".to_string());
    let cmd = init_command(&request_for(&c), "/d", "d", Some(Depth::Level(3)), &None);
    assert_eq!(cmd.program, "git");
    assert_eq!(cmd.args, vec!["clone", "https://github.com/rust-random/rand", "/d", "--depth", "3"]);
    assert_eq!(cmd.exit_failure, "cannot clone repository");

    let mut c = cli();
    c.worktree_branch = Some(None);
    let cmd = init_command(&request_for(&c), "/d", "d", None, &None);
    assert_eq!(cmd.args, vec!["worktree", "add", "-d", "/d"]);
    c.worktree_branch = Some(Some("main".to_string()));
    let cmd = init_command(&request_for(&c), "/d", "d", None, &None);
    assert_eq!(cmd.args, vec!["worktree", "add", "/d", "main"]);
    assert_eq!(cmd.exit_failure, "cannot create working tree");
}

#[test]
fn a_whole_session_that_deletes_the_project() {
    let c = cli();
    let config = Config::default();
    let env = env();
    let (stage, action) = execute(&c, &config, &env, Stage::Start, Event::Begin);
    match &action {
        Action::CreateDirectory { parent, prefix, suffix, .. } => {
            assert_eq!(parent, "/cache");
            assert_eq!(prefix, "tmp-");
            assert_eq!(suffix, "");
        }
        _ => panic!("expected a directory"),
    }
    let created = Event::DirectoryCreated { dir: "/cache/tmp-XY".to_string(), dir_name: "tmp-XY".to_string() };
    let (stage, action) = execute(&c, &config, &env, stage, created);
    assert_eq!(args(&action), vec!["init", "--name", "tmp-xy"]);
    let (stage, action) = execute(&c, &config, &env, stage, Event::Exited { success: true });
    match &action {
        Action::AppendToManifest { dir, text } => {
            assert_eq!(dir, "/cache/tmp-XY");
            assert_eq!(text, "anyhow = \"*\"\n");
        }
        _ => panic!("expected the manifest"),
    }
    let (stage, action) = execute(&c, &config, &env, stage, Event::Done);
    match &action {
        Action::WriteDeleteFile { file_name, text, .. } => {
            assert_eq!(file_name, "TO_DELETE");
            assert_eq!(text, "Delete this file if you want to preserve this project");
        }
        _ => panic!("expected the delete file"),
    }
    let (stage, action) = execute(&c, &config, &env, stage, Event::Done);
    assert!(matches!(action, Action::StartSubprocesses { .. }));
    let (stage, action) = execute(&c, &config, &env, stage, Event::Done);
    match &action {
        Action::OpenSession { welcome, command, target_dir, .. } => {
            assert!(welcome.as_deref().unwrap().contains("TO_DELETE"));
            assert_eq!(command.program, "/bin/zsh");
            assert!(command.args.is_empty());
            assert!(target_dir.is_none());
        }
        _ => panic!("expected the shell"),
    }
    let (stage, action) = execute(&c, &config, &env, stage, Event::Done);
    assert!(matches!(action, Action::CheckDeleteFile { .. }));
    let (stage, action) = execute(&c, &config, &env, stage, Event::DeleteFileFound(true));
    assert!(matches!(action, Action::StopSubprocesses { discard_project: true }));
    let (stage, action) = execute(&c, &config, &env, stage, Event::Done);
    assert!(matches!(action, Action::Finish(Ok(()))));
    assert!(matches!(stage, Stage::Finished));
}

#[test]
fn a_failed_shell_is_reported_after_the_clean_up() {
    let c = cli();
    let config = Config::default();
    let env = env();
    let shell_failed = Event::Failed(Failure { message: "cannot spawn shell process".to_string(), cause: None });
    let (stage, action) = execute(&c, &config, &env, Stage::InShell { dir: "/d".to_string() }, shell_failed);
    assert!(matches!(action, Action::CheckDeleteFile { .. }));
    let (stage, action) = execute(&c, &config, &env, stage, Event::DeleteFileFound(false));
    match &action {
        Action::Preserve { dir, preserved_dir, target, relocate, .. } => {
            assert_eq!(dir, "/d");
            assert!(preserved_dir.is_none());
            assert_eq!(target.as_deref(), Some("/d"));
            assert!(!relocate);
        }
        _ => panic!("expected the project to be preserved"),
    }
    let (stage, action) = execute(&c, &config, &env, stage, Event::Done);
    assert!(matches!(action, Action::StopSubprocesses { discard_project: false }));
    let (_, action) = execute(&c, &config, &env, stage, Event::Done);
    match action {
        Action::Finish(Err(f)) => assert_eq!(f.message, "problem within the shell process"),
        _ => panic!("expected a failure"),
    }
}

#[test]
fn prompting_before_deleting() {
    let c = cli();
    let mut config = Config::default();
    config.prompt = true;
    let env = env();
    let start = Stage::CheckingDeleteFile { dir: "/d".to_string(), shell_error: None };
    let (stage, action) = execute(&c, &config, &env, start, Event::DeleteFileFound(true));
    match &action {
        Action::Ask { say, complain } => {
            assert_eq!(say.as_deref(), Some("Are you sure you want to delete this project? (Y/n)"));
            assert!(complain.is_none());
        }
        _ => panic!("expected a question"),
    }
    let (stage, action) = execute(&c, &config, &env, stage, Event::Answered(" maybe \n".to_string()));
    match &action {
        Action::Ask { say, .. } => assert_eq!(say.as_deref(), Some("hmm, `maybe` doesn't look like `yes` or `no`")),
        _ => panic!("expected a question"),
    }
    let (stage, action) = execute(&c, &config, &env, stage, Event::Failed(Failure { message: "closed".to_string(), cause: None }));
    match &action {
        Action::Ask { say, complain } => {
            assert!(say.is_none());
            assert_eq!(complain.as_deref(), Some("failed to read input: closed"));
        }
        _ => panic!("expected a question"),
    }
    let (_, action) = execute(&c, &config, &env, stage, Event::Answered("n\n".to_string()));
    assert!(matches!(action, Action::Preserve { .. }));
}

#[test]
fn worktrees_of_a_branch_are_removed() {
    let mut c = cli();
    c.worktree_branch = Some(Some("feature".to_string()));
    let config = Config::default();
    let env = env();
    let start = Stage::CheckingDeleteFile { dir: "/d".to_string(), shell_error: None };
    let (stage, action) = execute(&c, &config, &env, start, Event::DeleteFileFound(true));
    assert_eq!(args(&action), vec!["worktree", "remove", "/d", "--force"]);
    let (_, action) = execute(&c, &config, &env, stage, Event::Exited { success: false });
    match action {
        Action::Finish(Err(f)) => assert_eq!(f.message, "cannot remove working tree"),
        _ => panic!("expected a failure"),
    }
}

#[test]
fn editors_and_benchmarks() {
    let mut c = cli();
    c.bench = Some(None);
    let mut config = Config::default();
    config.editor = Some("code".to_string());
    config.editor_args = Some(vec!["--wait".to_string()]);
    config.cargo_target_dir = Some("/target".to_string());
    config.welcome_message = false;
    let env = env();
    let (stage, action) = execute(&c, &config, &env, Stage::AddingDependencies { dir: "/d".to_string() }, Event::Done);
    match &action {
        Action::AddBenchmark { name, sections, .. } => {
            assert_eq!(name, "benchmark");
            assert!(sections.ends_with("name = \"benchmark\"\nharness = false"));
        }
        _ => panic!("expected the benchmark"),
    }
    let (_, action) = execute(&c, &config, &env, stage, Event::Done);
    assert!(matches!(action, Action::WriteDeleteFile { .. }));
    let (_, action) = execute(&c, &config, &env, Stage::StartingSubprocesses { dir: "/d".to_string() }, Event::Done);
    match &action {
        Action::OpenSession { welcome, command, target_dir, .. } => {
            assert!(welcome.is_none());
            assert_eq!(command.program, "code");
            assert_eq!(command.args, vec!["--wait", "/d"]);
            assert_eq!(target_dir.as_deref(), Some("/target"));
        }
        _ => panic!("expected the editor"),
    }
}

#[test]
fn early_failures_end_the_session() {
    let c = cli();
    let config = Config::default();
    let env = env();
    let (_, action) = execute(&c, &config, &env, Stage::Initializing { dir: "/d".to_string() }, Event::Exited { success: false });
    match action {
        Action::Finish(Err(f)) => assert_eq!(f.message, "cargo command failed"),
        _ => panic!("expected a failure"),
    }
    let failure = Failure { message: "Could not start cargo".to_string(), cause: Some("not found".to_string()) };
    let (stage, action) = execute(&c, &config, &env, Stage::Initializing { dir: "/d".to_string() }, Event::Failed(failure));
    assert!(matches!(stage, Stage::Finished));
    match action {
        Action::Finish(Err(f)) => {
            assert_eq!(f.message, "Could not start cargo");
            assert_eq!(f.cause.as_deref(), Some("not found"));
        }
        _ => panic!("expected a failure"),
    }
}

#[test]
fn the_first_interface_reports_the_shell_error() {
    let first = cargo_temp::Cli {
        dependencies: vec![cargo_temp::parse_dependency("tokio+io_std")],
        lib: true,
        project_name: None,
        worktree_branch: None,
        git: None,
    };
    let req: Request = first.request();
    assert_eq!(req.manifest, "tokio = { version = \"*\", features = [\"io_std\"] }\n");
    let config = Config::default();
    let env = env();
    let (_, action) = step(&req, &config, &env, Stage::StartingSubprocesses { dir: "/d".to_string() }, Event::Done);
    match &action {
        Action::OpenSession { welcome, .. } => assert!(welcome.is_none()),
        _ => panic!("expected the shell"),
    }
    let (_, action) = first.run(
        &config,
        &env,
        Stage::StoppingSubprocesses { shell_error: Some("cannot wait shell process".to_string()) },
        Event::Done,
    );
    match action {
        Action::Finish(Err(f)) => assert_eq!(f.message, "problem within the shell process: cannot wait shell process"),
        _ => panic!("expected a failure"),
    }
}

#[test]
fn first_interface_quotes_with_debug_escapes() {
    let dep = cargo_temp::Dependency::Repository {
        branch: Some("a\"b".to_string()),
        name: "x".to_string(),
        rev: None,
        url: "u".to_string(),
        features: vec!["f\\g".to_string()],
    };
    assert_eq!(
        cargo_temp::format_dependency(&dep),
        "x = { git = \"u\", branch = \"a\\\"b\", features = [\"f\\\\g\"] }"
    );
    assert!(cargo_temp::try_parse_dependency("..=1").is_none());
    assert_eq!(
        cargo_temp::try_parse_dependency("anyhow=1"),
        Some(cargo_temp::Dependency::CratesIo { name: "anyhow".to_string(), version: Some("1".to_string()), features: vec![] })
    );
}
