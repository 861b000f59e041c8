use cargo_temp::benchmarking::{bench_name, benchmark_source, format_benchmarking};
use cargo_temp::config::{decimal_text, depth_args, Config, Depth};
use cargo_temp::subprocess::SubProcess;

#[test]
fn benchmarking_sections() {
    assert_eq!(
        format_benchmarking("speed"),
        "\n[dev-dependencies]\ncriterion = \"*\"\n\n[profile.release]\ndebug = true\n\n[[bench]]\nname = \"speed\"\nharness = false"
    );
    assert_eq!(bench_name(None), "benchmark");
    assert_eq!(bench_name(Some("speed")), "speed");
    assert!(benchmark_source().starts_with("use criterion::"));
    assert!(benchmark_source().ends_with("criterion_main!(benches);"));
}

#[test]
fn clone_depth() {
    assert_eq!(depth_args(None), vec!["--depth", "1"]);
    assert_eq!(depth_args(Some(Depth::Active(true))), vec!["--depth", "1"]);
    assert!(depth_args(Some(Depth::Active(false))).is_empty());
    assert_eq!(depth_args(Some(Depth::Level(12))), vec!["--depth", "12"]);
}

#[test]
fn decimal_numbers() {
    assert_eq!(decimal_text(0), "0");
    assert_eq!(decimal_text(7), "7");
    assert_eq!(decimal_text(42), "42");
    assert_eq!(decimal_text(100), "100");
    assert_eq!(decimal_text(255), "255");
}

#[test]
fn default_configuration() {
    let config = Config::default();
    assert!(config.welcome_message);
    assert!(!config.prompt);
    assert!(config.temporary_project_dir.is_none());
    assert!(config.editor.is_none());
    assert!(config.subprocesses.is_empty());
    assert_eq!(config.temporary_dir_or("/cache"), "/cache");
}

#[test]
fn template_reads_back() {
    let text = Config::template("/home/user/.cache/cargo-temp", false);
    let table: toml::Table = text.parse().expect("the template is valid TOML");
    assert_eq!(
        table.get("temporary_project_dir").and_then(|v| v.as_str()),
        Some("/home/user/.cache/cargo-temp")
    );
    assert_eq!(table.get("welcome_message").and_then(|v| v.as_bool()), Some(true));
    assert_eq!(table.len(), 2);
    assert!(text.contains("# editor = '/usr/bin/code'"));
    let windows = Config::template(r"C:\Users\me\AppData\Local\cargo-temp", true);
    let table: toml::Table = windows.parse().expect("the template is valid TOML");
    assert_eq!(
        table.get("temporary_project_dir").and_then(|v| v.as_str()),
        Some(r"C:\Users\me\AppData\Local\cargo-temp")
    );
    assert!(windows.contains(r"# editor = 'C:\Program Files\Microsoft VS Code\Code.exe'"));
}

fn subprocess(foreground: bool, stdout: Option<bool>, keep_on_exit: bool) -> SubProcess {
    SubProcess {
        command: "cargo watch".to_string(),
        foreground,
        keep_on_exit,
        working_dir: None,
        stdout,
        stderr: None,
        inherit_handles: None,
    }
}

#[test]
fn subprocess_plans() {
    let background = subprocess(false, None, false);
    let plan = background.plan("/tmp/p", "/bin/bash");
    assert_eq!(plan.program, "/bin/bash");
    assert_eq!(plan.args, vec!["-c", "cargo watch"]);
    assert_eq!(plan.current_dir, "/tmp/p");
    assert!(plan.discard_stdout && plan.discard_stderr && !plan.wait);
    assert!(background.stopped_on_exit(true));
    assert!(!background.stopped_on_exit(false));

    let shown = subprocess(false, Some(true), true);
    let plan = shown.plan("/tmp/p", "/bin/sh");
    assert!(!plan.discard_stdout && plan.discard_stderr);
    assert!(!shown.stopped_on_exit(true));

    let mut foreground = subprocess(true, Some(false), false);
    foreground.working_dir = Some("/work".to_string());
    let plan = foreground.plan("/tmp/p", "/bin/sh");
    assert!(plan.discard_stdout && !plan.discard_stderr && plan.wait);
    assert_eq!(plan.current_dir, "/work");
    assert!(!foreground.stopped_on_exit(true));
    assert_eq!(
        foreground.failure_message("no such file"),
        "an error occurred within the foreground subprocess: no such file"
    );
    assert_eq!(background.failure_message("x"), "an error occurred within the subprocess");
}
