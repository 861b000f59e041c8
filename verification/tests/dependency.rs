use cargo_temp::dependency::Dependency;

fn crates_io(name: &str, version: Option<&str>, features: &[&str], default_features: bool) -> Dependency {
    Dependency::CratesIo {
        name: name.to_string(),
        version: version.map(|v| v.to_string()),
        features: features.iter().map(|f| f.to_string()).collect(),
        default_features,
    }
}

#[allow(clippy::too_many_arguments)]
fn repository(
    name: &str,
    url: &str,
    version: Option<&str>,
    features: &[&str],
    default_features: bool,
    branch: Option<&str>,
    rev: Option<&str>,
    tag: Option<&str>,
) -> Dependency {
    Dependency::Repository {
        name: name.to_string(),
        version: version.map(|v| v.to_string()),
        features: features.iter().map(|f| f.to_string()).collect(),
        default_features,
        url: url.to_string(),
        branch: branch.map(|v| v.to_string()),
        rev: rev.map(|v| v.to_string()),
        tag: tag.map(|v| v.to_string()),
    }
}

fn local(name: &str, path: &str, version: Option<&str>, features: &[&str], default_features: bool) -> Dependency {
    Dependency::Path {
        name: name.to_string(),
        path: path.to_string(),
        version: version.map(|v| v.to_string()),
        features: features.iter().map(|f| f.to_string()).collect(),
        default_features,
    }
}

fn check(input: &str, dependency: Dependency, out: &str) {
    assert_eq!(
        Dependency::from_str(input).expect("failed to parse dependency"),
        dependency,
    );
    assert_eq!(dependency.to_string(), out, "failed to format dependency");
}

const TOKIO: &str = "https://github.com/tokio-rs/tokio.git";
const CLAP: &str = "https://github.com/clap-rs/clap";
const RAND: &str = "ssh://git@github.com/rust-random/rand.git";
const LOG: &str = "ssh://git@github.com/rust-lang/log";

#[test]
fn could_not_parse() {
    let res = Dependency::from_str("http://localhost");
    assert!(res.is_err(), "{res:?}");
}

#[test]
fn base_crates_io() {
    check("anyhow", crates_io("anyhow", None, &[], true), "anyhow = \"*\"");
}

#[test]
fn base_http_repo() {
    check(
        TOKIO,
        repository("tokio", TOKIO, None, &[], true, None, None, None),
        "tokio = { git = \"https://github.com/tokio-rs/tokio.git\" }",
    );
}

#[test]
fn base_http_repo_no_extension() {
    check(
        CLAP,
        repository("clap", CLAP, None, &[], true, None, None, None),
        "clap = { git = \"https://github.com/clap-rs/clap\" }",
    );
}

#[test]
fn base_ssh_repo() {
    check(
        RAND,
        repository("rand", RAND, None, &[], true, None, None, None),
        "rand = { git = \"ssh://git@github.com/rust-random/rand.git\" }",
    );
}

#[test]
fn base_ssh_repo_no_extension() {
    check(
        LOG,
        repository("log", LOG, None, &[], true, None, None, None),
        "log = { git = \"ssh://git@github.com/rust-lang/log\" }",
    );
}

#[test]
fn base_unix_current_dir_path() {
    check(
        "./custom-core",
        local("custom-core", "./custom-core", None, &[], true),
        "custom-core = { path = \"./custom-core\" }",
    );
}

#[test]
fn base_unix_parent_dir_path() {
    check("../utils", local("utils", "../utils", None, &[], true), "utils = { path = \"../utils\" }");
}

#[test]
fn base_unix_absolute_path() {
    check(
        "/home/user/projects/shared-lib",
        local("shared-lib", "/home/user/projects/shared-lib", None, &[], true),
        "shared-lib = { path = \"/home/user/projects/shared-lib\" }",
    );
}

#[test]
fn base_windows_relative_path() {
    check(r"..\common", local("common", r"..\common", None, &[], true), "common = { path = \"..\\common\" }");
}

#[test]
fn base_windows_absolute_path() {
    check(
        r"C:\Users\user\projects\core-utils",
        local("core-utils", r"C:\Users\user\projects\core-utils", None, &[], true),
        "core-utils = { path = \"C:\\Users\\user\\projects\\core-utils\" }",
    );
}

#[test]
fn version_crates_io() {
    check("anyhow=1.0.100", crates_io("anyhow", Some("1.0.100"), &[], true), "anyhow = \"1.0.100\"");
}

#[test]
fn version_http_repo() {
    check(
        "https://github.com/tokio-rs/tokio.git=1.48",
        repository("tokio", TOKIO, Some("1.48"), &[], true, None, None, None),
        "tokio = { git = \"https://github.com/tokio-rs/tokio.git\", version = \"1.48\" }",
    );
}

#[test]
fn version_windows_absolute_path() {
    check(
        r"C:\Users\user\projects\core-utils=1.0.12",
        local("core-utils", r"C:\Users\user\projects\core-utils", Some("1.0.12"), &[], true),
        "core-utils = { path = \"C:\\Users\\user\\projects\\core-utils\", version = \"1.0.12\" }",
    );
}

#[test]
fn exact_version_crates_io() {
    check("anyhow==1.0.100", crates_io("anyhow", Some("=1.0.100"), &[], true), "anyhow = \"=1.0.100\"");
}

#[test]
fn exact_version_unix_parent_dir_path() {
    check(
        "../utils==0.1.0",
        local("utils", "../utils", Some("=0.1.0"), &[], true),
        "utils = { path = \"../utils\", version = \"=0.1.0\" }",
    );
}

#[test]
fn maximal_version_crates_io() {
    check("anyhow<1.0.100", crates_io("anyhow", Some("<1.0.100"), &[], true), "anyhow = \"<1.0.100\"");
}

#[test]
fn maximal_or_equal_version_ssh_repo() {
    check(
        "ssh://git@github.com/rust-random/rand.git<=0.9",
        repository("rand", RAND, Some("<=0.9"), &[], true, None, None, None),
        "rand = { git = \"ssh://git@github.com/rust-random/rand.git\", version = \"<=0.9\" }",
    );
}

#[test]
fn minimal_version_crates_io() {
    check("anyhow>1.0.100", crates_io("anyhow", Some(">1.0.100"), &[], true), "anyhow = \">1.0.100\"");
}

#[test]
fn minimal_or_equal_version_unix_absolute_path() {
    check(
        "/home/user/projects/shared-lib>=1.5",
        local("shared-lib", "/home/user/projects/shared-lib", Some(">=1.5"), &[], true),
        "shared-lib = { path = \"/home/user/projects/shared-lib\", version = \">=1.5\" }",
    );
}

#[test]
fn major_version_crates_io() {
    check("anyhow~1.0.100", crates_io("anyhow", Some("~1.0.100"), &[], true), "anyhow = \"~1.0.100\"");
}

#[test]
fn feature_crates_io() {
    check(
        "anyhow+backtrace",
        crates_io("anyhow", None, &["backtrace"], true),
        "anyhow = { version = \"*\", features = [\"backtrace\"] }",
    );
}

#[test]
fn feature_ssh_repo_no_extension() {
    check(
        "ssh://git@github.com/rust-lang/log+kv_std",
        repository("log", LOG, None, &["kv_std"], true, None, None, None),
        "log = { git = \"ssh://git@github.com/rust-lang/log\", features = [\"kv_std\"] }",
    );
}

#[test]
fn features_crates_io() {
    check(
        "anyhow+backtrace+std",
        crates_io("anyhow", None, &["backtrace", "std"], true),
        "anyhow = { version = \"*\", features = [\"backtrace\", \"std\"] }",
    );
}

#[test]
fn features_ssh_repo() {
    check(
        "ssh://git@github.com/rust-random/rand.git+small_rng+os_rng",
        repository("rand", RAND, None, &["small_rng", "os_rng"], true, None, None, None),
        "[dependencies.rand]
git = \"ssh://git@github.com/rust-random/rand.git\"
features = [\"small_rng\", \"os_rng\"]",
    );
}

#[test]
fn no_default_features_crates_io() {
    check(
        "anyhow+",
        crates_io("anyhow", None, &[], false),
        "anyhow = { version = \"*\", default-features = false }",
    );
}

#[test]
fn no_default_features_windows_relative_path() {
    check(
        r"..\common+",
        local("common", r"..\common", None, &[], false),
        "common = { path = \"..\\common\", default-features = false }",
    );
}

#[test]
fn branch_http_repo() {
    check(
        "https://github.com/tokio-rs/tokio.git#compat",
        repository("tokio", TOKIO, None, &[], true, Some("compat"), None, None),
        "tokio = { git = \"https://github.com/tokio-rs/tokio.git\", branch = \"compat\" }",
    );
}

#[test]
fn branch_ssh_repo_no_extension() {
    check(
        "ssh://git@github.com/rust-lang/log#0.3.x",
        repository("log", LOG, None, &[], true, Some("0.3.x"), None, None),
        "log = { git = \"ssh://git@github.com/rust-lang/log\", branch = \"0.3.x\" }",
    );
}

#[test]
fn rev_http_repo() {
    check(
        "https://github.com/tokio-rs/tokio.git#556820f",
        repository("tokio", TOKIO, None, &[], true, None, Some("556820f"), None),
        "tokio = { git = \"https://github.com/tokio-rs/tokio.git\", rev = \"556820f\" }",
    );
}

#[test]
fn rev_http_repo_no_extension() {
    check(
        "https://github.com/clap-rs/clap#c7c761f988684ad97c8b2c521b05cf7f8192b3eb",
        repository("clap", CLAP, None, &[], true, None, Some("c7c761f988684ad97c8b2c521b05cf7f8192b3eb"), None),
        "[dependencies.clap]
git = \"https://github.com/clap-rs/clap\"
rev = \"c7c761f988684ad97c8b2c521b05cf7f8192b3eb\"",
    );
}

#[test]
fn version_and_feature_ssh_repo() {
    check(
        "ssh://git@github.com/rust-random/rand.git=0.9+small_rng",
        repository("rand", RAND, Some("0.9"), &["small_rng"], true, None, None, None),
        "[dependencies.rand]
git = \"ssh://git@github.com/rust-random/rand.git\"
version = \"0.9\"
features = [\"small_rng\"]",
    );
}

#[test]
fn version_and_feature_crates_io() {
    check(
        "anyhow=1.0.100+backtrace",
        crates_io("anyhow", Some("1.0.100"), &["backtrace"], true),
        "anyhow = { version = \"1.0.100\", features = [\"backtrace\"] }",
    );
}

#[test]
fn no_default_features_and_feature_crates_io() {
    check(
        "anyhow++backtrace",
        crates_io("anyhow", None, &["backtrace"], false),
        "anyhow = { version = \"*\", default-features = false, features = [\"backtrace\"] }",
    );
}

#[test]
fn no_default_features_and_feature_http_repo() {
    check(
        "https://github.com/tokio-rs/tokio.git++io_std",
        repository("tokio", TOKIO, None, &["io_std"], false, None, None, None),
        "[dependencies.tokio]
git = \"https://github.com/tokio-rs/tokio.git\"
default-features = false
features = [\"io_std\"]",
    );
}

#[test]
fn no_default_features_and_feature_windows_absolute_path() {
    check(
        r"C:\Users\user\projects\core-utils++std",
        local("core-utils", r"C:\Users\user\projects\core-utils", None, &["std"], false),
        "[dependencies.core-utils]
path = \"C:\\Users\\user\\projects\\core-utils\"
default-features = false
features = [\"std\"]",
    );
}

#[test]
fn branch_and_version_ssh_repo() {
    check(
        "ssh://git@github.com/rust-random/rand.git#thread_rng=0.9",
        repository("rand", RAND, Some("0.9"), &[], true, Some("thread_rng"), None, None),
        "[dependencies.rand]
git = \"ssh://git@github.com/rust-random/rand.git\"
branch = \"thread_rng\"
version = \"0.9\"",
    );
}

#[test]
fn rev_and_version_http_repo_no_extension() {
    check(
        "https://github.com/clap-rs/clap#c7c761f988684ad97c8b2c521b05cf7f8192b3eb=4.5.50",
        repository("clap", CLAP, Some("4.5.50"), &[], true, None, Some("c7c761f988684ad97c8b2c521b05cf7f8192b3eb"), None),
        "[dependencies.clap]
git = \"https://github.com/clap-rs/clap\"
rev = \"c7c761f988684ad97c8b2c521b05cf7f8192b3eb\"
version = \"4.5.50\"",
    );
}

#[test]
fn branch_and_no_default_features_http_repo() {
    check(
        "https://github.com/tokio-rs/tokio.git#compat+",
        repository("tokio", TOKIO, None, &[], false, Some("compat"), None, None),
        "[dependencies.tokio]
git = \"https://github.com/tokio-rs/tokio.git\"
branch = \"compat\"
default-features = false",
    );
}

#[test]
fn rev_minimal_or_equal_version_no_default_features_and_features_http_repo() {
    check(
        "https://github.com/tokio-rs/tokio.git#556820f>=1.48++io_std+io_utils",
        repository("tokio", TOKIO, Some(">=1.48"), &["io_std", "io_utils"], false, None, Some("556820f"), None),
        "[dependencies.tokio]
git = \"https://github.com/tokio-rs/tokio.git\"
rev = \"556820f\"
version = \">=1.48\"
default-features = false
features = [\"io_std\", \"io_utils\"]",
    );
}

#[test]
fn tag_from_version_like_reference() {
    check(
        "https://github.com/rust-random/rand#0.9.0",
        repository("rand", "https://github.com/rust-random/rand", None, &[], true, None, None, Some("0.9.0")),
        "rand = { git = \"https://github.com/rust-random/rand\", tag = \"0.9.0\" }",
    );
}

#[test]
fn explicit_reference_prefixes() {
    let dep = Dependency::from_str("https://github.com/rust-random/rand#branch:0.9.0").unwrap();
    assert_eq!(
        dep,
        repository("rand", "https://github.com/rust-random/rand", None, &[], true, Some("0.9.0"), None, None)
    );
    let dep = Dependency::from_str("https://github.com/rust-random/rand#tag:thread_rng").unwrap();
    assert_eq!(
        dep,
        repository("rand", "https://github.com/rust-random/rand", None, &[], true, None, None, Some("thread_rng"))
    );
    let dep = Dependency::from_str("https://github.com/rust-random/rand#rev:abc").unwrap();
    assert_eq!(
        dep,
        repository("rand", "https://github.com/rust-random/rand", None, &[], true, None, Some("abc"), None)
    );
}

#[test]
fn crates_io_long_form() {
    let dep = crates_io("a_crate_with_a_rather_long_name", Some("1.2.3"), &["first_feature", "second_feature", "third_feature"], false);
    assert!(dep.is_long());
    assert_eq!(
        dep.to_string(),
        "[dependencies.a_crate_with_a_rather_long_name]
version = \"1.2.3\"
default-features = false
features = [\"first_feature\", \"second_feature\", \"third_feature\"]"
    );
}

#[test]
fn is_long_counts_bytes() {
    // A name of 40 two-byte characters takes 80 bytes.
    let name: String = std::iter::repeat('é').take(40).collect();
    let dep = crates_io(&name, None, &[], false);
    // 80 + 5 + 14 + 24 = 123 bytes
    assert!(dep.is_long());
    let short: String = std::iter::repeat('e').take(40).collect();
    // 40 + 5 + 14 + 24 = 83 bytes
    assert!(!crates_io(&short, None, &[], false).is_long());
}

#[test]
fn path_without_name_is_refused() {
    assert_eq!(
        Dependency::from_str("//").unwrap_err(),
        "could not infer name from path"
    );
}

#[test]
fn name_with_scheme_is_refused() {
    assert_eq!(Dependency::from_str("ftp://example.com").unwrap_err(), "invalid URL");
}
