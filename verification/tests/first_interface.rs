use cargo_temp::{format_dependency, parse_dependency, Dependency};

#[test]
fn dependency() {
    let dependency = Dependency::CratesIo {
        name: "anyhow".to_string(),
        version: None,
        features: Vec::new(),
    };

    assert_eq!(
        parse_dependency("anyhow"),
        dependency,
        "cannot parse dependency"
    );
    assert_eq!(
        format_dependency(&dependency),
        "anyhow = \"*\"",
        "cannot format dependency"
    );
}

#[test]
fn dependency_with_version() {
    let dependency = Dependency::CratesIo {
        name: "anyhow".to_string(),
        version: Some("0.1".to_string()),
        features: Vec::new(),
    };

    assert_eq!(
        parse_dependency("anyhow=0.1"),
        dependency,
        "cannot parse dependency"
    );
    assert_eq!(
        format_dependency(&dependency),
        "anyhow = \"0.1\"",
        "cannot format dependency"
    );
}

#[test]
fn dependency_with_feature() {
    let dependency = Dependency::CratesIo {
        name: "tokio".to_string(),
        version: None,
        features: vec!["io_std".to_string()],
    };

    assert_eq!(
        parse_dependency("tokio+io_std"),
        dependency,
        "cannot parse dependency"
    );
    assert_eq!(
        format_dependency(&dependency),
        "tokio = { version = \"*\", features = [\"io_std\"] }",
        "cannot format dependency"
    );
}

#[test]
fn dependency_with_features() {
    let dependency = Dependency::CratesIo {
        name: "tokio".to_string(),
        version: None,
        features: vec!["io_std".to_string(), "io_utils".to_string()],
    };

    assert_eq!(
        parse_dependency("tokio+io_std+io_utils"),
        dependency,
        "cannot parse dependency"
    );
    assert_eq!(
        format_dependency(&dependency),
        "tokio = { version = \"*\", features = [\"io_std\", \"io_utils\"] }",
        "cannot format dependency"
    );
}

#[test]
fn dependency_with_version_and_feature() {
    let dependency = Dependency::CratesIo {
        name: "tokio".to_string(),
        version: Some("1.0".to_string()),
        features: vec!["io_std".to_string()],
    };

    assert_eq!(
        parse_dependency("tokio=1.0+io_std"),
        dependency,
        "cannot parse dependency"
    );
    assert_eq!(
        format_dependency(&dependency),
        "tokio = { version = \"1.0\", features = [\"io_std\"] }",
        "cannot format dependency"
    );
}

#[test]
fn dependency_with_version_and_features() {
    let dependency = Dependency::CratesIo {
        name: "tokio".to_string(),
        version: Some("1.0".to_string()),
        features: vec!["io_std".to_string(), "io_utils".to_string()],
    };

    assert_eq!(
        parse_dependency("tokio=1.0+io_std+io_utils"),
        dependency,
        "cannot parse dependency"
    );
    assert_eq!(
        format_dependency(&dependency),
        "tokio = { version = \"1.0\", features = [\"io_std\", \"io_utils\"] }",
        "cannot format dependency"
    );
}

#[test]
fn repository_with_http_url() {
    let dependency = Dependency::Repository {
        name: "tokio".to_string(),
        url: "https://github.com/tokio-rs/tokio.git".to_string(),
        branch: None,
        rev: None,
        features: Vec::new(),
    };

    assert_eq!(
        parse_dependency("tokio=https://github.com/tokio-rs/tokio.git"),
        dependency,
        "cannot parse dependency"
    );
    assert_eq!(
        parse_dependency("https://github.com/tokio-rs/tokio.git"),
        dependency,
        "cannot parse dependency without package name"
    );
    assert_eq!(
        format_dependency(&dependency),
        "tokio = { git = \"https://github.com/tokio-rs/tokio.git\" }",
        "cannot format dependency"
    );
}

#[test]
fn repository_with_ssh_url() {
    let dependency = Dependency::Repository {
        name: "serde".to_string(),
        url: "ssh://git@github.com/serde-rs/serde.git".to_string(),
        branch: None,
        rev: None,
        features: Vec::new(),
    };

    assert_eq!(
        parse_dependency("serde=ssh://git@github.com/serde-rs/serde.git"),
        dependency,
        "cannot parse dependency"
    );
    assert_eq!(
        parse_dependency("ssh://git@github.com/serde-rs/serde.git"),
        dependency,
        "cannot parse dependency without package name"
    );
    assert_eq!(
        format_dependency(&dependency),
        "serde = { git = \"ssh://git@github.com/serde-rs/serde.git\" }",
        "cannot format dependency"
    );
}

#[test]
fn repository_with_http_url_and_feature() {
    let dependency = Dependency::Repository {
        name: "tokio".to_string(),
        url: "https://github.com/tokio-rs/tokio.git".to_string(),
        branch: None,
        rev: None,
        features: vec!["io_std".to_string()],
    };

    assert_eq!(
        parse_dependency("tokio=https://github.com/tokio-rs/tokio.git+io_std"),
        dependency,
        "cannot parse dependency"
    );
    assert_eq!(
        parse_dependency("https://github.com/tokio-rs/tokio.git+io_std"),
        dependency,
        "cannot parse dependency without package name"
    );
    assert_eq!(
        format_dependency(&dependency),
        "tokio = { git = \"https://github.com/tokio-rs/tokio.git\", features = [\"io_std\"] }",
        "cannot format dependency"
    );
}

#[test]
fn repository_with_ssh_url_and_feature() {
    let dependency = Dependency::Repository {
        name: "serde".to_string(),
        url: "ssh://git@github.com/serde-rs/serde.git".to_string(),
        branch: None,
        rev: None,
        features: vec!["derive".to_string()],
    };

    assert_eq!(
        parse_dependency("serde=ssh://git@github.com/serde-rs/serde.git+derive"),
        dependency,
        "cannot parse dependency"
    );
    assert_eq!(
        parse_dependency("ssh://git@github.com/serde-rs/serde.git+derive"),
        dependency,
        "cannot parse dependency without package name"
    );
    assert_eq!(
        format_dependency(&dependency),
        "serde = { git = \"ssh://git@github.com/serde-rs/serde.git\", features = [\"derive\"] }",
        "cannot format dependency"
    );
}

#[test]
fn repository_with_http_url_and_features() {
    let dependency = Dependency::Repository {
        name: "tokio".to_string(),
        url: "https://github.com/tokio-rs/tokio.git".to_string(),
        branch: None,
        rev: None,
        features: vec!["io_std".to_string(), "io_utils".to_string()],
    };

    assert_eq!(
        parse_dependency("tokio=https://github.com/tokio-rs/tokio.git+io_std+io_utils"),
        dependency,
        "cannot parse dependency"
    );
    assert_eq!(
        parse_dependency("https://github.com/tokio-rs/tokio.git+io_std+io_utils"),
        dependency,
        "cannot parse dependency without package name"
    );
    assert_eq!(
        format_dependency(&dependency),
        "tokio = { git = \"https://github.com/tokio-rs/tokio.git\", features = [\"io_std\", \"io_utils\"] }",
        "cannot format dependency"
    );
}

#[test]
fn repository_with_ssh_url_and_features() {
    let dependency = Dependency::Repository {
        name: "serde".to_string(),
        url: "ssh://git@github.com/serde-rs/serde.git".to_string(),
        branch: None,
        rev: None,
        features: vec!["derive".to_string(), "alloc".to_string()],
    };

    assert_eq!(
        parse_dependency("serde=ssh://git@github.com/serde-rs/serde.git+derive+alloc"),
        dependency,
        "cannot parse dependency"
    );
    assert_eq!(
        parse_dependency("ssh://git@github.com/serde-rs/serde.git+derive+alloc"),
        dependency,
        "cannot parse dependency without package name"
    );
    assert_eq!(
        format_dependency(&dependency),
        "serde = { git = \"ssh://git@github.com/serde-rs/serde.git\", features = [\"derive\", \"alloc\"] }",
        "cannot format dependency"
    );
}

#[test]
fn repository_with_http_url_and_branch() {
    let dependency = Dependency::Repository {
        name: "tokio".to_string(),
        url: "https://github.com/tokio-rs/tokio.git".to_string(),
        branch: Some("compat".to_string()),
        rev: None,
        features: Vec::new(),
    };

    assert_eq!(
        parse_dependency("tokio=https://github.com/tokio-rs/tokio.git#branch=compat"),
        dependency,
        "cannot parse dependency"
    );
    assert_eq!(
        parse_dependency("https://github.com/tokio-rs/tokio.git#branch=compat"),
        dependency,
        "cannot parse dependency without package name"
    );
    assert_eq!(
        format_dependency(&dependency),
        "tokio = { git = \"https://github.com/tokio-rs/tokio.git\", branch = \"compat\" }",
        "cannot format dependency"
    );
}

#[test]
fn repository_with_ssh_url_and_branch() {
    let dependency = Dependency::Repository {
        name: "serde".to_string(),
        url: "ssh://git@github.com/serde-rs/serde.git".to_string(),
        branch: Some("watt".to_string()),
        rev: None,
        features: Vec::new(),
    };

    assert_eq!(
        parse_dependency("serde=ssh://git@github.com/serde-rs/serde.git#branch=watt"),
        dependency,
        "cannot parse dependency"
    );
    assert_eq!(
        parse_dependency("ssh://git@github.com/serde-rs/serde.git#branch=watt"),
        dependency,
        "cannot parse dependency without package name"
    );
    assert_eq!(
        format_dependency(&dependency),
        "serde = { git = \"ssh://git@github.com/serde-rs/serde.git\", branch = \"watt\" }",
        "cannot format dependency"
    );
}

#[test]
fn repository_with_http_url_branch_and_feature() {
    let dependency = Dependency::Repository {
        name: "tokio".to_string(),
        url: "https://github.com/tokio-rs/tokio.git".to_string(),
        branch: Some("compat".to_string()),
        rev: None,
        features: vec!["io_std".to_string()],
    };

    assert_eq!(
        parse_dependency("tokio=https://github.com/tokio-rs/tokio.git#branch=compat+io_std"),
        dependency,
        "cannot parse dependency"
    );
    assert_eq!(
        parse_dependency("https://github.com/tokio-rs/tokio.git#branch=compat+io_std"),
        dependency,
        "cannot parse dependency without package name"
    );
    assert_eq!(
        format_dependency(&dependency),
        "tokio = { git = \"https://github.com/tokio-rs/tokio.git\", branch = \"compat\", features = [\"io_std\"] }",
        "cannot format dependency"
    );
}

#[test]
fn repository_with_ssh_url_branch_and_feature() {
    let dependency = Dependency::Repository {
        name: "serde".to_string(),
        url: "ssh://git@github.com/serde-rs/serde.git".to_string(),
        branch: Some("watt".to_string()),
        rev: None,
        features: vec!["derive".to_string()],
    };

    assert_eq!(
        parse_dependency("serde=ssh://git@github.com/serde-rs/serde.git#branch=watt+derive"),
        dependency,
        "cannot parse dependency"
    );
    assert_eq!(
        parse_dependency("ssh://git@github.com/serde-rs/serde.git#branch=watt+derive"),
        dependency,
        "cannot parse dependency without package name"
    );
    assert_eq!(
        format_dependency(&dependency),
        "serde = { git = \"ssh://git@github.com/serde-rs/serde.git\", branch = \"watt\", features = [\"derive\"] }",
        "cannot format dependency"
    );
}

#[test]
fn repository_with_http_url_branch_and_features() {
    let dependency = Dependency::Repository {
        name: "tokio".to_string(),
        url: "https://github.com/tokio-rs/tokio.git".to_string(),
        branch: Some("compat".to_string()),
        rev: None,
        features: vec!["io_std".to_string(), "io_utils".to_string()],
    };

    assert_eq!(
        parse_dependency(
            "tokio=https://github.com/tokio-rs/tokio.git#branch=compat+io_std+io_utils"
        ),
        dependency,
        "cannot parse dependency"
    );
    assert_eq!(
        parse_dependency("https://github.com/tokio-rs/tokio.git#branch=compat+io_std+io_utils"),
        dependency,
        "cannot parse dependency without package name"
    );
    assert_eq!(
        format_dependency(&dependency),
        "tokio = { git = \"https://github.com/tokio-rs/tokio.git\", branch = \"compat\", features = [\"io_std\", \"io_utils\"] }",
        "cannot format dependency"
    );
}

#[test]
fn repository_with_ssh_url_branch_and_features() {
    let dependency = Dependency::Repository {
        name: "serde".to_string(),
        url: "ssh://git@github.com/serde-rs/serde.git".to_string(),
        branch: Some("watt".to_string()),
        rev: None,
        features: vec!["derive".to_string(), "alloc".to_string()],
    };

    assert_eq!(
        parse_dependency(
            "serde=ssh://git@github.com/serde-rs/serde.git#branch=watt+derive+alloc"
        ),
        dependency,
        "cannot parse dependency"
    );
    assert_eq!(
        parse_dependency("ssh://git@github.com/serde-rs/serde.git#branch=watt+derive+alloc"),
        dependency,
        "cannot parse dependency without package name"
    );
    assert_eq!(
        format_dependency(&dependency),
        "serde = { git = \"ssh://git@github.com/serde-rs/serde.git\", branch = \"watt\", features = [\"derive\", \"alloc\"] }",
        "cannot format dependency"
    );
}

#[test]
fn repository_with_http_url_and_rev() {
    let dependency = Dependency::Repository {
        name: "tokio".to_string(),
        url: "https://github.com/tokio-rs/tokio.git".to_string(),
        branch: None,
        rev: Some("75c0777".to_string()),
        features: Vec::new(),
    };

    assert_eq!(
        parse_dependency("tokio=https://github.com/tokio-rs/tokio.git#rev=75c0777"),
        dependency,
        "cannot parse dependency"
    );
    assert_eq!(
        parse_dependency("https://github.com/tokio-rs/tokio.git#rev=75c0777"),
        dependency,
        "cannot parse dependency without package name"
    );
    assert_eq!(
        format_dependency(&dependency),
        "tokio = { git = \"https://github.com/tokio-rs/tokio.git\", rev = \"75c0777\" }",
        "cannot format dependency"
    );
}

#[test]
fn repository_with_ssh_url_and_rev() {
    let dependency = Dependency::Repository {
        name: "serde".to_string(),
        url: "ssh://git@github.com/serde-rs/serde.git".to_string(),
        branch: None,
        rev: Some("5b140361a".to_string()),
        features: Vec::new(),
    };

    assert_eq!(
        parse_dependency("serde=ssh://git@github.com/serde-rs/serde.git#rev=5b140361a"),
        dependency,
        "cannot parse dependency"
    );
    assert_eq!(
        parse_dependency("ssh://git@github.com/serde-rs/serde.git#rev=5b140361a"),
        dependency,
        "cannot parse dependency without package name"
    );
    assert_eq!(
        format_dependency(&dependency),
        "serde = { git = \"ssh://git@github.com/serde-rs/serde.git\", rev = \"5b140361a\" }",
        "cannot format dependency"
    );
}

#[test]
fn repository_with_http_url_rev_and_feature() {
    let dependency = Dependency::Repository {
        name: "tokio".to_string(),
        url: "https://github.com/tokio-rs/tokio.git".to_string(),
        branch: None,
        rev: Some("75c0777".to_string()),
        features: vec!["io_std".to_string()],
    };

    assert_eq!(
        parse_dependency("tokio=https://github.com/tokio-rs/tokio.git#rev=75c0777+io_std"),
        dependency,
        "cannot parse dependency"
    );
    assert_eq!(
        parse_dependency("https://github.com/tokio-rs/tokio.git#rev=75c0777+io_std"),
        dependency,
        "cannot parse dependency without package name"
    );
    assert_eq!(
        format_dependency(&dependency),
        "tokio = { git = \"https://github.com/tokio-rs/tokio.git\", rev = \"75c0777\", features = [\"io_std\"] }",
        "cannot format dependency"
    );
}

#[test]
fn repository_with_ssh_url_rev_and_feature() {
    let dependency = Dependency::Repository {
        name: "serde".to_string(),
        url: "ssh://git@github.com/serde-rs/serde.git".to_string(),
        branch: None,
        rev: Some("5b140361a".to_string()),
        features: vec!["derive".to_string()],
    };

    assert_eq!(
        parse_dependency("serde=ssh://git@github.com/serde-rs/serde.git#rev=5b140361a+derive"),
        dependency,
        "cannot parse dependency"
    );
    assert_eq!(
        parse_dependency("ssh://git@github.com/serde-rs/serde.git#rev=5b140361a+derive"),
        dependency,
        "cannot parse dependency without package name"
    );
    assert_eq!(
        format_dependency(&dependency),
        "serde = { git = \"ssh://git@github.com/serde-rs/serde.git\", rev = \"5b140361a\", features = [\"derive\"] }",
        "cannot format dependency"
    );
}

#[test]
fn repository_with_http_url_rev_and_features() {
    let dependency = Dependency::Repository {
        name: "tokio".to_string(),
        url: "https://github.com/tokio-rs/tokio.git".to_string(),
        branch: None,
        rev: Some("75c0777".to_string()),
        features: vec!["io_std".to_string(), "io_utils".to_string()],
    };

    assert_eq!(
        parse_dependency(
            "tokio=https://github.com/tokio-rs/tokio.git#rev=75c0777+io_std+io_utils"
        ),
        dependency,
        "cannot parse dependency"
    );
    assert_eq!(
        parse_dependency("https://github.com/tokio-rs/tokio.git#rev=75c0777+io_std+io_utils"),
        dependency,
        "cannot parse dependency without package name"
    );
    assert_eq!(
        format_dependency(&dependency),
        "tokio = { git = \"https://github.com/tokio-rs/tokio.git\", rev = \"75c0777\", features = [\"io_std\", \"io_utils\"] }",
        "cannot format dependency"
    );
}

#[test]
fn repository_with_ssh_url_rev_and_features() {
    let dependency = Dependency::Repository {
        name: "serde".to_string(),
        url: "ssh://git@github.com/serde-rs/serde.git".to_string(),
        branch: None,
        rev: Some("5b140361a".to_string()),
        features: vec!["derive".to_string(), "alloc".to_string()],
    };

    assert_eq!(
        parse_dependency(
            "serde=ssh://git@github.com/serde-rs/serde.git#rev=5b140361a+derive+alloc"
        ),
        dependency,
        "cannot parse dependency"
    );
    assert_eq!(
        parse_dependency("ssh://git@github.com/serde-rs/serde.git#rev=5b140361a+derive+alloc"),
        dependency,
        "cannot parse dependency without package name"
    );
    assert_eq!(
        format_dependency(&dependency),
        "serde = { git = \"ssh://git@github.com/serde-rs/serde.git\", rev = \"5b140361a\", features = [\"derive\", \"alloc\"] }",
        "cannot format dependency"
    );
}
