use cargo_temp::dependency::Dependency;
use cargo_temp::parse_dependency;
use cargo_temp::subprocess::keep_waiting;

fn long_repository() -> Dependency {
    Dependency::Repository {
        name: "serde".to_string(),
        version: Some("1.0".to_string()),
        features: vec!["derive".to_string()],
        default_features: false,
        url: "https://github.com/serde-rs/serde-with-a-rather-long-repository-name.git".to_string(),
        branch: Some("main".to_string()),
        rev: None,
        tag: None,
    }
}

#[test]
fn a_long_dependency_has_one_key_per_line() {
    let d = long_repository();
    assert!(d.is_long());
    let s = d.to_string();
    let lines: Vec<&str> = s.split('\n').collect();
    assert_eq!(lines[0], "[dependencies.serde]");
    assert_eq!(lines.len(), 6);
    for line in &lines[1..] {
        assert_eq!(line.matches(" = ").count(), 1, "{line:?}");
    }
}

#[test]
fn a_grown_dependency_stays_long() {
    let d = long_repository();
    let mut grown = long_repository();
    if let Dependency::Repository { features, tag, .. } = &mut grown {
        features.push("rc".to_string());
        *tag = Some("v1.0.0".to_string());
    }
    assert!(d.is_long() && grown.is_long());
    let short = Dependency::from_str("serde").unwrap();
    assert!(!short.is_long());
}

#[test]
fn an_added_feature_comes_last() {
    let d = Dependency::from_str("tokio=1.48+io_std").unwrap();
    let more = Dependency::from_str("tokio=1.48+io_std+net").unwrap();
    match (d, more) {
        (
            Dependency::CratesIo { name, version, features, default_features },
            Dependency::CratesIo { name: n2, version: v2, features: f2, default_features: d2 },
        ) => {
            assert_eq!((name, version, default_features), (n2, v2, d2));
            assert_eq!(features, vec!["io_std".to_string()]);
            assert_eq!(f2, vec!["io_std".to_string(), "net".to_string()]);
        }
        _ => panic!("expected crates.io dependencies"),
    }
}

#[test]
fn a_repository_named_after_its_url_reads_the_same() {
    let url = "https://github.com/tokio-rs/tokio.git#branch=compat+io_std";
    assert_eq!(parse_dependency(&format!("tokio={url}")), parse_dependency(url));
}

#[test]
fn a_stopping_subprocess_is_waited_for_two_seconds() {
    assert!(keep_waiting(0, false));
    assert!(keep_waiting(1, false));
    assert!(!keep_waiting(2, false));
    assert!(!keep_waiting(0, true));
}
