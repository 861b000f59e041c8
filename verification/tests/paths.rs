use cargo_temp::paths::{components_back_of, file_name_of, push_path, same_path_of, with_file_name_of};
use cargo_temp::project::preserved_location;
use std::path::{Path, PathBuf};

const DIRS: [&str; 18] = [
    "/tmp/cargo-temp/tmp-abc",
    "/tmp/cargo-temp/tmp-abc/",
    "/tmp//cargo-temp/./tmp-abc/.",
    "tmp-abc",
    "./tmp-abc",
    "./",
    ".",
    "..",
    "a/..",
    "",
    "/",
    "//a//b//",
    "/./a",
    "a/./b",
    "../a",
    ".hidden",
    "a/b/c.d",
    "./.",
];

const NAMES: [Option<&str>; 7] = [None, Some("foo"), Some(""), Some("/abs"), Some("a/b"), Some(".."), Some("x/")];

const PRESERVED: [Option<&str>; 7] = [None, Some("/keep"), Some("/keep/"), Some("keep"), Some(""), Some("./k"), Some("/")];

fn with_std(dir: &str, name: Option<&str>, preserved: Option<&str>) -> Option<(String, bool)> {
    let tmp = PathBuf::from(dir);
    let mut final_dir = match preserved {
        Some(p) => Path::new(p).join(tmp.file_name()?),
        None => tmp.clone(),
    };
    if let Some(n) = name {
        final_dir = final_dir.with_file_name(n);
    }
    let moved = final_dir != tmp;
    Some((final_dir.to_string_lossy().into_owned(), moved))
}

#[test]
fn preserved_location_agrees_with_std_path() {
    for dir in DIRS {
        for name in NAMES {
            for preserved in PRESERVED {
                let expected = with_std(dir, name, preserved);
                let target = preserved_location(
                    dir,
                    &name.map(|n| n.to_string()),
                    &preserved.map(|p| p.to_string()),
                );
                let got = target.map(|t| {
                    let moved = !same_path_of(&t, dir);
                    (t, moved)
                });
                assert_eq!(got, expected, "dir {dir:?}, name {name:?}, preserved {preserved:?}");
            }
        }
    }
}

#[test]
fn path_operations_agree_with_std_path() {
    for a in DIRS {
        let p = Path::new(a);
        assert_eq!(
            file_name_of(a),
            p.file_name().map(|f| f.to_string_lossy().into_owned()),
            "file name of {a:?}"
        );
        let mut back: Vec<String> = p
            .components()
            .map(|c| c.as_os_str().to_string_lossy().into_owned())
            .collect();
        back.reverse();
        assert_eq!(components_back_of(a), back, "components of {a:?}");
        for b in DIRS {
            assert_eq!(same_path_of(a, b), p == Path::new(b), "{a:?} and {b:?}");
            assert_eq!(push_path(a, b), p.join(b).to_string_lossy(), "{a:?} joined with {b:?}");
            assert_eq!(
                with_file_name_of(a, b),
                p.with_file_name(b).to_string_lossy(),
                "{a:?} with the file name {b:?}"
            );
        }
    }
}

#[test]
fn a_preserved_project_is_moved_and_renamed() {
    let dir = "/home/me/.cache/cargo-temp/tmp-Ab12";
    assert_eq!(preserved_location(dir, &None, &None).as_deref(), Some(dir));
    assert_eq!(
        preserved_location(dir, &None, &Some("/home/me/kept".to_string())).as_deref(),
        Some("/home/me/kept/tmp-Ab12")
    );
    assert_eq!(
        preserved_location(dir, &Some("demo".to_string()), &None).as_deref(),
        Some("/home/me/.cache/cargo-temp/demo")
    );
    assert_eq!(
        preserved_location(dir, &Some("demo".to_string()), &Some("/home/me/kept/".to_string())).as_deref(),
        Some("/home/me/kept/demo")
    );
    assert_eq!(preserved_location("/", &None, &Some("/kept".to_string())), None);
    assert!(same_path_of("/a//b/./", "/a/b"));
    assert!(!same_path_of("./a", "a"));
}
