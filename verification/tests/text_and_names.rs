use cargo_temp::dependency::{classify_git_ref, is_version_like};
use cargo_temp::text::{
    after_last_of, contains_text, join_with, same_text, split_by, strip_prefix, trim_end_of,
    trim_end_text_of, trim_space,
};
use cargo_temp::paths::unix_stem_of;

#[test]
fn split_keeps_empty_pieces() {
    assert_eq!(split_by("+a+b", '+'), vec!["", "a", "b"]);
    assert_eq!(split_by("", '+'), vec![""]);
    assert_eq!(split_by("a++", '+'), vec!["a", "", ""]);
}

#[test]
fn join_puts_separators_between_items() {
    let items = vec!["a".to_string(), "b".to_string(), "c".to_string()];
    assert_eq!(join_with(&items, ", "), "a, b, c");
    assert_eq!(join_with(&Vec::new(), ", "), "");
}

#[test]
fn after_last_separator() {
    assert_eq!(after_last_of("https://github.com/clap-rs/clap", &vec!['/']), "clap");
    assert_eq!(after_last_of("no-separator", &vec!['/']), "no-separator");
    assert_eq!(after_last_of(r"C:\a\b", &vec!['/', '\\']), "b");
}

#[test]
fn trimming_ends() {
    assert_eq!(trim_end_of("dir//\\", &vec!['/', '\\']), "dir");
    assert_eq!(trim_end_text_of("tokio.git.git", ".git"), "tokio");
    assert_eq!(trim_end_text_of("tokio", ".git"), "tokio");
    assert_eq!(trim_space("  yes \n"), "yes");
    assert_eq!(trim_space("\u{3000}no\t"), "no");
    assert_eq!(trim_space(" \n "), "");
}

#[test]
fn comparing_and_searching() {
    assert!(same_text("abc", "abc"));
    assert!(!same_text("abc", "abd"));
    assert!(contains_text("ftp://host", "://"));
    assert!(!contains_text("host", "://"));
    assert_eq!(strip_prefix("branch:main", "branch:"), Some("main".to_string()));
    assert_eq!(strip_prefix("main", "branch:"), None);
}

#[test]
fn unix_file_stems() {
    assert_eq!(unix_stem_of("https://github.com/tokio-rs/tokio.git"), Some("tokio".to_string()));
    assert_eq!(unix_stem_of("anyhow"), Some("anyhow".to_string()));
    assert_eq!(unix_stem_of("dir/.hidden"), Some(".hidden".to_string()));
    assert_eq!(unix_stem_of("archive.tar.gz"), Some("archive.tar".to_string()));
    assert_eq!(unix_stem_of("foo/."), Some("foo".to_string()));
    assert_eq!(unix_stem_of(".."), None);
    assert_eq!(unix_stem_of("/"), None);
    assert_eq!(unix_stem_of(""), None);
}

#[test]
fn version_like_references() {
    assert!(is_version_like("0.9.0"));
    assert!(is_version_like("v1.2"));
    assert!(is_version_like("1.0-rc1"));
    assert!(!is_version_like("0.3.x"));
    assert!(!is_version_like("1"));
    assert!(!is_version_like("v"));
    assert!(!is_version_like("1."));
    assert!(!is_version_like("compat"));
}

#[test]
fn references_are_sorted() {
    assert_eq!(classify_git_ref("compat"), (Some("compat".to_string()), None, None));
    assert_eq!(classify_git_ref("556820f"), (None, Some("556820f".to_string()), None));
    assert_eq!(classify_git_ref("556820"), (Some("556820".to_string()), None, None));
    assert_eq!(classify_git_ref("0.9.0"), (None, None, Some("0.9.0".to_string())));
    assert_eq!(classify_git_ref("branch:0.9.0"), (Some("0.9.0".to_string()), None, None));
    assert_eq!(classify_git_ref("tag:compat"), (None, None, Some("compat".to_string())));
    assert_eq!(classify_git_ref("rev:abc"), (None, Some("abc".to_string()), None));
    assert_eq!(classify_git_ref("abcdef12"), (None, Some("abcdef12".to_string()), None));
}
