use localsetup::paths::{cache_dir, config_dir, config_file_path, resolve_target};
use localsetup::source::{rewrite_source, source_is_remote};

#[test]
fn config_dir_prefers_override() {
    let over = Some(String::from("/xdg"));
    let home = Some(String::from("/home/me"));
    assert_eq!(config_dir(&over, &home), "/xdg");
}

#[test]
fn config_dir_falls_back_to_home() {
    let home = Some(String::from("/home/me"));
    assert_eq!(config_dir(&None, &home), "/home/me/.config");
    let empty = Some(String::new());
    assert_eq!(config_dir(&empty, &home), "/home/me/.config");
}

#[test]
fn config_dir_empty_when_nothing_set() {
    assert_eq!(config_dir(&None, &None), "");
    assert_eq!(config_dir(&Some(String::new()), &Some(String::new())), "");
}

#[test]
fn cache_dir_rule() {
    let home = Some(String::from("/home/me"));
    assert_eq!(cache_dir(&None, &home), "/home/me/.cache");
    assert_eq!(cache_dir(&Some(String::from("/c")), &home), "/c");
}

#[test]
fn config_file_location() {
    assert_eq!(config_file_path("/home/me/.config"), "/home/me/.config/localsetup.toml");
}

#[test]
fn target_resolution() {
    assert_eq!(resolve_target("~/code/b", "/home/me"), "/home/me/code/b");
    assert_eq!(resolve_target("/opt/code", "/home/me"), "/opt/code");
    assert_eq!(resolve_target("relative/x", "/home/me"), "relative/x");
}

#[test]
fn remote_sources() {
    assert!(source_is_remote("http://x/setup.toml"));
    assert!(source_is_remote("https://x/setup.toml"));
    assert!(!source_is_remote("/home/me/setup.toml"));
    assert!(!source_is_remote("httpsish"));
}

#[test]
fn github_blob_rewrite() {
    assert_eq!(
        rewrite_source("https://github.com/someone/repo/blob/main/setup.toml"),
        "https://raw.githubusercontent.com/someone/repo/refs/heads/main/setup.toml"
    );
}

#[test]
fn non_blob_sources_unchanged() {
    assert_eq!(
        rewrite_source("https://github.com/someone/repo/raw/main/setup.toml"),
        "https://github.com/someone/repo/raw/main/setup.toml"
    );
    assert_eq!(
        rewrite_source("https://example.com/a/blob/b"),
        "https://example.com/a/blob/b"
    );
    assert_eq!(rewrite_source("/local/file.toml"), "/local/file.toml");
}

#[test]
fn blob_word_without_marker_still_rewrites_domain_only() {
    assert_eq!(
        rewrite_source("https://github.com/someone/blobs"),
        "https://raw.githubusercontent.com/someone/blobs"
    );
}
