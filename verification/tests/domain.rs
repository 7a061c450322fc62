use wt_core::domain::{hash8, slugify, BranchName};

#[test]
fn slugify_simple_branch() {
    assert_eq!(slugify("main"), "main");
}

#[test]
fn slugify_slashed_branch() {
    assert_eq!(slugify("feature/auth"), "feature-auth");
}

#[test]
fn slugify_collapses_runs() {
    assert_eq!(slugify("a//b--c"), "a-b-c");
}

#[test]
fn slugify_trims_edges() {
    assert_eq!(slugify("/leading/"), "leading");
}

#[test]
fn collision_safe_dir_names_differ() {
    let a = BranchName::new("feature/a-b");
    let b = BranchName::new("feature-a/b");
    // slugs are the same, but hashes differ
    assert_ne!(a.to_dir_name(), b.to_dir_name());
}

#[test]
fn dir_name_format() {
    let name = BranchName::new("feature/auth");
    let dir = name.to_dir_name();
    assert!(dir.starts_with("feature-auth--"));
    assert_eq!(dir.len(), "feature-auth--".len() + 8);
}

#[test]
fn hash8_is_deterministic() {
    assert_eq!(hash8("hello"), hash8("hello"));
    assert_ne!(hash8("hello"), hash8("world"));
}
