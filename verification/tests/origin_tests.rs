use setup_gh::origin::is_github_origin;

#[test]
fn test_is_github_origin() {
    let origin = "git@github.com:test-account-123/test-repo-123.git";
    let res = is_github_origin(origin);
    assert!(res);
    let origin = "not-real";
    let res = is_github_origin(origin);
    assert!(res == false);
    let origin = "asdfgit@github.com:test-account-123/test-repo-123.gitasdf";
    let res = is_github_origin(origin);
    assert!(res == false);
}

#[test]
fn accepts_short_names() {
    assert!(is_github_origin("git@github.com:a/b.git"));
}

#[test]
fn accepts_mixed_case_and_digits() {
    assert!(is_github_origin("git@github.com:Some-User9/A-Repo-0.git"));
}

#[test]
fn rejects_nonempty_prefix() {
    assert!(!is_github_origin("xgit@github.com:a/b.git"));
    assert!(!is_github_origin(" git@github.com:a/b.git"));
}

#[test]
fn rejects_nonempty_suffix() {
    assert!(!is_github_origin("git@github.com:a/b.gitx"));
    assert!(!is_github_origin("git@github.com:a/b.git "));
    assert!(!is_github_origin("git@github.com:a/b.git.git"));
}

#[test]
fn rejects_empty_string() {
    assert!(!is_github_origin(""));
}

#[test]
fn rejects_empty_owner_or_repo() {
    assert!(!is_github_origin("git@github.com:/b.git"));
    assert!(!is_github_origin("git@github.com:a/.git"));
    assert!(!is_github_origin("git@github.com:/.git"));
}

#[test]
fn rejects_wrong_host() {
    assert!(!is_github_origin("git@gitlab.com:a/b.git"));
    assert!(!is_github_origin("git@github.org:a/b.git"));
}

#[test]
fn rejects_bad_name_characters() {
    assert!(!is_github_origin("git@github.com:a_b/c.git"));
    assert!(!is_github_origin("git@github.com:a/b.c.git"));
    assert!(!is_github_origin("git@github.com:a b/c.git"));
    assert!(!is_github_origin("git@github.com:a/b/c.git"));
}

#[test]
fn rejects_missing_suffix() {
    assert!(!is_github_origin("git@github.com:a/b"));
    assert!(!is_github_origin("git@github.com:a/b.gi"));
    assert!(!is_github_origin("git@github.com:a/bXgit"));
}

#[test]
fn rejects_non_ascii() {
    assert!(!is_github_origin("git@github.com:ä/b.git"));
    assert!(!is_github_origin("git@github.com:a/b.git\u{301}"));
}
