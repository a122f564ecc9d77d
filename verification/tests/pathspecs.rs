use syncgit::pathspec::{compute_pathspec, pathspec_from};
use syncgit::process::CommandOutcome;
use syncgit::repo::GitRepo;

fn like_the_chain(path: &str) -> String {
    let mut current = path.replace('\\', "/").replace("\n", "").replace("\r", "");
    while current.contains("/.git/") {
        current = current.replace("/.git/", "/GIT_ESCAPED/");
    }
    current
}

fn samples() -> Vec<&'static str> {
    vec![
        "",
        ".",
        "src",
        "src\\win\\path",
        "a\nb\rc\r\n",
        "a/.git/config",
        "a\\.git\\config",
        "/.git/.git/",
        "a/.git/.git/b",
        "a/.git/.git/.git/.git/b",
        "a\\.git/.git\\.git\\b",
        "/.git//.git/",
        "/.g\nit/.gi\rt/",
        "x/.git",
        ".git/x",
        "a/.g\nit/b",
        "a/.GIT/b",
        "docs/é",
    ]
}

#[test]
fn normalizing_is_the_chain_of_replacements() {
    for path in samples() {
        assert_eq!(GitRepo::normalize_pathspec(path), like_the_chain(path), "{:?}", path);
    }
    assert_eq!(GitRepo::normalize_pathspec("a/.git/hooks"), "a/GIT_ESCAPED/hooks");
    assert_eq!(GitRepo::normalize_pathspec("a\r\nb"), "ab");
    assert_eq!(GitRepo::normalize_pathspec("src/deep"), "src/deep");
}

#[test]
fn normalizing_leaves_no_reference_to_the_metadata() {
    for path in samples() {
        let n = GitRepo::normalize_pathspec(path);
        assert!(!n.contains("/.git/"), "{:?} gives {:?}", path, n);
    }
    assert_eq!(GitRepo::normalize_pathspec("a/.git/.git/b"), "a/GIT_ESCAPED/GIT_ESCAPED/b");
    assert_eq!(GitRepo::normalize_pathspec("/.git/.git/"), "/GIT_ESCAPED/GIT_ESCAPED/");
    assert_eq!(
        GitRepo::normalize_pathspec("a\\.git\\.git\\.git\\b"),
        "a/GIT_ESCAPED/GIT_ESCAPED/GIT_ESCAPED/b"
    );
    assert_eq!(GitRepo::normalize_pathspec("/.g\nit/"), "/GIT_ESCAPED/");
}

#[test]
fn normalizing_again_changes_nothing() {
    for path in samples() {
        let once = GitRepo::normalize_pathspec(path);
        assert_eq!(GitRepo::normalize_pathspec(&once), once, "{:?}", path);
    }
}

#[test]
fn normalizing_leaves_one_line() {
    for path in ["a\nb", "\r\n", "x\ry", "\\\n\\"] {
        let n = GitRepo::normalize_pathspec(path);
        assert!(!n.contains('\n') && !n.contains('\r') && !n.contains('\\'));
    }
}

#[test]
fn pathspec_is_the_position_below_the_root() {
    assert_eq!(compute_pathspec("/w/repo", "/w/repo/src/deep"), "src/deep");
    assert_eq!(compute_pathspec("/w/repo", "/w/repo/docs"), "docs");
    assert_eq!(compute_pathspec("/w/repo", "/w/repo"), ".");
    assert_eq!(compute_pathspec("/w/repo", "/w/repo/"), ".");
    assert_eq!(compute_pathspec("/w/repo", "/elsewhere/src"), ".");
    assert_eq!(compute_pathspec("/w/repo", "/w/repository"), ".");
}

#[test]
fn pathspec_from_relative_position() {
    assert_eq!(pathspec_from(Some("src".to_string())), "src");
    assert_eq!(pathspec_from(Some(String::new())), ".");
    assert_eq!(pathspec_from(None), ".");
}

#[test]
fn changes_query_is_scoped_after_a_terminator() {
    assert_eq!(GitRepo::changes_query(None), vec!["status", "--porcelain=v1", "-z"]);
    assert_eq!(GitRepo::changes_query(Some("")), vec!["status", "--porcelain=v1", "-z"]);
    assert_eq!(
        GitRepo::changes_query(Some("src")),
        vec!["status", "--porcelain=v1", "-z", "--", "src"]
    );
    assert_eq!(
        GitRepo::changes_query(Some("--all")),
        vec!["status", "--porcelain=v1", "-z", "--", "--all"]
    );
}

#[test]
fn changes_need_a_root_a_success_and_output() {
    let repo = GitRepo { root: "/w/repo".to_string(), name: "repo".to_string() };
    let printed = Some(CommandOutcome { success: true, stdout: b" M a\0".to_vec(), stderr: vec![] });
    let silent = Some(CommandOutcome { success: true, stdout: vec![], stderr: vec![] });
    let failed = Some(CommandOutcome { success: false, stdout: b" M a\0".to_vec(), stderr: vec![] });
    assert!(repo.has_changes(true, &printed));
    assert!(!repo.has_changes(false, &printed));
    assert!(!repo.has_changes(true, &silent));
    assert!(!repo.has_changes(true, &failed));
    assert!(!repo.has_changes(true, &None));
}
