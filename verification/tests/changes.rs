use syncgit::changes::{classify, detect_in, ChangeSet};
use syncgit::process::CommandOutcome;
use syncgit::repo::GitRepo;

fn chars(s: &str) -> Vec<char> {
    s.chars().collect()
}

fn set(unstaged: bool, staged: bool, untracked: bool) -> ChangeSet {
    ChangeSet { unstaged, staged, untracked }
}

fn listing(stdout: &[u8], success: bool) -> Option<CommandOutcome> {
    Some(CommandOutcome { success, stdout: stdout.to_vec(), stderr: vec![] })
}

#[test]
fn status_code_tells_the_kind_of_change() {
    assert_eq!(classify(' ', 'M'), set(true, false, false));
    assert_eq!(classify('M', ' '), set(false, true, false));
    assert_eq!(classify('M', 'M'), set(true, true, false));
    assert_eq!(classify('A', 'D'), set(true, true, false));
    assert_eq!(classify('?', '?'), set(false, false, true));
    assert_eq!(classify('!', '!'), set(false, false, false));
    assert_eq!(classify(' ', ' '), set(false, false, false));
    assert_eq!(classify('U', 'U'), set(true, true, false));
}

#[test]
fn listing_reports_every_kind_it_holds() {
    assert_eq!(detect_in(&chars("")), set(false, false, false));
    assert_eq!(detect_in(&chars(" M src/a.rs\0")), set(true, false, false));
    assert_eq!(detect_in(&chars("M  src/a.rs\0")), set(false, true, false));
    assert_eq!(detect_in(&chars("?? new.txt\0")), set(false, false, true));
    assert_eq!(
        detect_in(&chars(" M a\0A  b\0?? c\0")),
        set(true, true, true)
    );
    assert_eq!(detect_in(&chars("A  a\0?? c\0")), set(false, true, true));
}

#[test]
fn former_path_of_a_rename_is_no_entry() {
    assert_eq!(detect_in(&chars("R  new name\0 M old\0")), set(false, true, false));
    assert_eq!(detect_in(&chars("R  new\0?? old\0 M other\0")), set(true, true, false));
    assert_eq!(detect_in(&chars("C  copy\0MM src\0")), set(false, true, false));
    assert_eq!(detect_in(&chars(" R new\0?? old\0")), set(true, false, false));
}

#[test]
fn changes_need_a_root_and_a_success() {
    let repo = GitRepo { root: "/w/repo".to_string(), name: "repo".to_string() };
    let out = b" M a\0?? b\0";
    assert_eq!(repo.detect(true, &listing(out, true)), set(true, false, true));
    assert_eq!(repo.detect(false, &listing(out, true)), set(false, false, false));
    assert_eq!(repo.detect(true, &listing(out, false)), set(false, false, false));
    assert_eq!(repo.detect(true, &None), set(false, false, false));
    assert_eq!(repo.detect(true, &listing(b"", true)), set(false, false, false));
}

#[test]
fn any_change_is_a_change() {
    assert!(set(true, false, false).has_any());
    assert!(set(false, true, false).has_any());
    assert!(set(false, false, true).has_any());
    assert!(!set(false, false, false).has_any());
}

#[test]
fn what_is_detected_is_found() {
    let repo = GitRepo { root: "/w/repo".to_string(), name: "repo".to_string() };
    for out in [&b""[..], b" M a\0", b"?? b\0", b"R  n\0o\0", b"\0"] {
        let outcome = listing(out, true);
        if repo.detect(true, &outcome).has_any() {
            assert!(repo.has_changes(true, &outcome));
        }
    }
}
