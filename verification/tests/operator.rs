use syncgit::auth::{get_github_token, token_names, token_variable};
use syncgit::publish::{probe_address, probe_timeout_seconds};
use syncgit::divergence::{parse_counts, DivergenceCount};
use syncgit::ui::UI;

fn text(s: &str) -> Option<String> {
    Some(s.to_string())
}

#[test]
fn width_is_the_terminal_or_eighty() {
    assert_eq!(UI::width(Some(120)), 120);
    assert_eq!(UI::width(Some(0)), 0);
    assert_eq!(UI::width(None), 80);
}

#[test]
fn text_is_centred_by_its_bytes() {
    assert_eq!(UI::center_text("abcd", 10), "   abcd");
    assert_eq!(UI::center_text("abcde", 10), "  abcde");
    assert_eq!(UI::center_text("abcd", 4), "abcd");
    assert_eq!(UI::center_text("abcdefgh", 4), "abcdefgh");
    assert_eq!(UI::center_text("", 5), "  ");
    assert_eq!(UI::center_text("é", 6), "  é");
    assert_eq!(UI::center_text("x", 0), "x");
}

#[test]
fn separator_spans_the_width() {
    assert_eq!(UI::print_separator(0), "");
    assert_eq!(UI::print_separator(3), "───");
    assert_eq!(UI::print_separator(80).chars().count(), 80);
}

#[test]
fn yes_is_y_or_yes_in_any_case() {
    for a in ["y", "Y", "yes", "YES", "Yes", "  y \n", "yEs\r\n"] {
        assert!(UI::prompt_yes_no(&text(a)), "{:?}", a);
    }
    for a in ["", "n", "no", "yeah", "yy", "ye s", "1", "\n"] {
        assert!(!UI::prompt_yes_no(&text(a)), "{:?}", a);
    }
    assert!(!UI::prompt_yes_no(&None));
    assert!(UI::means_yes("y"));
    assert!(UI::means_yes("yes"));
    assert!(!UI::means_yes("Y"));
}

#[test]
fn input_is_the_trimmed_line() {
    assert_eq!(UI::prompt_input(&text("  fix: a bug \n")), "fix: a bug");
    assert_eq!(UI::prompt_input(&text("\n")), "");
    assert_eq!(UI::prompt_input(&None), "");
}

#[test]
fn enter_is_any_line_read() {
    assert!(UI::wait_for_enter(&text("\n")));
    assert!(UI::wait_for_enter(&text("anything")));
    assert!(!UI::wait_for_enter(&None));
}

#[test]
fn token_names_are_tried_in_order() {
    assert_eq!(token_names(), vec!["GITHUB_TOKEN", "GH_TOKEN", "GIT_TOKEN"]);
}

#[test]
fn first_token_that_is_not_blank_wins() {
    assert_eq!(get_github_token(&vec![None, text("b"), text("c")]), text("b"));
    assert_eq!(get_github_token(&vec![text("  "), None, text(" c\n")]), text("c"));
    assert_eq!(get_github_token(&vec![text("a"), text("b"), text("c")]), text("a"));
    assert_eq!(get_github_token(&vec![text(""), text("\t"), None]), None);
    assert_eq!(get_github_token(&vec![None, None, None]), None);
    assert_eq!(get_github_token(&vec![]), None);
}

#[test]
fn counts_are_behind_then_ahead() {
    assert_eq!(parse_counts("2\t3\n"), DivergenceCount { ahead: 3, behind: 2 });
    assert_eq!(parse_counts("0 0"), DivergenceCount { ahead: 0, behind: 0 });
    assert_eq!(parse_counts(" 10   0 "), DivergenceCount { ahead: 0, behind: 10 });
}

#[test]
fn anything_else_counts_as_level() {
    let level = DivergenceCount { ahead: 0, behind: 0 };
    for s in ["", "3", "1 2 3", "a b", "1 b", "-1 2", "1.5 2", "99999999999999999999999 1"] {
        assert_eq!(parse_counts(s), level, "{:?}", s);
    }
}

#[test]
fn token_is_handed_on_under_its_first_name() {
    assert_eq!(token_variable(), "GITHUB_TOKEN");
    assert_eq!(token_variable(), token_names()[0]);
}

#[test]
fn probe_is_short() {
    assert_eq!(probe_timeout_seconds(), 3);
    assert_eq!(probe_address(), "8.8.8.8:53");
}
