use cp_cli::subst::substitute;
use cp_cli::text::{str_contains, str_eq};

#[test]
fn replaces_a_single_occurrence() {
    let r = substitute("title: '{{PROJECT_NAME}}'", "demo");
    assert_eq!(r, "title: 'demo'");
}

#[test]
fn replaces_every_occurrence() {
    let r = substitute("{{PROJECT_NAME}} and {{PROJECT_NAME}} again", "x");
    assert_eq!(r, "x and x again");
}

#[test]
fn leaves_text_without_token_unchanged() {
    let r = substitute("const config = {}\n", "demo");
    assert_eq!(r, "const config = {}\n");
}

#[test]
fn partial_tokens_are_not_replaced() {
    let r = substitute("{{PROJECT_NAM}} {PROJECT_NAME}", "demo");
    assert_eq!(r, "{{PROJECT_NAM}} {PROJECT_NAME}");
}

#[test]
fn adjacent_tokens_both_replaced() {
    let r = substitute("{{PROJECT_NAME}}{{PROJECT_NAME}}", "ab");
    assert_eq!(r, "abab");
}

#[test]
fn empty_template_stays_empty() {
    let r = substitute("", "demo");
    assert_eq!(r, "");
}

#[test]
fn string_equality_is_exact() {
    assert!(str_eq("abc", "abc"));
    assert!(!str_eq("abc", "abd"));
    assert!(!str_eq("abc", "abcd"));
    assert!(str_eq("", ""));
}

#[test]
fn substring_search_finds_inner_matches() {
    assert!(str_contains("npm/10.2.3 node/v20", "npm"));
    assert!(str_contains("pnpm/8.0.0", "npm"));
    assert!(!str_contains("yarn/4.0", "npm"));
    assert!(str_contains("anything", ""));
    assert!(!str_contains("ab", "abc"));
}
