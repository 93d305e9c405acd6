use laika::text::contains_sub;
use laika::text::ends_with_sub;
use laika::text::starts_with_sub;
use laika::text::str_eq;

#[test]
fn contains_finds_substrings() {
    assert!(contains_sub("gemini://host/../x", "../"));
    assert!(contains_sub("gemini://host/..", "/.."));
    assert!(!contains_sub("gemini://host/a.b", "../"));
    assert!(contains_sub("abc", ""));
    assert!(contains_sub("", ""));
    assert!(!contains_sub("", "a"));
    assert!(contains_sub("aaab", "aab"));
    assert!(!contains_sub("aab", "aaab"));
}

#[test]
fn ends_with_checks_the_suffix() {
    assert!(ends_with_sub("page.gmi", ".gmi"));
    assert!(!ends_with_sub("page.gmi.txt", ".gmi"));
    assert!(!ends_with_sub("mi", ".gmi"));
    assert!(ends_with_sub("x", ""));
}

#[test]
fn starts_with_checks_the_prefix() {
    assert!(starts_with_sub("text/gemini; charset=utf-8", "text/gemini"));
    assert!(!starts_with_sub("text/plain", "text/gemini"));
    assert!(starts_with_sub("anything", ""));
}

#[test]
fn str_eq_compares_whole_strings() {
    assert!(str_eq("gemini", "gemini"));
    assert!(!str_eq("gemini", "http"));
    assert!(!str_eq("gemini", "gemini "));
    assert!(str_eq("", ""));
}
