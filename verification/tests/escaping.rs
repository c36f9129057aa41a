use nearby_places::model::check_numeric_text;
use nearby_places::text::{escape_double_quotes, escape_single_quotes, str_eq};

#[test]
fn single_quotes_are_doubled() {
    assert_eq!(escape_single_quotes("O'Brien's"), "O''Brien''s");
    assert_eq!(escape_single_quotes("no quotes"), "no quotes");
    assert_eq!(escape_single_quotes(""), "");
    assert_eq!(escape_single_quotes("'"), "''");
}

#[test]
fn double_quotes_and_backslashes_get_backslashes() {
    assert_eq!(escape_double_quotes("say \"hi\""), "say \\\"hi\\\"");
    assert_eq!(escape_double_quotes("a\\b"), "a\\\\b");
    assert_eq!(escape_double_quotes("plain"), "plain");
}

#[test]
fn escaped_single_quotes_parse_back_unchanged() {
    let original = "it's a 'test' of 'quotes'";
    let escaped = escape_single_quotes(original);
    assert_eq!(escaped.replace("''", "'"), original);
}

#[test]
fn numeric_text_accepts_float_literals_only() {
    assert!(check_numeric_text("40.7"));
    assert!(check_numeric_text("-74.0"));
    assert!(check_numeric_text("1e-5"));
    assert!(!check_numeric_text(""));
    assert!(!check_numeric_text("40.7, 'x'"));
    assert!(!check_numeric_text("1; DROP TABLE places"));
}

#[test]
fn str_eq_compares_by_characters() {
    assert!(str_eq("abc", "abc"));
    assert!(!str_eq("abc", "abd"));
    assert!(!str_eq("abc", "abcd"));
    assert!(str_eq("", ""));
    assert!(str_eq("naïve ☕", "naïve ☕"));
    assert!(!str_eq("naïve", "naive"));
}
