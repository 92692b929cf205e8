use hits::text::{ascii_lowercase, contains_sub, u64_to_string, xml_escape};

#[test]
fn decimal_zero() {
    assert_eq!(u64_to_string(0), "0");
}

#[test]
fn decimal_forty_two() {
    assert_eq!(u64_to_string(42), "42");
}

#[test]
fn decimal_round_numbers() {
    assert_eq!(u64_to_string(10), "10");
    assert_eq!(u64_to_string(100), "100");
    assert_eq!(u64_to_string(2026), "2026");
}

#[test]
fn decimal_largest_value() {
    assert_eq!(u64_to_string(u64::MAX), "18446744073709551615");
}

#[test]
fn lowercase_folds_ascii_only() {
    assert_eq!(ascii_lowercase("Verdana"), "verdana");
    assert_eq!(ascii_lowercase("HELVETICA"), "helvetica");
    assert_eq!(ascii_lowercase("already lower 123"), "already lower 123");
}

#[test]
fn lowercase_empty() {
    assert_eq!(ascii_lowercase(""), "");
}

#[test]
fn substring_search() {
    assert!(contains_sub("verdana,geneva,sans-serif", "verdana"));
    assert!(contains_sub("verdana,geneva,sans-serif", "geneva"));
    assert!(!contains_sub("verdana,geneva,sans-serif", "helvetica"));
    assert!(contains_sub("abc", ""));
    assert!(!contains_sub("ab", "abc"));
}

#[test]
fn escape_markup_characters() {
    assert_eq!(xml_escape("a<b>&\"c'"), "a&lt;b&gt;&amp;&quot;c&#39;");
    assert_eq!(xml_escape("plain"), "plain");
    assert_eq!(xml_escape(""), "");
}
