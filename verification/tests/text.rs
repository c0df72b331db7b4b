use gcloud_wasm::text::{chars_of, decimal_string, join_strings, sorted_strings, str_eq, str_le};

#[test]
fn decimal_of_numbers() {
    assert_eq!(decimal_string(0), "0");
    assert_eq!(decimal_string(7), "7");
    assert_eq!(decimal_string(1700003600), "1700003600");
    assert_eq!(decimal_string(u64::MAX), "18446744073709551615");
}

#[test]
fn join_with_separator() {
    let parts = vec!["a".to_string(), "b".to_string(), "c".to_string()];
    assert_eq!(join_strings(&parts, ","), "a,b,c");
    assert_eq!(join_strings(&parts[..1], ","), "a");
    assert_eq!(join_strings(&[], ","), "");
}

#[test]
fn order_of_strings() {
    assert!(str_le("a", "b"));
    assert!(str_le("a", "ab"));
    assert!(!str_le("ab", "a"));
    assert!(str_le("", ""));
    assert!(str_le("Z", "a"));
    assert!(str_le("z", "é"));
}

#[test]
fn sorting_strings() {
    let v = vec!["pear".to_string(), "apple".to_string(), "fig".to_string(), "apple".to_string()];
    assert_eq!(sorted_strings(&v), vec!["apple", "apple", "fig", "pear"]);
}

#[test]
fn equality_and_characters() {
    assert!(str_eq("héllo", "héllo"));
    assert!(!str_eq("a", "ab"));
    assert_eq!(chars_of("hé"), vec!['h', 'é']);
}
