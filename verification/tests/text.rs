use hyperswitch::text::{
    clone_or, concat2, concat3, join_texts, parse_u128, parse_usize, render_u128, split_text,
    strip_leading_marks,
};

fn texts(list: &[&str]) -> Vec<String> {
    list.iter().map(|part| part.to_string()).collect()
}

#[test]
fn numbers_are_read() {
    assert_eq!(parse_u128("0"), Some(0));
    assert_eq!(parse_u128("+12"), Some(12));
    assert_eq!(parse_u128("007"), Some(7));
    assert_eq!(parse_u128("340282366920938463463374607431768211455"), Some(u128::MAX));
    assert_eq!(parse_u128("340282366920938463463374607431768211456"), None);
    assert_eq!(parse_u128(""), None);
    assert_eq!(parse_u128("+"), None);
    assert_eq!(parse_u128("-1"), None);
    assert_eq!(parse_u128("1 "), None);
    assert_eq!(parse_usize("18"), Some(18));
    assert_eq!(parse_usize("99999999999999999999999"), None);
}

#[test]
fn numbers_come_back() {
    for value in [0u128, 9, 10, 1234567890, u128::MAX] {
        assert_eq!(parse_u128(&render_u128(value)), Some(value));
        assert_eq!(render_u128(value), value.to_string());
    }
}

#[test]
fn texts_are_split_and_joined() {
    assert_eq!(split_text("a.b..c", '.'), texts(&["a", "b", "", "c"]));
    assert_eq!(split_text("", '.'), texts(&[""]));
    assert_eq!(split_text("abc", '.'), texts(&["abc"]));
    assert_eq!(join_texts(&texts(&["a", "b", "c"]), ", "), "a, b, c");
    assert_eq!(join_texts(&vec![], ", "), "");
    let text = "one/two//three/";
    assert_eq!(join_texts(&split_text(text, '/'), "/"), text);
}

#[test]
fn texts_are_put_together() {
    assert_eq!(concat2("a", "b"), "ab");
    assert_eq!(concat3("a", "", "c"), "ac");
    assert_eq!(clone_or(&None, "none"), "none");
    assert_eq!(clone_or(&Some("some".to_string()), "none"), "some");
}

#[test]
fn marks_at_the_start_are_left_out() {
    assert_eq!(strip_leading_marks("\u{feff}\u{feff}a\u{feff}".to_string()), "a\u{feff}");
    assert_eq!(strip_leading_marks("a".to_string()), "a");
    assert_eq!(strip_leading_marks(String::new()), "");
}
