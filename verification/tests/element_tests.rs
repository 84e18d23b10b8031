use boinc_client::element::{Content, Element, parse_bool, parse_u64};

#[test]
fn parse_u64_accepts_exact_decimal_strings() {
    assert_eq!(parse_u64("0"), Some(0));
    assert_eq!(parse_u64("42"), Some(42));
    assert_eq!(parse_u64("007"), Some(7));
    assert_eq!(parse_u64("18446744073709551615"), Some(u64::MAX));
}

#[test]
fn parse_u64_rejects_garbage_and_overflow() {
    assert_eq!(parse_u64(""), None);
    assert_eq!(parse_u64("abc"), None);
    assert_eq!(parse_u64("12x"), None);
    assert_eq!(parse_u64("-3"), None);
    assert_eq!(parse_u64(" 3"), None);
    assert_eq!(parse_u64("18446744073709551616"), None);
    assert_eq!(parse_u64("99999999999999999999999"), None);
}

#[test]
fn parse_bool_accepts_only_true_and_false() {
    assert_eq!(parse_bool("true"), Some(true));
    assert_eq!(parse_bool("false"), Some(false));
    assert_eq!(parse_bool("1"), None);
    assert_eq!(parse_bool("True"), None);
    assert_eq!(parse_bool(""), None);
}

#[test]
fn find_child_returns_the_first_match() {
    let root = Element::node(
        "root",
        vec![
            Element::text("a", String::from("one")),
            Element::text("b", String::from("two")),
            Element::text("a", String::from("three")),
        ],
    );
    let found = root.find_child("a").unwrap();
    assert_eq!(found.content, Content::Text(String::from("one")));
    assert!(root.find_child("missing").is_none());
}

#[test]
fn child_accessors_read_typed_and_textual_content() {
    let root = Element::node(
        "root",
        vec![
            Element::text("textual", String::from("55")),
            Element::uint("numeric", 7),
            Element::flag("flagged", true),
            Element::text("switch", String::from("false")),
            Element::empty("empty"),
        ],
    );
    assert_eq!(root.child_text("textual"), Some(String::from("55")));
    assert_eq!(root.child_u64("textual"), Some(55));
    assert_eq!(root.child_u64("numeric"), Some(7));
    assert_eq!(root.child_bool("flagged"), Some(true));
    assert_eq!(root.child_bool("switch"), Some(false));
    assert_eq!(root.child_u64("empty"), None);
    assert_eq!(root.child_text("missing"), None);
}

#[test]
fn constructors_build_the_expected_leaves() {
    assert_eq!(
        Element::cdata("body", String::from("x")),
        Element {
            name: String::from("body"),
            content: Content::Cdata(String::from("x")),
            children: vec![],
        }
    );
    assert_eq!(Element::num("n", -5).content, Content::Int(-5));
    assert_eq!(Element::empty("e").content, Content::Nothing);
}
