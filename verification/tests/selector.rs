use cargo_whynot::error::WhyNotError;
use cargo_whynot::parse_selector;
use cargo_whynot::selector::normalize_selector;

#[test]
fn leading_root_markers_are_taken_off() {
    assert_eq!(normalize_selector("::a::b"), "a::b");
    assert_eq!(normalize_selector("crate::a::b"), "a::b");
    assert_eq!(normalize_selector("a::b"), "a::b");
    assert_eq!(normalize_selector(""), "");
    assert_eq!(normalize_selector("::"), "");
    assert_eq!(normalize_selector("crate::"), "");
}

#[test]
fn only_one_root_marker_is_taken_off() {
    assert_eq!(normalize_selector("::crate::a"), "crate::a");
    assert_eq!(normalize_selector("crate::crate::a"), "crate::a");
    assert_eq!(normalize_selector("crate::::a"), "::a");
    assert_eq!(normalize_selector("::::a"), "::a");
}

#[test]
fn what_only_looks_like_a_root_marker_stays() {
    assert_eq!(normalize_selector("crate"), "crate");
    assert_eq!(normalize_selector("crate:a"), "crate:a");
    assert_eq!(normalize_selector("crates::a"), "crates::a");
    assert_eq!(normalize_selector(":a"), ":a");
    assert_eq!(normalize_selector("a::crate::b"), "a::crate::b");
}

#[test]
fn paths_of_identifiers_are_selectors() {
    for text in ["foo", "a::b::c", "::a::b", "crate::a", "Hello::world", "a::_::c", "_"] {
        let selector = parse_selector(text).unwrap();
        assert_eq!(selector.to_string(), normalize_selector(text), "{}", text);
    }
}

#[test]
fn a_selector_prints_without_the_root_marker() {
    assert_eq!(parse_selector("crate::unsafe_mod::unsafety").unwrap().to_string(), "unsafe_mod::unsafety");
    assert_eq!(parse_selector("::unsafe_mod::unsafety").unwrap().to_string(), "unsafe_mod::unsafety");
}

#[test]
fn the_empty_selector_is_refused() {
    for text in ["", "::", "crate::"] {
        match parse_selector(text) {
            Err(WhyNotError::InvalidSelector { selector, reason }) => {
                assert_eq!(selector, "");
                assert_eq!(reason, "Empty path");
            }
            other => panic!("{:?}", other.map(|s| s.to_string())),
        }
    }
}

#[test]
fn what_is_no_path_of_identifiers_is_refused() {
    for text in ["a-b", "a::", "a::::b", "1a", "a::b c", "<T>::f", "crate::crate::a", "::crate::a"] {
        match parse_selector(text) {
            Err(WhyNotError::InvalidSelector { selector, .. }) => {
                assert_eq!(selector, normalize_selector(text));
            }
            other => panic!("{}: {:?}", text, other.map(|s| s.to_string())),
        }
    }
}

#[test]
fn the_refusal_names_the_offending_part() {
    let error = parse_selector("crate::a::b-c").unwrap_err();
    assert_eq!(
        error,
        WhyNotError::InvalidSelector {
            selector: "a::b-c".to_string(),
            reason: "Invalid path segment: `b-c` is not an identifier".to_string(),
        }
    );
    assert_eq!(
        error.message(),
        "invalid selector `a::b-c`: Invalid path segment: `b-c` is not an identifier"
    );
}
