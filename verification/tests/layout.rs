use vct::types::layout::{parse_count, parse_number, parse_visibility, Visibility};

#[test]
fn visibility_is_read_from_its_name() {
    assert_eq!(parse_visibility("none"), Some(Visibility::Hidden));
    assert_eq!(parse_visibility("vertex"), Some(Visibility::Vertex));
    assert_eq!(parse_visibility("compute"), Some(Visibility::Compute));
    assert_eq!(parse_visibility("fragment"), Some(Visibility::Fragment));
    assert_eq!(parse_visibility("vertex_fragment"), Some(Visibility::VertexFragment));
}

#[test]
fn unknown_visibility_is_refused() {
    assert_eq!(parse_visibility(""), None);
    assert_eq!(parse_visibility("Vertex"), None);
    assert_eq!(parse_visibility("vertex "), None);
    assert_eq!(parse_visibility("geometry"), None);
    assert_eq!(parse_visibility("vertex_fragment_compute"), None);
}

#[test]
fn count_is_none_or_a_number() {
    assert_eq!(parse_count("none"), Some(None));
    assert_eq!(parse_count("0"), Some(Some(0)));
    assert_eq!(parse_count("4"), Some(Some(4)));
    assert_eq!(parse_count("0016"), Some(Some(16)));
    assert_eq!(parse_count("+7"), Some(Some(7)));
    assert_eq!(parse_count("4294967295"), Some(Some(u32::MAX)));
}

#[test]
fn other_counts_are_refused() {
    assert_eq!(parse_count(""), None);
    assert_eq!(parse_count("+"), None);
    assert_eq!(parse_count("-1"), None);
    assert_eq!(parse_count("4u32"), None);
    assert_eq!(parse_count("1 2"), None);
    assert_eq!(parse_count("4294967296"), None);
    assert_eq!(parse_count("99999999999999999999999999"), None);
    assert_eq!(parse_count("nonE"), None);
    assert_eq!(parse_count("٣"), None);
}

#[test]
fn numbers_read_like_the_standard_parser() {
    for text in ["0", "1", "+1", "++1", "+", "", "12a", "65535", "4294967295", "4294967296", "007"] {
        assert_eq!(parse_number(text), text.parse::<u32>().ok());
    }
}
