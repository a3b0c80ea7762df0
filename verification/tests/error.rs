use sphinx_inv::{MissingHeaderComponent, SphinxInvError, SphinxParseError};

#[test]
fn parse_error_render() {
    let err = SphinxParseError::from_str("foo bar baz", "baz is deprecated, please use soup", 10, 0);
    assert_eq!(
        err.to_string(),
        "Parsing error on line 0: \nfoo bar baz\n          ^\nbaz is deprecated, please use soup"
    );
}

#[test]
fn parse_error_render_counts_lines_in_decimal() {
    let err = SphinxParseError::from_str("ab", "", 1, 1234);
    assert_eq!(err.to_string(), "Parsing error on line 1234: \nab\n ^\n");
}

#[test]
fn parse_error_converts_into_inventory_error() {
    let err = SphinxParseError::from_str("x", "m", 0, 5);
    let converted: SphinxInvError = err.clone().into();
    assert_eq!(converted, SphinxInvError::ParseError(err));
}

#[test]
fn inventory_errors_compare_by_kind_and_value() {
    assert_eq!(
        SphinxInvError::UnsupportedInventoryVersion(3),
        SphinxInvError::UnsupportedInventoryVersion(3)
    );
    assert_ne!(
        SphinxInvError::UnsupportedInventoryVersion(3),
        SphinxInvError::UnsupportedInventoryVersion(4)
    );
    assert_ne!(
        SphinxInvError::IncompleteHeader(MissingHeaderComponent::InvVersion),
        SphinxInvError::IncompleteHeader(MissingHeaderComponent::ProjectName)
    );
    let io = || std::io::Error::new(std::io::ErrorKind::Other, "x");
    assert_eq!(SphinxInvError::IoError(io()), SphinxInvError::IoError(io()));
    assert_eq!(
        SphinxInvError::UnsupportedCompressionMethod("gzip".to_string()),
        SphinxInvError::UnsupportedCompressionMethod("gzip".to_string())
    );
}
