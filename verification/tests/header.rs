use sphinx_inv::{
    parse_header, InventoryHeader, MissingHeaderComponent, SphinxInvError, SphinxParseError,
};

#[test]
fn test_numpy_header() -> Result<(), SphinxInvError> {
    let header = "# Sphinx inventory version 2
# Project: NumPy
# Version: 2.3
# The remainder of this file is compressed using zlib.
";
    let header = parse_header(header)?;

    assert_eq!(header.inventory_version, 2);
    assert_eq!(header.project_name, "NumPy".to_string());
    assert_eq!(header.project_version, "2.3".to_string());
    assert_eq!(header.compression_method_description, "zlib".to_string());
    Ok(())
}

#[test]
fn missing_compression_line() {
    let header = "# Sphinx inventory version 3
# Project: asdf
# Version: asdf";

    let result = parse_header(header);
    assert_eq!(
        result,
        Err(SphinxInvError::IncompleteHeader(
            MissingHeaderComponent::CompressionDescription
        ))
    );
}

#[test]
fn missing_project_line() {
    let header = "# Sphinx inventory version 3";

    let result = parse_header(header);
    assert_eq!(
        result,
        Err(SphinxInvError::IncompleteHeader(
            MissingHeaderComponent::ProjectName
        ))
    );
}

#[test]
fn invalid_compression_descriptor() {
    let header = "# Sphinx inventory version 3
# Project: asdfasdf
# Version: ll.3
# The remainder of this file is compressed using my butt.";

    let result = parse_header(header);
    assert_eq!(
        result,
        Err(SphinxInvError::ParseError(SphinxParseError::from_str(
            "# The remainder of this file is compressed using my butt.",
            "invalid compression method\nexpected `zlib`",
            0,
            4
        )))
    );
}

#[test]
fn missing_project_line_only() {
    let header = "# Sphinx inventory version 2
# Version: 2.3
# The remainder of this file is compressed using gzip.";

    let result = parse_header(header);
    assert_eq!(
        result,
        Err(SphinxInvError::ParseError(SphinxParseError::from_str(
            "# Version: 2.3",
            "invalid project name line prefix\nexpected `# Project: `",
            0,
            2
        )))
    );
}

#[test]
fn missing_version_line() {
    let header = "# Sphinx inventory version 2
# Project: NumPy";

    let result = parse_header(header);
    assert_eq!(
        result,
        Err(SphinxInvError::IncompleteHeader(
            MissingHeaderComponent::ProjectVersion
        ))
    );
}

#[test]
fn test_no_zlib_header() {
    let header = "# Sphinx inventory version 2
# Project: NumPy
# Version: 2.3";

    let result = parse_header(header);
    assert_eq!(
        result,
        Err(SphinxInvError::IncompleteHeader(
            MissingHeaderComponent::CompressionDescription
        ))
    );
}

#[test]
fn missing_project() {
    let header = "";

    let result = parse_header(header);
    assert_eq!(
        result,
        Err(SphinxInvError::IncompleteHeader(
            MissingHeaderComponent::InvVersion
        ))
    );
}

#[test]
fn empty_buffer() {
    let header = "";

    let result = parse_header(header);
    assert_eq!(
        result,
        Err(SphinxInvError::IncompleteHeader(
            MissingHeaderComponent::InvVersion
        ))
    );
}

#[test]
fn test_unknown_inv_version() {
    let header = "# Sphinx inventory version 3.14";

    let result = parse_header(header);
    assert_eq!(
        result,
        Err(SphinxInvError::ParseError(SphinxParseError::from_str(
            "# Sphinx inventory version 3.14",
            "invalid unexpected extra input\nexpected line ending",
            28,
            1
        )))
    );
}

#[test]
fn new_header() {
    assert_eq!(
        InventoryHeader {
            project_name: "foo".to_string(),
            project_version: "0.24.24".to_string(),
            inventory_version: 2,
            compression_method_description: "zlib".to_string()
        },
        InventoryHeader::new("foo", "0.24.24")
    );
}

#[test]
fn header_renders_and_reads_back() {
    let header = InventoryHeader {
        project_name: "Sphinx Inv".to_string(),
        project_version: "0.2.0".to_string(),
        inventory_version: 2,
        compression_method_description: "plain-text".to_string(),
    };
    let text = header.to_string();
    assert_eq!(
        text,
        "# Sphinx inventory version 2\n# Project: Sphinx Inv\n# Version: 0.2.0\n# The remainder of this file is compressed using plain-text.\n"
    );
    assert_eq!(parse_header(&text), Ok(header));
}

#[test]
fn header_values_are_trimmed_and_crlf_is_accepted() {
    let text = "# Sphinx inventory version 2  \r\n# Project:   Spaced Name \r\n# Version: 1.0\t\r\n# zlib please\r\n";
    let header = parse_header(text).unwrap();
    assert_eq!(header.project_name, "Spaced Name");
    assert_eq!(header.project_version, "1.0");
    assert_eq!(header.inventory_version, 2);
    assert_eq!(header.compression_method_description, "zlib");
}

#[test]
fn header_version_errors() {
    // no text before the number
    assert_eq!(
        parse_header("2"),
        Err(SphinxInvError::ParseError(SphinxParseError::from_str("2", "", 0, 1)))
    );
    // no number at all
    assert_eq!(
        parse_header("# version"),
        Err(SphinxInvError::ParseError(SphinxParseError::from_str("# version", "", 9, 1)))
    );
    // a number too large for the format version
    assert_eq!(
        parse_header("# version 256"),
        Err(SphinxInvError::ParseError(SphinxParseError::from_str("# version 256", "", 0, 1)))
    );
    // leading zeros are read as decimal
    let header = parse_header("# version 0255\n# Project: a\n# Version: b\n# zlib").unwrap();
    assert_eq!(header.inventory_version, 255);
}

#[test]
fn header_version_line_prefix_error() {
    assert_eq!(
        parse_header("# Sphinx inventory version 2\n# Project: p\n# Versio: 1\n"),
        Err(SphinxInvError::ParseError(SphinxParseError::from_str(
            "# Versio: 1",
            "invalid project version line prefix\nexpected `# Version: `",
            0,
            3
        )))
    );
}

#[test]
fn header_error_offsets_count_bytes() {
    assert_eq!(
        parse_header("# é 1x"),
        Err(SphinxInvError::ParseError(SphinxParseError::from_str(
            "# é 1x",
            "invalid unexpected extra input\nexpected line ending",
            6,
            1
        )))
    );
}

#[test]
fn carriage_return_kept_on_an_unended_last_line() {
    let header = "# Sphinx inventory version 2\r\n# Project: p\r\n# Version: 1\r\n# bad\r";
    match parse_header(header) {
        Err(SphinxInvError::ParseError(e)) => {
            assert_eq!(e.input, "# bad\r".to_string());
            assert_eq!(e.line_num, 4);
        }
        other => panic!("unexpected result {:?}", other),
    }
    let header = "# Sphinx inventory version 2\r\n# Project: p\r\n# Version: 1\r\n# bad\r\n";
    match parse_header(header) {
        Err(SphinxInvError::ParseError(e)) => assert_eq!(e.input, "# bad".to_string()),
        other => panic!("unexpected result {:?}", other),
    }
}
