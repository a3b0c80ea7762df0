use std::io::Write;

use sphinx_inv::{
    parse_line, InventoryHeader, MissingHeaderComponent, PyRole, SphinxInvError,
    SphinxInventoryReader, SphinxParseError, SphinxPriority, SphinxReference, SphinxType,
};

#[test]
fn plain_text_reader_errors() -> Result<(), SphinxInvError> {
    let buffer = r"# Sphinx inventory file 2
# Project: <project display name>
# Version: <project version without preceding v>
# The remainder of this file is compressed using plain-text.
str.join py:macro 1 library/stdtypes.html#$ -
str.lower py:method 24 library/stdtypes.html#$ -
str.lower py:method 1 library/stdtypes.html#$ -
";
    let mut inv_reader = SphinxInventoryReader::from_bytes(buffer.as_bytes())?;

    assert_eq!(
        *inv_reader.header(),
        InventoryHeader {
            project_name: "<project display name>".to_string(),
            project_version: "<project version without preceding v>".to_string(),
            inventory_version: 2,
            compression_method_description: "plain-text".to_string()
        }
    );

    assert!(inv_reader.next().unwrap().is_err());
    assert!(inv_reader.next().unwrap().is_err());

    let str_lower_ref = SphinxReference::new(
        "str.lower",
        SphinxType::Python(PyRole::Method),
        SphinxPriority::Standard,
        "library/stdtypes.html#str.lower",
        "str.lower",
    );

    assert_eq!(inv_reader.next().unwrap().unwrap(), str_lower_ref);

    assert!(inv_reader.next().is_none());

    Ok(())
}

#[test]
fn unsupported_inv_version() {
    let buffer = "# Sphinx inventory version 255
# Project: foo
# Version: bar
# zlib
"
    .as_bytes();

    let result = SphinxInventoryReader::from_bytes(buffer);
    assert_eq!(
        result,
        Err(SphinxInvError::UnsupportedInventoryVersion(255))
    );
}

#[test]
fn plain_text_reader() -> Result<(), SphinxInvError> {
    let buffer = r"# Sphinx inventory file 2
# Project: <project display name>
# Version: <project version without preceding v>
# The remainder of this file is compressed using plain-text.
str.join py:method 1 library/stdtypes.html#$ -
str.lower py:method 1 library/stdtypes.html#$ -
";
    let mut inv_reader = SphinxInventoryReader::from_bytes(buffer.as_bytes())?;

    assert_eq!(
        *inv_reader.header(),
        InventoryHeader {
            project_name: "<project display name>".to_string(),
            project_version: "<project version without preceding v>".to_string(),
            inventory_version: 2,
            compression_method_description: "plain-text".to_string()
        }
    );

    let str_lower_ref = SphinxReference::new(
        "str.lower",
        SphinxType::Python(PyRole::Method),
        SphinxPriority::Standard,
        "library/stdtypes.html#str.lower",
        "str.lower",
    );

    let str_join_ref = SphinxReference::new(
        "str.join",
        SphinxType::Python(PyRole::Method),
        SphinxPriority::Standard,
        "library/stdtypes.html#str.join",
        "-",
    );
    assert_eq!(inv_reader.next().unwrap().unwrap(), str_join_ref);

    assert_eq!(inv_reader.next().unwrap().unwrap(), str_lower_ref);

    assert!(inv_reader.next().is_none());

    Ok(())
}

#[test]
fn alternating_errors() -> Result<(), SphinxInvError> {
    let buffer = r"# Sphinx inventory file 2
# Project: <project display name>
# Version: <project version without preceding v>
# The remainder of this file is compressed using plain-text.
str.join py:method 1 library/stdtypes.html#$ -
str.join asdf:method 1 library/stdtypes.html#$ -
str.upper py:method 1 library/stdtypes.html#$ -
str.upper py:macro 1 library/stdtypes.html#$ -
str.lower py:method 1 library/stdtypes.html#$ -
str.lower asdf:method 1 library/stdtypes.html#$ -
";
    let mut inv_reader = SphinxInventoryReader::from_bytes(buffer.as_bytes())?;

    assert_eq!(
        *inv_reader.header(),
        InventoryHeader {
            project_name: "<project display name>".to_string(),
            project_version: "<project version without preceding v>".to_string(),
            inventory_version: 2,
            compression_method_description: "plain-text".to_string()
        }
    );
    let str_upper_ref = SphinxReference::new(
        "str.upper",
        SphinxType::Python(PyRole::Method),
        SphinxPriority::Standard,
        "library/stdtypes.html#str.upper",
        "str.upper",
    );
    let str_lower_ref = SphinxReference::new(
        "str.lower",
        SphinxType::Python(PyRole::Method),
        SphinxPriority::Standard,
        "library/stdtypes.html#str.lower",
        "str.lower",
    );

    let str_join_ref = SphinxReference::new(
        "str.join",
        SphinxType::Python(PyRole::Method),
        SphinxPriority::Standard,
        "library/stdtypes.html#str.join",
        "-",
    );

    assert_eq!(inv_reader.next().unwrap().unwrap(), str_join_ref);

    assert_eq!(
        inv_reader.next(),
        Some(Err(SphinxParseError::from_str(
            "str.join asdf:method 1 library/stdtypes.html#$ -",
            "invalid missing domain:role\nexpected `std`, `py`, `c`, `rst`, `cpp`, `js`, `math`",
            48,
            6
        )
        .into()))
    );

    assert_eq!(inv_reader.next().unwrap().unwrap(), str_upper_ref);

    assert_eq!(
        inv_reader.next(),
        Some(Err(SphinxParseError::from_str(
            "str.upper py:macro 1 library/stdtypes.html#$ -",
            "invalid python role\nexpected `attribute`, `data`, `exception`, `function`, `method`, `module`, `property`, `class`",
            13,
            8
        )
        .into()))
    );

    assert_eq!(inv_reader.next().unwrap().unwrap(), str_lower_ref);

    assert_eq!(
        inv_reader.next(),
        Some(Err(SphinxParseError::from_str(
            "str.lower asdf:method 1 library/stdtypes.html#$ -",
            "invalid missing domain:role\nexpected `std`, `py`, `c`, `rst`, `cpp`, `js`, `math`",
            49,
            10
        )
        .into()))
    );

    assert!(inv_reader.next().is_none());

    Ok(())
}

fn zlib(data: &[u8]) -> Vec<u8> {
    let mut encoder = flate2::write::ZlibEncoder::new(Vec::new(), flate2::Compression::default());
    encoder.write_all(data).unwrap();
    encoder.finish().unwrap()
}

#[test]
fn zlib_body_is_decompressed() -> Result<(), SphinxInvError> {
    let mut data = b"# Sphinx inventory version 2
# Project: NumPy
# Version: 2.3
# The remainder of this file is compressed using zlib.
"
    .to_vec();
    data.extend(zlib(b"numpy.ndarray py:class 1 reference/generated/numpy.ndarray.html#$ -\n"));
    let mut reader = SphinxInventoryReader::from_bytes(&data)?;
    assert_eq!(reader.header().compression_method_description, "zlib");
    assert_eq!(
        reader.next().unwrap()?,
        SphinxReference::new(
            "numpy.ndarray",
            SphinxType::Python(PyRole::Class),
            SphinxPriority::Standard,
            "reference/generated/numpy.ndarray.html#numpy.ndarray",
            "numpy.ndarray",
        )
    );
    assert!(reader.next().is_none());
    Ok(())
}

#[test]
fn corrupt_zlib_body_keeps_giving_io_errors() -> Result<(), SphinxInvError> {
    let mut data = b"# Sphinx inventory version 2
# Project: P
# Version: 1
# zlib
"
    .to_vec();
    data.extend(b"this is not zlib data");
    let mut reader = SphinxInventoryReader::from_bytes(&data)?;
    assert_eq!(reader.current_line(), 4);
    match reader.next() {
        Some(Err(SphinxInvError::IoError(_))) => {}
        other => panic!("expected an I/O error, got {other:?}"),
    }
    assert_eq!(reader.current_line(), 5);
    for line in 6..10 {
        match reader.next() {
            Some(Err(SphinxInvError::IoError(e))) => {
                assert_eq!(e.kind(), std::io::ErrorKind::InvalidInput)
            }
            other => panic!("expected an I/O error, got {other:?}"),
        }
        assert_eq!(reader.current_line(), line);
    }
    Ok(())
}

#[test]
fn undecodable_lines_are_io_errors() -> Result<(), SphinxInvError> {
    let mut data = b"# Sphinx inventory version 2
# Project: P
# Version: 1
# plain-text
"
    .to_vec();
    data.extend(b"\xff\xfe py:method 1 x -\nstr.join py:method 1 x -\r\n");
    let mut reader = SphinxInventoryReader::from_bytes(&data)?;
    assert!(matches!(reader.next(), Some(Err(SphinxInvError::IoError(_)))));
    assert_eq!(
        reader.next().unwrap()?,
        SphinxReference::new(
            "str.join",
            SphinxType::Python(PyRole::Method),
            SphinxPriority::Standard,
            "x",
            "-"
        )
    );
    assert!(reader.next().is_none());
    Ok(())
}

#[test]
fn header_errors_when_opening() {
    assert_eq!(
        SphinxInventoryReader::from_bytes(b"# Sphinx inventory version 2\n# Project: P\n"),
        Err(SphinxInvError::IncompleteHeader(MissingHeaderComponent::ProjectVersion))
    );
    assert!(matches!(
        SphinxInventoryReader::from_bytes(b"# Sphinx inventory version 2\n\xff\n"),
        Err(SphinxInvError::IoError(_))
    ));
    assert_eq!(
        SphinxInventoryReader::from_bytes(b"# Sphinx inventory version 2\n# Project: P\n# Version: 1\n# gzip\n"),
        Err(SphinxInvError::ParseError(SphinxParseError::from_str(
            "# gzip",
            "invalid compression method\nexpected `zlib`",
            0,
            4
        )))
    );
}

#[test]
fn parse_line_passes_errors_and_ends() {
    assert!(parse_line(None, 7).is_none());
    let io = std::io::Error::new(std::io::ErrorKind::Other, "boom");
    assert!(matches!(parse_line(Some(Err(io)), 7), Some(Err(SphinxInvError::IoError(_)))));
    assert_eq!(
        parse_line(Some(Ok("a std:doc 1 b c".to_string())), 7),
        Some(Ok(SphinxReference::new(
            "a",
            SphinxType::Std(sphinx_inv::StdRole::Doc),
            SphinxPriority::Standard,
            "b",
            "c"
        )))
    );
    assert_eq!(
        parse_line(Some(Ok("a b".to_string())), 7),
        Some(Err(SphinxParseError::from_str(
            "a b",
            "invalid missing domain:role\nexpected `std`, `py`, `c`, `rst`, `cpp`, `js`, `math`",
            3,
            7
        )
        .into()))
    );
}

#[test]
fn carriage_return_kept_on_an_unended_last_body_line() -> Result<(), SphinxInvError> {
    let head = "# Sphinx inventory version 2
# Project: p
# Version: 1
# The remainder of this file is compressed using plain-text.
";
    let ended = format!("{}str.join py:method 1 library/stdtypes.html#$ -\r\n", head);
    let mut reader = SphinxInventoryReader::from_bytes(ended.as_bytes())?;
    assert!(reader.next().unwrap().is_ok());
    assert!(reader.next().is_none());

    let unended = format!("{}str.join py:method 1 library/stdtypes.html#$ -\r", head);
    let mut reader = SphinxInventoryReader::from_bytes(unended.as_bytes())?;
    match reader.next() {
        Some(Err(SphinxInvError::ParseError(e))) => {
            assert_eq!(e.input, "str.join py:method 1 library/stdtypes.html#$ -\r".to_string());
            assert_eq!(e.line_num, 5);
        }
        other => panic!("unexpected result {:?}", other),
    }
    assert!(reader.next().is_none());
    Ok(())
}

#[test]
fn lines_are_read_in_order_with_their_numbers() -> Result<(), SphinxInvError> {
    let data = "# Sphinx inventory version 2
# Project: P
# Version: 1
# The remainder of this file is compressed using plain-text.
a py:function 1 a.html#$ -
b py:nope 1 b.html#$ -
c py:class 1 c.html#$ -
";
    let mut reader = SphinxInventoryReader::from_bytes(data.as_bytes())?;
    assert_eq!(reader.next().unwrap().unwrap().name, "a".to_string());
    match reader.next() {
        Some(Err(SphinxInvError::ParseError(e))) => assert_eq!(e.line_num, 6),
        other => panic!("expected a parse error, got {other:?}"),
    }
    assert_eq!(reader.next().unwrap().unwrap().name, "c".to_string());
    assert_eq!(reader.current_line(), 7);
    assert!(reader.next().is_none());
    assert!(reader.next().is_none());
    assert_eq!(reader.current_line(), 9);
    Ok(())
}
