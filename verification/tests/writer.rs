use std::io::Read;

use sphinx_inv::{
    InventoryHeader, PyRole, SphinxInvError, SphinxInventoryReader, SphinxInventoryWriter,
    SphinxPriority, SphinxReference, SphinxType, WriteFormat,
};

#[test]
fn write_simple_plain_text_inventory_minified() -> Result<(), SphinxInvError> {
    let expected = String::from(
        "# Sphinx inventory version 2
# Project: foo
# Version: 0.24.24
# The remainder of this file is compressed using plain-text.
str.join py:method 1 library/stdtypes.html#$ -
str.lower py:method 1 library/stdtypes.html#$ -
",
    );
    let header = InventoryHeader {
        project_name: "foo".to_string(),
        project_version: "0.24.24".to_string(),
        inventory_version: 2,
        compression_method_description: "zlib".to_string(),
    };

    let str_lower_ref = SphinxReference::new(
        "str.lower",
        SphinxType::Python(PyRole::Method),
        SphinxPriority::Standard,
        "library/stdtypes.html#$",
        "-",
    );

    let str_join_ref = SphinxReference::new(
        "str.join",
        SphinxType::Python(PyRole::Method),
        SphinxPriority::Standard,
        "library/stdtypes.html#$",
        "-",
    );

    let mut writer = SphinxInventoryWriter::from_header(header, 2);

    writer.add_reference(str_join_ref);
    writer.add_reference(str_lower_ref);

    let write_buffer = writer.finalize(&WriteFormat::Plain, true)?;

    assert_eq!(String::from_utf8(write_buffer).unwrap(), expected);
    Ok(())
}

#[test]
fn write_simple_plain_text_inventory_expanded() -> Result<(), SphinxInvError> {
    let expected = String::from(
        "# Sphinx inventory version 2
# Project: foo
# Version: 0.24.24
# The remainder of this file is compressed using plain-text.
str.join py:method 1 library/stdtypes.html#str.join str.join
str.lower py:method 1 library/stdtypes.html#str.lower str.lower
",
    );
    let header = InventoryHeader {
        project_name: "foo".to_string(),
        project_version: "0.24.24".to_string(),
        inventory_version: 2,
        compression_method_description: "zlib".to_string(),
    };

    let str_lower_ref = SphinxReference::new(
        "str.lower",
        SphinxType::Python(PyRole::Method),
        SphinxPriority::Standard,
        "library/stdtypes.html#str.lower",
        "str.lower",
    );

    let str_join_ref = SphinxReference::new(
        "str.join",
        SphinxType::Python(PyRole::Method),
        SphinxPriority::Standard,
        "library/stdtypes.html#str.join",
        "-",
    );

    let mut writer = SphinxInventoryWriter::from_header(header, 2);

    writer.add_reference(str_join_ref);
    writer.add_reference(str_lower_ref);

    let write_buffer = writer.finalize(&WriteFormat::Plain, false)?;

    assert_eq!(String::from_utf8(write_buffer).unwrap(), expected);
    Ok(())
}

#[test]
fn write_read_round_trip() -> Result<(), SphinxInvError> {
    let header = InventoryHeader {
        project_name: "foo".to_string(),
        project_version: "0.24.24".to_string(),
        inventory_version: 2,
        compression_method_description: "plain-text".to_string(),
    };

    let str_lower_ref = SphinxReference::new(
        "str.lower",
        SphinxType::Python(PyRole::Method),
        SphinxPriority::Standard,
        "library/stdtypes.html#str.lower",
        "str.lower",
    );

    let str_join_ref = SphinxReference::new(
        "str.join",
        SphinxType::Python(PyRole::Method),
        SphinxPriority::Standard,
        "library/stdtypes.html#str.join",
        "-",
    );
    let mut writer = SphinxInventoryWriter::from_header(header.clone(), 2);

    writer.add_reference(str_join_ref.clone());
    writer.add_reference(str_lower_ref.clone());
    let buffer = writer.finalize(&WriteFormat::Plain, true)?;

    let mut reader = SphinxInventoryReader::from_bytes(&buffer)?;

    assert_eq!(reader.header(), &header);

    assert_eq!(reader.next().unwrap()?, str_join_ref);

    assert_eq!(reader.next().unwrap()?, str_lower_ref);

    Ok(())
}

#[test]
fn zlib_write_read_round_trip() -> Result<(), SphinxInvError> {
    let header = InventoryHeader::new("Sphinx Inv", "0.2.0");
    let reference = SphinxReference::new(
        "str.join",
        SphinxType::Python(PyRole::Method),
        SphinxPriority::Standard,
        "library/stdtypes.html#$",
        "-",
    );
    let mut writer = SphinxInventoryWriter::from_header(header.clone(), 0);
    writer.add_reference(reference.clone());
    let buffer = writer.finalize(&WriteFormat::Zlib, false)?;

    let head = "# Sphinx inventory version 2\n# Project: Sphinx Inv\n# Version: 0.2.0\n# The remainder of this file is compressed using zlib.\n";
    assert!(buffer.starts_with(head.as_bytes()));
    // the body is really compressed: decompress it independently
    let mut body = String::new();
    flate2::read::ZlibDecoder::new(&buffer[head.len()..])
        .read_to_string(&mut body)
        .unwrap();
    assert_eq!(body, "str.join py:method 1 library/stdtypes.html#str.join str.join\n");

    let mut reader = SphinxInventoryReader::from_bytes(&buffer)?;
    assert_eq!(reader.header(), &header);
    assert_eq!(reader.next().unwrap()?, reference);
    assert!(reader.next().is_none());
    Ok(())
}
