use sphinx_inv::{
    parse_reference, CRole, PyRole, ReferenceString, RstRole, SphinxParseError, SphinxPriority,
    SphinxReference, SphinxType, StdRole,
};

#[test]
fn test_hard_dummy_record() -> Result<(), SphinxParseError> {
    let input = "asdfasdf :foo std ::endl :: _bar_baz : something- : hello std:label 1 library/stdtypes.html asdf";

    let sphinx_ref = parse_reference(input, 0)?;

    assert_eq!(
        sphinx_ref.name,
        "asdfasdf :foo std ::endl :: _bar_baz : something- : hello".to_string()
    );
    assert_eq!(sphinx_ref.sphinx_type, SphinxType::Std(StdRole::Label));
    assert_eq!(sphinx_ref.priority, SphinxPriority::Standard);
    assert_eq!(
        *sphinx_ref.location(),
        ReferenceString::Expanded("library/stdtypes.html".to_string())
    );
    assert_eq!(
        *sphinx_ref.display_name(),
        ReferenceString::Expanded("asdf".to_string())
    );

    Ok(())
}

#[test]
fn test_index_line() -> Result<(), SphinxParseError> {
    let input = "index std:doc -1  Furo".to_string();

    let sphinx_ref = parse_reference(&input, 0)?;
    assert_eq!(sphinx_ref.name, "index".to_string());
    assert_eq!(sphinx_ref.sphinx_type, SphinxType::Std(StdRole::Doc));
    assert_eq!(sphinx_ref.priority, SphinxPriority::Omit);
    assert_eq!(
        *sphinx_ref.location(),
        ReferenceString::Expanded(String::new())
    );
    assert_eq!(
        *sphinx_ref.display_name(),
        ReferenceString::Expanded("Furo".to_string())
    );

    Ok(())
}

#[test]
fn test_parse_example_record_with_rst_directive() -> Result<(), SphinxParseError> {
    let input = "str.join rst:directive:option 1 library/stdtypes.html#$ -".to_string();

    let sphinx_ref = parse_reference(&input, 0)?;
    assert_eq!(sphinx_ref.name, "str.join".to_string());
    assert_eq!(
        sphinx_ref.sphinx_type,
        SphinxType::ReStructuredText(RstRole::Option)
    );
    assert_eq!(sphinx_ref.priority, SphinxPriority::Standard);
    assert_eq!(
        *sphinx_ref.location(),
        ReferenceString::Minified("library/stdtypes.html#$".to_string())
    );
    assert_eq!(
        *sphinx_ref.display_name(),
        ReferenceString::Minified("-".to_string())
    );

    Ok(())
}

#[test]
fn type_parse_unknown_domain_err() {
    let header = "str.join asdf:method 1 library/stdtypes.html#$ -".to_string();
    let result = parse_reference(&header, 0);
    assert_eq!(
        result,
        Err(SphinxParseError::from_str(
            "str.join asdf:method 1 library/stdtypes.html#$ -",
            "invalid missing domain:role\nexpected `std`, `py`, `c`, `rst`, `cpp`, `js`, `math`",
            48,
            0
        ))
    );
}

#[test]
fn type_parse_py_role_err() {
    let header = "str.join py:asdf 1 library/stdtypes.html#$ -".to_string();
    let result = parse_reference(&header, 0);
    assert_eq!(
        result,
        Err(SphinxParseError::from_str(
            "str.join py:asdf 1 library/stdtypes.html#$ -",
            "invalid python role\nexpected `attribute`, `data`, `exception`, `function`, `method`, `module`, `property`, `class`",
            12,
            0
        ))
    );
}

#[test]
fn test_parse_example_record_with_newline() {
    let input = "str.join\n py:method 1 library/stdtypes.html#$ -";

    let result = parse_reference(input, 0);
    assert!(result.is_err());
}

#[test]
fn test_parse_example_record() -> Result<(), SphinxParseError> {
    let input = "str.join py:method 1 library/stdtypes.html#$ -".to_string();

    let sphinx_ref = parse_reference(&input, 0)?;
    assert_eq!(sphinx_ref.name, "str.join".to_string());
    assert_eq!(sphinx_ref.sphinx_type, SphinxType::Python(PyRole::Method));
    assert_eq!(sphinx_ref.priority, SphinxPriority::Standard);
    assert_eq!(
        *sphinx_ref.location(),
        ReferenceString::Minified("library/stdtypes.html#$".to_string())
    );
    assert_eq!(
        *sphinx_ref.display_name(),
        ReferenceString::Minified("-".to_string())
    );

    Ok(())
}

#[test]
fn test_lkd_hard_line_with_rst_directive() -> Result<(), SphinxParseError> {
    let input = "accel/qaic/aic080:qualcomm cloud ai 80 (aic080) rst:directive:option -1 accel/qaic/aic080.html#qualcomm-cloud-ai-80-aic080 Qualcomm Cloud AI 80 (AIC080)".to_string();

    let sphinx_ref = parse_reference(&input, 0)?;
    assert_eq!(
        sphinx_ref.sphinx_type,
        SphinxType::ReStructuredText(RstRole::Option)
    );
    assert_eq!(sphinx_ref.priority, SphinxPriority::Omit);
    assert_eq!(
        *sphinx_ref.location(),
        ReferenceString::Expanded(
            "accel/qaic/aic080.html#qualcomm-cloud-ai-80-aic080".to_string()
        )
    );
    assert_eq!(
        *sphinx_ref.display_name(),
        ReferenceString::Expanded("Qualcomm Cloud AI 80 (AIC080)".to_string())
    );

    Ok(())
}

#[test]
fn test_lkd_hard_line() -> Result<(), SphinxParseError> {
    let input = "accel/qaic/aic080:qualcomm cloud ai 80 (aic080) std:label -1 accel/qaic/aic080.html#qualcomm-cloud-ai-80-aic080 Qualcomm Cloud AI 80 (AIC080)".to_string();

    let sphinx_ref = parse_reference(&input, 0)?;
    assert_eq!(
        sphinx_ref.name,
        "accel/qaic/aic080:qualcomm cloud ai 80 (aic080)".to_string()
    );
    assert_eq!(sphinx_ref.sphinx_type, SphinxType::Std(StdRole::Label));
    assert_eq!(sphinx_ref.priority, SphinxPriority::Omit);
    assert_eq!(
        *sphinx_ref.location(),
        ReferenceString::Expanded(
            "accel/qaic/aic080.html#qualcomm-cloud-ai-80-aic080".to_string()
        )
    );
    assert_eq!(
        *sphinx_ref.display_name(),
        ReferenceString::Expanded("Qualcomm Cloud AI 80 (AIC080)".to_string())
    );

    Ok(())
}

#[test]
fn new_reference() {
    let reference = SphinxReference::new(
        "foo",
        SphinxType::C(CRole::Macro),
        SphinxPriority::Standard,
        "foo/bar",
        "-",
    );
    assert_eq!(reference.name, "foo".to_string());
    assert_eq!(reference.sphinx_type, SphinxType::C(CRole::Macro));
    assert_eq!(reference.priority, SphinxPriority::Standard);
    assert_eq!(
        *reference.location(),
        ReferenceString::Expanded("foo/bar".to_string())
    );
    assert_eq!(
        *reference.display_name(),
        ReferenceString::Minified("-".to_string())
    );
}

#[test]
fn expansion_and_minification() {
    let minified = SphinxReference::new(
        "str.join",
        SphinxType::Python(PyRole::Method),
        SphinxPriority::Standard,
        "library/stdtypes.html#$",
        "-",
    );
    assert_eq!(minified.expanded_location(), "library/stdtypes.html#str.join");
    assert_eq!(minified.expanded_display_name(), "str.join");
    assert_eq!(minified.minified_location(), "library/stdtypes.html#$");
    assert_eq!(minified.minified_display_name(), "-");

    let expanded = SphinxReference::new(
        "str.join",
        SphinxType::Python(PyRole::Method),
        SphinxPriority::Standard,
        "library/stdtypes.html#str.join",
        "Join",
    );
    assert_eq!(expanded.minified_location(), "library/stdtypes.html#$");
    assert_eq!(expanded.minified_display_name(), "-");
    assert_eq!(expanded.fmt_expanded(), "str.join py:method 1 library/stdtypes.html#str.join Join");
    assert_eq!(expanded.fmt_minified(), "str.join py:method 1 library/stdtypes.html#$ -");

    // a location without an anchor stays as it is
    let no_anchor = SphinxReference::new("a", SphinxType::Std(StdRole::Doc), SphinxPriority::Low, "a.html", "A");
    assert_eq!(no_anchor.minified_location(), "a.html");
    // every `$` is replaced when expanding
    let dollars = SphinxReference::new("n", SphinxType::Std(StdRole::Doc), SphinxPriority::High, "$/x#$", "-");
    assert_eq!(dollars.expanded_location(), "n/x#n");
    // records are equal when they agree once written out
    assert_eq!(minified, SphinxReference::new("str.join", SphinxType::Python(PyRole::Method), SphinxPriority::Standard, "library/stdtypes.html#str.join", "str.join"));
    assert_ne!(minified, expanded);
}

#[test]
fn record_lines_read_back() -> Result<(), SphinxParseError> {
    let reference = SphinxReference::new(
        "my name : with py words",
        SphinxType::Cpp(sphinx_inv::CppRole::TemplateParam),
        SphinxPriority::Low,
        "api.html#anchor",
        "The Display",
    );
    assert_eq!(parse_reference(&reference.fmt_expanded(), 3)?, reference);
    let minifiable = SphinxReference::new(
        "ns::thing",
        SphinxType::Http(sphinx_inv::HttpRole::Get),
        SphinxPriority::High,
        "api.html#$",
        "-",
    );
    assert_eq!(parse_reference(&minifiable.fmt_minified(), 3)?, minifiable);
    assert_eq!(parse_reference(&minifiable.fmt_expanded(), 3)?, minifiable);
    Ok(())
}

#[test]
fn record_line_errors() {
    let missing = "invalid missing domain:role\nexpected `std`, `py`, `c`, `rst`, `cpp`, `js`, `math`";
    // a line starting with a blank has no name
    assert_eq!(parse_reference(" a py:method 1 x -", 2), Err(SphinxParseError::from_str(" a py:method 1 x -", "", 0, 2)));
    // no domain
    assert_eq!(parse_reference("a", 2), Err(SphinxParseError::from_str("a", missing, 1, 2)));
    // a domain followed by no role
    assert_eq!(parse_reference("a c: 1 x -", 2), Err(SphinxParseError::from_str("a c: 1 x -", "invalid c role", 4, 2)));
    // an unknown http role
    assert_eq!(parse_reference("a http:fetch 1 x -", 2), Err(SphinxParseError::from_str("a http:fetch 1 x -", "invalid expected valid http role", 7, 2)));
    // an unknown std role has no message
    assert_eq!(parse_reference("a std:thing 1 x -", 2), Err(SphinxParseError::from_str("a std:thing 1 x -", "", 6, 2)));
    // a bad priority
    assert_eq!(parse_reference("a std:doc 5 x -", 2), Err(SphinxParseError::from_str("a std:doc 5 x -", "", 10, 2)));
    // a missing display name
    assert_eq!(parse_reference("a std:doc 1 x", 2), Err(SphinxParseError::from_str("a std:doc 1 x", "", 13, 2)));
    // a carriage return in the display name
    assert_eq!(parse_reference("a std:doc 1 x y\rz", 2), Err(SphinxParseError::from_str("a std:doc 1 x y\rz", "", 15, 2)));
    // offsets are byte offsets
    assert_eq!(parse_reference("é py:bad 1 x -", 2).unwrap_err().location, 6);
}

#[test]
fn name_may_end_before_any_punctuation() -> Result<(), SphinxParseError> {
    // the character just before the type is dropped, whatever it is
    let r = parse_reference("a b.py:method 1 x -", 0)?;
    assert_eq!(r.name, "a b");
    assert_eq!(r.sphinx_type, SphinxType::Python(PyRole::Method));
    Ok(())
}

#[test]
fn getters_give_the_public_fields() {
    let r = SphinxReference::new(
        "str.join",
        SphinxType::Python(PyRole::Method),
        SphinxPriority::Standard,
        "library/stdtypes.html#$",
        "-",
    );
    assert_eq!(r.name(), &r.name);
    assert_eq!(r.name().as_str(), "str.join");
    assert_eq!(r.sphinx_type(), SphinxType::Python(PyRole::Method));
    assert_eq!(r.priority(), SphinxPriority::Standard);
}
