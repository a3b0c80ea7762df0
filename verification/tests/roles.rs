use sphinx_inv::{
    parse_role, CRole, CmakeRole, CppRole, Domain, HttpRole, JsRole, LineFailure,
    MalformedReference, MathRole, PyRole, RstRole, SipRole, SphinxPriority, SphinxType, StdRole,
    UnknownPriority, UnknownRole,
};

#[test]
fn test_sphinx_role_parsing_std_err() {
    assert!(JsRole::from_str("asdf").is_err());
    assert!(JsRole::from_str("doc").is_err());
    assert!(JsRole::from_str("").is_err());
    assert!(JsRole::from_str("::::").is_err());
    assert!(JsRole::from_str(" label").is_err());
    assert!(JsRole::from_str(" asdf").is_err());
}

#[test]
fn test_sphinx_type_parsing_js() -> Result<(), UnknownRole> {
    assert_eq!(JsRole::from_str("module")?, JsRole::Module);
    assert_eq!(JsRole::from_str("function")?, JsRole::Function);
    assert_eq!(JsRole::from_str("method")?, JsRole::Method);
    assert_eq!(JsRole::from_str("class")?, JsRole::Class);
    assert_eq!(JsRole::from_str("data")?, JsRole::Data);
    Ok(())
}

#[test]
fn display_js_role() {
    assert_eq!(SphinxType::JavaScript(JsRole::Module).to_string(), "js:module");
    assert_eq!(SphinxType::JavaScript(JsRole::Function).to_string(), "js:function");
    assert_eq!(SphinxType::JavaScript(JsRole::Method).to_string(), "js:method");
    assert_eq!(SphinxType::JavaScript(JsRole::Class).to_string(), "js:class");
    assert_eq!(SphinxType::JavaScript(JsRole::Data).to_string(), "js:data");
}

#[test]
fn display_py_role() {
    assert_eq!(SphinxType::Python(PyRole::Class).to_string(), "py:class");
    assert_eq!(SphinxType::Python(PyRole::Property).to_string(), "py:property");
    assert_eq!(SphinxType::Python(PyRole::Module).to_string(), "py:module");
    assert_eq!(SphinxType::Python(PyRole::Method).to_string(), "py:method");
    assert_eq!(SphinxType::Python(PyRole::Function).to_string(), "py:function");
    assert_eq!(SphinxType::Python(PyRole::Type).to_string(), "py:type");
    assert_eq!(SphinxType::Python(PyRole::Exception).to_string(), "py:exception");
    assert_eq!(SphinxType::Python(PyRole::Data).to_string(), "py:data");
    assert_eq!(SphinxType::Python(PyRole::Attribute).to_string(), "py:attribute");
}

#[test]
fn display_cpp_role() {
    assert_eq!(SphinxType::Cpp(CppRole::Type).to_string(), "cpp:type");
    assert_eq!(SphinxType::Cpp(CppRole::Function).to_string(), "cpp:function");
    assert_eq!(SphinxType::Cpp(CppRole::Class).to_string(), "cpp:class");
    assert_eq!(SphinxType::Cpp(CppRole::FunctionParam).to_string(), "cpp:functionParam");
    assert_eq!(SphinxType::Cpp(CppRole::Member).to_string(), "cpp:member");
    assert_eq!(SphinxType::Cpp(CppRole::TemplateParam).to_string(), "cpp:templateParam");
}

#[test]
fn display_c_role() {
    assert_eq!(SphinxType::C(CRole::Enumerator).to_string(), "c:enumerator");
    assert_eq!(SphinxType::C(CRole::Enum).to_string(), "c:enum");
    assert_eq!(SphinxType::C(CRole::Function).to_string(), "c:function");
    assert_eq!(SphinxType::C(CRole::FunctionParam).to_string(), "c:functionParam");
    assert_eq!(SphinxType::C(CRole::Member).to_string(), "c:member");
    assert_eq!(SphinxType::C(CRole::Macro).to_string(), "c:macro");
    assert_eq!(SphinxType::C(CRole::Var).to_string(), "c:var");
    assert_eq!(SphinxType::C(CRole::Type).to_string(), "c:type");
    assert_eq!(SphinxType::C(CRole::Struct).to_string(), "c:struct");
    assert_eq!(SphinxType::C(CRole::Union).to_string(), "c:union");
}

#[test]
fn display_rst_role() {
    assert_eq!(
        SphinxType::ReStructuredText(RstRole::Directive).to_string(),
        "rst:directive"
    );
    assert_eq!(
        SphinxType::ReStructuredText(RstRole::Option).to_string(),
        "rst:directive:option"
    );
}

#[test]
fn display_math_role() {
    assert_eq!(SphinxType::Mathematics(MathRole::Numref).to_string(), "math:numref");
}

#[test]
fn display_std_type() {
    assert_eq!(SphinxType::Std(StdRole::Doc).to_string(), "std:doc");
    assert_eq!(SphinxType::Std(StdRole::Term).to_string(), "std:term");
    assert_eq!(SphinxType::Std(StdRole::Label).to_string(), "std:label");
    assert_eq!(SphinxType::Std(StdRole::Cmdoption).to_string(), "std:cmdoption");
    assert_eq!(SphinxType::Std(StdRole::Pdbcommand).to_string(), "std:pdbcommand");
    assert_eq!(SphinxType::Std(StdRole::Token).to_string(), "std:token");
    assert_eq!(SphinxType::Std(StdRole::Opcode).to_string(), "std:opcode");
    assert_eq!(SphinxType::Std(StdRole::MonitoringEvent).to_string(), "std:monitoring-event");
    assert_eq!(SphinxType::Std(StdRole::Envvar).to_string(), "std:envvar");
}

#[test]
fn rst_parsing() {
    assert_eq!(
        parse_role(Domain::ReStructuredText, "directive").map(|(t, _)| t),
        Ok(SphinxType::ReStructuredText(RstRole::Directive))
    );
    assert_eq!(
        parse_role(Domain::ReStructuredText, "directive:option").map(|(t, _)| t),
        Ok(SphinxType::ReStructuredText(RstRole::Option))
    );
}

#[test]
fn invalid_sip_role() {
    let result = parse_role(Domain::Sip, "asdfasdf");
    assert!(result.is_err());
    assert_eq!(result, Err(LineFailure::UnknownRole(Domain::Sip)));
}

#[test]
fn c_role_enum() -> Result<(), LineFailure> {
    let (role, read) = parse_role(Domain::Sip, "method")?;
    assert_eq!(role, SphinxType::Sip(SipRole::Method));
    assert_eq!(read, 6);
    Ok(())
}

#[test]
fn role_names_read_back() {
    for role in [CmakeRole::Command, CmakeRole::CpackGen, CmakeRole::PropTgt, CmakeRole::Variable] {
        assert_eq!(CmakeRole::from_str(&role.to_string()), Ok(role));
    }
    for role in [HttpRole::Get, HttpRole::Any, HttpRole::Copy] {
        assert_eq!(HttpRole::from_str(role.as_str()), Ok(role));
    }
    for role in [PyRole::PydanticValidator, PyRole::Attr, PyRole::Interface] {
        assert_eq!(PyRole::from_str(role.as_str()), Ok(role));
    }
    // `std:option` is written as `cmdoption` and reads back as `Cmdoption`
    assert_eq!(StdRole::Option.as_str(), "cmdoption");
    assert_eq!(StdRole::from_str("cmdoption"), Ok(StdRole::Cmdoption));
    assert_eq!(StdRole::from_str("option"), Err(UnknownRole));
}

#[test]
fn type_text_reads_back() {
    for t in [
        SphinxType::Python(PyRole::Method),
        SphinxType::ReStructuredText(RstRole::Option),
        SphinxType::Cmake(CmakeRole::PropDir),
        SphinxType::Sip(SipRole::Signal),
        SphinxType::Mathematics(MathRole::Numref),
    ] {
        assert_eq!(SphinxType::try_from(&t.to_string()).unwrap(), t);
    }
    assert!(matches!(
        SphinxType::try_from("nope:method"),
        Err(MalformedReference::InvalidDomain(d)) if d == "nope"
    ));
    assert!(matches!(
        SphinxType::try_from("py"),
        Err(MalformedReference::MalformedDomainField(d)) if d == "py"
    ));
    assert!(matches!(
        SphinxType::try_from("py:nope"),
        Err(MalformedReference::InvalidRole(r)) if r == "nope"
    ));
}

#[test]
fn priorities_read_back() {
    for p in [SphinxPriority::Omit, SphinxPriority::Standard, SphinxPriority::High, SphinxPriority::Low] {
        assert_eq!(SphinxPriority::from_str(&p.to_string()), Ok(p));
    }
    assert_eq!(SphinxPriority::Omit.to_string(), "-1");
    assert_eq!(SphinxPriority::from_str("3"), Err(UnknownPriority));
    assert_eq!(SphinxPriority::from_str("-2"), Err(UnknownPriority));
}
