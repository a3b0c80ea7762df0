//! Roles of the python domain (`py:` in inventories).

use vstd::prelude::*;

use crate::error::UnknownRole;
use crate::text::{chars_eq_str, chars_of, in_class, CharClass};

verus! {

/// A role of the python domain that inventories in the wild declare as `py:{role}`.
#[derive(Clone, Copy, Debug, PartialEq, Eq, Structural)]
pub enum PyRole {
    /// A parameter of a function or method.
    Parameter,
    /// An attribute of an object.
    Attribute,
    /// An alias of [`PyRole::Attribute`].
    Attr,
    /// A module-level variable.
    Data,
    /// A class of exception that can be raised.
    Exception,
    /// A method that does not take `self`.
    Staticmethod,
    /// An enumeration.
    Enum,
    /// A field of a pydantic model.
    PydanticField,
    /// A validator of a pydantic model field.
    PydanticValidator,
    /// A type alias.
    Type,
    /// A module-level function.
    Function,
    /// A function defined on a class.
    Method,
    /// A module.
    Module,
    /// A property of an object.
    Property,
    /// A class.
    Class,
    /// A method of the class object itself.
    Classmethod,
    /// A pydantic model.
    PydanticModel,
    /// An interface, as some inventories declare it.
    Interface,
}

impl PyRole {
    /// The role's name as inventories spell it.
    pub open spec fn name(self) -> Seq<char> {
        match self {
            PyRole::Parameter => "parameter"@,
            PyRole::Attribute => "attribute"@,
            PyRole::Attr => "attr"@,
            PyRole::Data => "data"@,
            PyRole::Exception => "exception"@,
            PyRole::Staticmethod => "staticmethod"@,
            PyRole::Enum => "enum"@,
            PyRole::PydanticField => "pydantic_field"@,
            PyRole::PydanticValidator => "pydantic_validator"@,
            PyRole::Type => "type"@,
            PyRole::Function => "function"@,
            PyRole::Method => "method"@,
            PyRole::Module => "module"@,
            PyRole::Property => "property"@,
            PyRole::Class => "class"@,
            PyRole::Classmethod => "classmethod"@,
            PyRole::PydanticModel => "pydantic_model"@,
            PyRole::Interface => "interface"@,
        }
    }

    /// The role that inventories spell `s`, if there is one.
    pub open spec fn named(s: Seq<char>) -> Option<PyRole> {
        if s == "parameter"@ {
            Some(PyRole::Parameter)
        } else if s == "attribute"@ {
            Some(PyRole::Attribute)
        } else if s == "attr"@ {
            Some(PyRole::Attr)
        } else if s == "data"@ {
            Some(PyRole::Data)
        } else if s == "exception"@ {
            Some(PyRole::Exception)
        } else if s == "staticmethod"@ {
            Some(PyRole::Staticmethod)
        } else if s == "enum"@ {
            Some(PyRole::Enum)
        } else if s == "pydantic_field"@ {
            Some(PyRole::PydanticField)
        } else if s == "pydantic_validator"@ {
            Some(PyRole::PydanticValidator)
        } else if s == "type"@ {
            Some(PyRole::Type)
        } else if s == "function"@ {
            Some(PyRole::Function)
        } else if s == "method"@ {
            Some(PyRole::Method)
        } else if s == "module"@ {
            Some(PyRole::Module)
        } else if s == "property"@ {
            Some(PyRole::Property)
        } else if s == "class"@ {
            Some(PyRole::Class)
        } else if s == "classmethod"@ {
            Some(PyRole::Classmethod)
        } else if s == "pydantic_model"@ {
            Some(PyRole::PydanticModel)
        } else if s == "interface"@ {
            Some(PyRole::Interface)
        } else {
            None
        }
    }

    /// The role's name as inventories spell it.
    pub fn as_str(&self) -> (s: &'static str)
        ensures
            s@ == self.name(),
    {
        match self {
            PyRole::Parameter => "parameter",
            PyRole::Attribute => "attribute",
            PyRole::Attr => "attr",
            PyRole::Data => "data",
            PyRole::Exception => "exception",
            PyRole::Staticmethod => "staticmethod",
            PyRole::Enum => "enum",
            PyRole::PydanticField => "pydantic_field",
            PyRole::PydanticValidator => "pydantic_validator",
            PyRole::Type => "type",
            PyRole::Function => "function",
            PyRole::Method => "method",
            PyRole::Module => "module",
            PyRole::Property => "property",
            PyRole::Class => "class",
            PyRole::Classmethod => "classmethod",
            PyRole::PydanticModel => "pydantic_model",
            PyRole::Interface => "interface",
        }
    }

    /// The role's name as a new string.
    pub fn to_string(&self) -> (s: String)
        ensures
            s@ == self.name(),
    {
        self.as_str().to_owned()
    }

    /// The role that `v[from..to]` spells, if there is one.
    pub fn from_chars(v: &Vec<char>, from: usize, to: usize) -> (r: Option<PyRole>)
        requires
            from <= to <= v@.len(),
        ensures
            r == Self::named(v@.subrange(from as int, to as int)),
    {
        if chars_eq_str(v, from, to, "parameter") {
            Some(PyRole::Parameter)
        } else if chars_eq_str(v, from, to, "attribute") {
            Some(PyRole::Attribute)
        } else if chars_eq_str(v, from, to, "attr") {
            Some(PyRole::Attr)
        } else if chars_eq_str(v, from, to, "data") {
            Some(PyRole::Data)
        } else if chars_eq_str(v, from, to, "exception") {
            Some(PyRole::Exception)
        } else if chars_eq_str(v, from, to, "staticmethod") {
            Some(PyRole::Staticmethod)
        } else if chars_eq_str(v, from, to, "enum") {
            Some(PyRole::Enum)
        } else if chars_eq_str(v, from, to, "pydantic_field") {
            Some(PyRole::PydanticField)
        } else if chars_eq_str(v, from, to, "pydantic_validator") {
            Some(PyRole::PydanticValidator)
        } else if chars_eq_str(v, from, to, "type") {
            Some(PyRole::Type)
        } else if chars_eq_str(v, from, to, "function") {
            Some(PyRole::Function)
        } else if chars_eq_str(v, from, to, "method") {
            Some(PyRole::Method)
        } else if chars_eq_str(v, from, to, "module") {
            Some(PyRole::Module)
        } else if chars_eq_str(v, from, to, "property") {
            Some(PyRole::Property)
        } else if chars_eq_str(v, from, to, "class") {
            Some(PyRole::Class)
        } else if chars_eq_str(v, from, to, "classmethod") {
            Some(PyRole::Classmethod)
        } else if chars_eq_str(v, from, to, "pydantic_model") {
            Some(PyRole::PydanticModel)
        } else if chars_eq_str(v, from, to, "interface") {
            Some(PyRole::Interface)
        } else {
            None
        }
    }

    /// Reads a role from its name; any other text is an unknown role.
    pub fn from_str(s: &str) -> (r: Result<PyRole, UnknownRole>)
        ensures
            r is Ok <==> Self::named(s@) is Some,
            r matches Ok(role) ==> Self::named(s@) == Some(role),
    {
        let v = chars_of(s);
        proof {
            assert(v@.subrange(0, v@.len() as int) =~= s@);
        }
        match Self::from_chars(&v, 0, v.len()) {
            Some(role) => Ok(role),
            None => Err(UnknownRole),
        }
    }

    /// Reading back the name of a role gives that role.
    pub proof fn lemma_named_name(self)
        ensures
            Self::named(self.name()) == Some(self),
    {
        match self {
            PyRole::Parameter => {
                reveal_strlit("parameter");
            },
            PyRole::Attribute => {
                reveal_strlit("attribute");
                reveal_strlit("parameter");
                assert("attribute"@[0] != "parameter"@[0]);
            },
            PyRole::Attr => {
                reveal_strlit("attr");
                reveal_strlit("parameter");
                assert("attr"@.len() != "parameter"@.len());
                reveal_strlit("attribute");
                assert("attr"@.len() != "attribute"@.len());
            },
            PyRole::Data => {
                reveal_strlit("data");
                reveal_strlit("parameter");
                assert("data"@.len() != "parameter"@.len());
                reveal_strlit("attribute");
                assert("data"@.len() != "attribute"@.len());
                reveal_strlit("attr");
                assert("data"@[0] != "attr"@[0]);
            },
            PyRole::Exception => {
                reveal_strlit("exception");
                reveal_strlit("parameter");
                assert("exception"@[0] != "parameter"@[0]);
                reveal_strlit("attribute");
                assert("exception"@[0] != "attribute"@[0]);
                reveal_strlit("attr");
                assert("exception"@.len() != "attr"@.len());
                reveal_strlit("data");
                assert("exception"@.len() != "data"@.len());
            },
            PyRole::Staticmethod => {
                reveal_strlit("staticmethod");
                reveal_strlit("parameter");
                assert("staticmethod"@.len() != "parameter"@.len());
                reveal_strlit("attribute");
                assert("staticmethod"@.len() != "attribute"@.len());
                reveal_strlit("attr");
                assert("staticmethod"@.len() != "attr"@.len());
                reveal_strlit("data");
                assert("staticmethod"@.len() != "data"@.len());
                reveal_strlit("exception");
                assert("staticmethod"@.len() != "exception"@.len());
            },
            PyRole::Enum => {
                reveal_strlit("enum");
                reveal_strlit("parameter");
                assert("enum"@.len() != "parameter"@.len());
                reveal_strlit("attribute");
                assert("enum"@.len() != "attribute"@.len());
                reveal_strlit("attr");
                assert("enum"@[0] != "attr"@[0]);
                reveal_strlit("data");
                assert("enum"@[0] != "data"@[0]);
                reveal_strlit("exception");
                assert("enum"@.len() != "exception"@.len());
                reveal_strlit("staticmethod");
                assert("enum"@.len() != "staticmethod"@.len());
            },
            PyRole::PydanticField => {
                reveal_strlit("pydantic_field");
                reveal_strlit("parameter");
                assert("pydantic_field"@.len() != "parameter"@.len());
                reveal_strlit("attribute");
                assert("pydantic_field"@.len() != "attribute"@.len());
                reveal_strlit("attr");
                assert("pydantic_field"@.len() != "attr"@.len());
                reveal_strlit("data");
                assert("pydantic_field"@.len() != "data"@.len());
                reveal_strlit("exception");
                assert("pydantic_field"@.len() != "exception"@.len());
                reveal_strlit("staticmethod");
                assert("pydantic_field"@.len() != "staticmethod"@.len());
                reveal_strlit("enum");
                assert("pydantic_field"@.len() != "enum"@.len());
            },
            PyRole::PydanticValidator => {
                reveal_strlit("pydantic_validator");
                reveal_strlit("parameter");
                assert("pydantic_validator"@.len() != "parameter"@.len());
                reveal_strlit("attribute");
                assert("pydantic_validator"@.len() != "attribute"@.len());
                reveal_strlit("attr");
                assert("pydantic_validator"@.len() != "attr"@.len());
                reveal_strlit("data");
                assert("pydantic_validator"@.len() != "data"@.len());
                reveal_strlit("exception");
                assert("pydantic_validator"@.len() != "exception"@.len());
                reveal_strlit("staticmethod");
                assert("pydantic_validator"@.len() != "staticmethod"@.len());
                reveal_strlit("enum");
                assert("pydantic_validator"@.len() != "enum"@.len());
                reveal_strlit("pydantic_field");
                assert("pydantic_validator"@.len() != "pydantic_field"@.len());
            },
            PyRole::Type => {
                reveal_strlit("type");
                reveal_strlit("parameter");
                assert("type"@.len() != "parameter"@.len());
                reveal_strlit("attribute");
                assert("type"@.len() != "attribute"@.len());
                reveal_strlit("attr");
                assert("type"@[0] != "attr"@[0]);
                reveal_strlit("data");
                assert("type"@[0] != "data"@[0]);
                reveal_strlit("exception");
                assert("type"@.len() != "exception"@.len());
                reveal_strlit("staticmethod");
                assert("type"@.len() != "staticmethod"@.len());
                reveal_strlit("enum");
                assert("type"@[0] != "enum"@[0]);
                reveal_strlit("pydantic_field");
                assert("type"@.len() != "pydantic_field"@.len());
                reveal_strlit("pydantic_validator");
                assert("type"@.len() != "pydantic_validator"@.len());
            },
            PyRole::Function => {
                reveal_strlit("function");
                reveal_strlit("parameter");
                assert("function"@.len() != "parameter"@.len());
                reveal_strlit("attribute");
                assert("function"@.len() != "attribute"@.len());
                reveal_strlit("attr");
                assert("function"@.len() != "attr"@.len());
                reveal_strlit("data");
                assert("function"@.len() != "data"@.len());
                reveal_strlit("exception");
                assert("function"@.len() != "exception"@.len());
                reveal_strlit("staticmethod");
                assert("function"@.len() != "staticmethod"@.len());
                reveal_strlit("enum");
                assert("function"@.len() != "enum"@.len());
                reveal_strlit("pydantic_field");
                assert("function"@.len() != "pydantic_field"@.len());
                reveal_strlit("pydantic_validator");
                assert("function"@.len() != "pydantic_validator"@.len());
                reveal_strlit("type");
                assert("function"@.len() != "type"@.len());
            },
            PyRole::Method => {
                reveal_strlit("method");
                reveal_strlit("parameter");
                assert("method"@.len() != "parameter"@.len());
                reveal_strlit("attribute");
                assert("method"@.len() != "attribute"@.len());
                reveal_strlit("attr");
                assert("method"@.len() != "attr"@.len());
                reveal_strlit("data");
                assert("method"@.len() != "data"@.len());
                reveal_strlit("exception");
                assert("method"@.len() != "exception"@.len());
                reveal_strlit("staticmethod");
                assert("method"@.len() != "staticmethod"@.len());
                reveal_strlit("enum");
                assert("method"@.len() != "enum"@.len());
                reveal_strlit("pydantic_field");
                assert("method"@.len() != "pydantic_field"@.len());
                reveal_strlit("pydantic_validator");
                assert("method"@.len() != "pydantic_validator"@.len());
                reveal_strlit("type");
                assert("method"@.len() != "type"@.len());
                reveal_strlit("function");
                assert("method"@.len() != "function"@.len());
            },
            PyRole::Module => {
                reveal_strlit("module");
                reveal_strlit("parameter");
                assert("module"@.len() != "parameter"@.len());
                reveal_strlit("attribute");
                assert("module"@.len() != "attribute"@.len());
                reveal_strlit("attr");
                assert("module"@.len() != "attr"@.len());
                reveal_strlit("data");
                assert("module"@.len() != "data"@.len());
                reveal_strlit("exception");
                assert("module"@.len() != "exception"@.len());
                reveal_strlit("staticmethod");
                assert("module"@.len() != "staticmethod"@.len());
                reveal_strlit("enum");
                assert("module"@.len() != "enum"@.len());
                reveal_strlit("pydantic_field");
                assert("module"@.len() != "pydantic_field"@.len());
                reveal_strlit("pydantic_validator");
                assert("module"@.len() != "pydantic_validator"@.len());
                reveal_strlit("type");
                assert("module"@.len() != "type"@.len());
                reveal_strlit("function");
                assert("module"@.len() != "function"@.len());
                reveal_strlit("method");
                assert("module"@[1] != "method"@[1]);
            },
            PyRole::Property => {
                reveal_strlit("property");
                reveal_strlit("parameter");
                assert("property"@.len() != "parameter"@.len());
                reveal_strlit("attribute");
                assert("property"@.len() != "attribute"@.len());
                reveal_strlit("attr");
                assert("property"@.len() != "attr"@.len());
                reveal_strlit("data");
                assert("property"@.len() != "data"@.len());
                reveal_strlit("exception");
                assert("property"@.len() != "exception"@.len());
                reveal_strlit("staticmethod");
                assert("property"@.len() != "staticmethod"@.len());
                reveal_strlit("enum");
                assert("property"@.len() != "enum"@.len());
                reveal_strlit("pydantic_field");
                assert("property"@.len() != "pydantic_field"@.len());
                reveal_strlit("pydantic_validator");
                assert("property"@.len() != "pydantic_validator"@.len());
                reveal_strlit("type");
                assert("property"@.len() != "type"@.len());
                reveal_strlit("function");
                assert("property"@[0] != "function"@[0]);
                reveal_strlit("method");
                assert("property"@.len() != "method"@.len());
                reveal_strlit("module");
                assert("property"@.len() != "module"@.len());
            },
            PyRole::Class => {
                reveal_strlit("class");
                reveal_strlit("parameter");
                assert("class"@.len() != "parameter"@.len());
                reveal_strlit("attribute");
                assert("class"@.len() != "attribute"@.len());
                reveal_strlit("attr");
                assert("class"@.len() != "attr"@.len());
                reveal_strlit("data");
                assert("class"@.len() != "data"@.len());
                reveal_strlit("exception");
                assert("class"@.len() != "exception"@.len());
                reveal_strlit("staticmethod");
                assert("class"@.len() != "staticmethod"@.len());
                reveal_strlit("enum");
                assert("class"@.len() != "enum"@.len());
                reveal_strlit("pydantic_field");
                assert("class"@.len() != "pydantic_field"@.len());
                reveal_strlit("pydantic_validator");
                assert("class"@.len() != "pydantic_validator"@.len());
                reveal_strlit("type");
                assert("class"@.len() != "type"@.len());
                reveal_strlit("function");
                assert("class"@.len() != "function"@.len());
                reveal_strlit("method");
                assert("class"@.len() != "method"@.len());
                reveal_strlit("module");
                assert("class"@.len() != "module"@.len());
                reveal_strlit("property");
                assert("class"@.len() != "property"@.len());
            },
            PyRole::Classmethod => {
                reveal_strlit("classmethod");
                reveal_strlit("parameter");
                assert("classmethod"@.len() != "parameter"@.len());
                reveal_strlit("attribute");
                assert("classmethod"@.len() != "attribute"@.len());
                reveal_strlit("attr");
                assert("classmethod"@.len() != "attr"@.len());
                reveal_strlit("data");
                assert("classmethod"@.len() != "data"@.len());
                reveal_strlit("exception");
                assert("classmethod"@.len() != "exception"@.len());
                reveal_strlit("staticmethod");
                assert("classmethod"@.len() != "staticmethod"@.len());
                reveal_strlit("enum");
                assert("classmethod"@.len() != "enum"@.len());
                reveal_strlit("pydantic_field");
                assert("classmethod"@.len() != "pydantic_field"@.len());
                reveal_strlit("pydantic_validator");
                assert("classmethod"@.len() != "pydantic_validator"@.len());
                reveal_strlit("type");
                assert("classmethod"@.len() != "type"@.len());
                reveal_strlit("function");
                assert("classmethod"@.len() != "function"@.len());
                reveal_strlit("method");
                assert("classmethod"@.len() != "method"@.len());
                reveal_strlit("module");
                assert("classmethod"@.len() != "module"@.len());
                reveal_strlit("property");
                assert("classmethod"@.len() != "property"@.len());
                reveal_strlit("class");
                assert("classmethod"@.len() != "class"@.len());
            },
            PyRole::PydanticModel => {
                reveal_strlit("pydantic_model");
                reveal_strlit("parameter");
                assert("pydantic_model"@.len() != "parameter"@.len());
                reveal_strlit("attribute");
                assert("pydantic_model"@.len() != "attribute"@.len());
                reveal_strlit("attr");
                assert("pydantic_model"@.len() != "attr"@.len());
                reveal_strlit("data");
                assert("pydantic_model"@.len() != "data"@.len());
                reveal_strlit("exception");
                assert("pydantic_model"@.len() != "exception"@.len());
                reveal_strlit("staticmethod");
                assert("pydantic_model"@.len() != "staticmethod"@.len());
                reveal_strlit("enum");
                assert("pydantic_model"@.len() != "enum"@.len());
                reveal_strlit("pydantic_field");
                assert("pydantic_model"@[9] != "pydantic_field"@[9]);
                reveal_strlit("pydantic_validator");
                assert("pydantic_model"@.len() != "pydantic_validator"@.len());
                reveal_strlit("type");
                assert("pydantic_model"@.len() != "type"@.len());
                reveal_strlit("function");
                assert("pydantic_model"@.len() != "function"@.len());
                reveal_strlit("method");
                assert("pydantic_model"@.len() != "method"@.len());
                reveal_strlit("module");
                assert("pydantic_model"@.len() != "module"@.len());
                reveal_strlit("property");
                assert("pydantic_model"@.len() != "property"@.len());
                reveal_strlit("class");
                assert("pydantic_model"@.len() != "class"@.len());
                reveal_strlit("classmethod");
                assert("pydantic_model"@.len() != "classmethod"@.len());
            },
            PyRole::Interface => {
                reveal_strlit("interface");
                reveal_strlit("parameter");
                assert("interface"@[0] != "parameter"@[0]);
                reveal_strlit("attribute");
                assert("interface"@[0] != "attribute"@[0]);
                reveal_strlit("attr");
                assert("interface"@.len() != "attr"@.len());
                reveal_strlit("data");
                assert("interface"@.len() != "data"@.len());
                reveal_strlit("exception");
                assert("interface"@[0] != "exception"@[0]);
                reveal_strlit("staticmethod");
                assert("interface"@.len() != "staticmethod"@.len());
                reveal_strlit("enum");
                assert("interface"@.len() != "enum"@.len());
                reveal_strlit("pydantic_field");
                assert("interface"@.len() != "pydantic_field"@.len());
                reveal_strlit("pydantic_validator");
                assert("interface"@.len() != "pydantic_validator"@.len());
                reveal_strlit("type");
                assert("interface"@.len() != "type"@.len());
                reveal_strlit("function");
                assert("interface"@.len() != "function"@.len());
                reveal_strlit("method");
                assert("interface"@.len() != "method"@.len());
                reveal_strlit("module");
                assert("interface"@.len() != "module"@.len());
                reveal_strlit("property");
                assert("interface"@.len() != "property"@.len());
                reveal_strlit("class");
                assert("interface"@.len() != "class"@.len());
                reveal_strlit("classmethod");
                assert("interface"@.len() != "classmethod"@.len());
                reveal_strlit("pydantic_model");
                assert("interface"@.len() != "pydantic_model"@.len());
            },
        }
    }

    /// A role's name is not empty and holds no blank or line break.
    pub proof fn lemma_name_chars(self)
        ensures
            self.name().len() > 0,
            forall|i: int| 0 <= i < self.name().len() ==> in_class(#[trigger] self.name()[i], CharClass::NonSpace),
    {
        match self {
            PyRole::Parameter => {
                reveal_strlit("parameter");
                assert(forall|i: int| 0 <= i < "parameter"@.len() ==> in_class(#[trigger] "parameter"@[i], CharClass::NonSpace));
            },
            PyRole::Attribute => {
                reveal_strlit("attribute");
                assert(forall|i: int| 0 <= i < "attribute"@.len() ==> in_class(#[trigger] "attribute"@[i], CharClass::NonSpace));
            },
            PyRole::Attr => {
                reveal_strlit("attr");
                assert(forall|i: int| 0 <= i < "attr"@.len() ==> in_class(#[trigger] "attr"@[i], CharClass::NonSpace));
            },
            PyRole::Data => {
                reveal_strlit("data");
                assert(forall|i: int| 0 <= i < "data"@.len() ==> in_class(#[trigger] "data"@[i], CharClass::NonSpace));
            },
            PyRole::Exception => {
                reveal_strlit("exception");
                assert(forall|i: int| 0 <= i < "exception"@.len() ==> in_class(#[trigger] "exception"@[i], CharClass::NonSpace));
            },
            PyRole::Staticmethod => {
                reveal_strlit("staticmethod");
                assert(forall|i: int| 0 <= i < "staticmethod"@.len() ==> in_class(#[trigger] "staticmethod"@[i], CharClass::NonSpace));
            },
            PyRole::Enum => {
                reveal_strlit("enum");
                assert(forall|i: int| 0 <= i < "enum"@.len() ==> in_class(#[trigger] "enum"@[i], CharClass::NonSpace));
            },
            PyRole::PydanticField => {
                reveal_strlit("pydantic_field");
                assert(forall|i: int| 0 <= i < "pydantic_field"@.len() ==> in_class(#[trigger] "pydantic_field"@[i], CharClass::NonSpace));
            },
            PyRole::PydanticValidator => {
                reveal_strlit("pydantic_validator");
                assert(forall|i: int| 0 <= i < "pydantic_validator"@.len() ==> in_class(#[trigger] "pydantic_validator"@[i], CharClass::NonSpace));
            },
            PyRole::Type => {
                reveal_strlit("type");
                assert(forall|i: int| 0 <= i < "type"@.len() ==> in_class(#[trigger] "type"@[i], CharClass::NonSpace));
            },
            PyRole::Function => {
                reveal_strlit("function");
                assert(forall|i: int| 0 <= i < "function"@.len() ==> in_class(#[trigger] "function"@[i], CharClass::NonSpace));
            },
            PyRole::Method => {
                reveal_strlit("method");
                assert(forall|i: int| 0 <= i < "method"@.len() ==> in_class(#[trigger] "method"@[i], CharClass::NonSpace));
            },
            PyRole::Module => {
                reveal_strlit("module");
                assert(forall|i: int| 0 <= i < "module"@.len() ==> in_class(#[trigger] "module"@[i], CharClass::NonSpace));
            },
            PyRole::Property => {
                reveal_strlit("property");
                assert(forall|i: int| 0 <= i < "property"@.len() ==> in_class(#[trigger] "property"@[i], CharClass::NonSpace));
            },
            PyRole::Class => {
                reveal_strlit("class");
                assert(forall|i: int| 0 <= i < "class"@.len() ==> in_class(#[trigger] "class"@[i], CharClass::NonSpace));
            },
            PyRole::Classmethod => {
                reveal_strlit("classmethod");
                assert(forall|i: int| 0 <= i < "classmethod"@.len() ==> in_class(#[trigger] "classmethod"@[i], CharClass::NonSpace));
            },
            PyRole::PydanticModel => {
                reveal_strlit("pydantic_model");
                assert(forall|i: int| 0 <= i < "pydantic_model"@.len() ==> in_class(#[trigger] "pydantic_model"@[i], CharClass::NonSpace));
            },
            PyRole::Interface => {
                reveal_strlit("interface");
                assert(forall|i: int| 0 <= i < "interface"@.len() ==> in_class(#[trigger] "interface"@[i], CharClass::NonSpace));
            },
        }
    }

    /// A role that reads back from a text has that text as its name.
    pub proof fn lemma_name_named(s: Seq<char>)
        ensures
            Self::named(s) matches Some(role) ==> role.name() == s,
    {
    }

    /// Each role is spelled as Sphinx spells it, and that spelling reads back as the
    /// role: `parameter` for `Parameter`, `attribute` for `Attribute`, `attr` for
    /// `Attr`, `data` for `Data`, `exception` for `Exception`, `staticmethod` for
    /// `Staticmethod`, `enum` for `Enum`, `pydantic_field` for `PydanticField`,
    /// `pydantic_validator` for `PydanticValidator`, `type` for `Type`, `function` for
    /// `Function`, `method` for `Method`, `module` for `Module`, `property` for
    /// `Property`, `class` for `Class`, `classmethod` for `Classmethod`,
    /// `pydantic_model` for `PydanticModel`, `interface` for `Interface`.
    pub proof fn law_spellings()
        ensures
            PyRole::Parameter.name() == "parameter"@,
            PyRole::named("parameter"@) == Some(PyRole::Parameter),
            PyRole::Attribute.name() == "attribute"@,
            PyRole::named("attribute"@) == Some(PyRole::Attribute),
            PyRole::Attr.name() == "attr"@,
            PyRole::named("attr"@) == Some(PyRole::Attr),
            PyRole::Data.name() == "data"@,
            PyRole::named("data"@) == Some(PyRole::Data),
            PyRole::Exception.name() == "exception"@,
            PyRole::named("exception"@) == Some(PyRole::Exception),
            PyRole::Staticmethod.name() == "staticmethod"@,
            PyRole::named("staticmethod"@) == Some(PyRole::Staticmethod),
            PyRole::Enum.name() == "enum"@,
            PyRole::named("enum"@) == Some(PyRole::Enum),
            PyRole::PydanticField.name() == "pydantic_field"@,
            PyRole::named("pydantic_field"@) == Some(PyRole::PydanticField),
            PyRole::PydanticValidator.name() == "pydantic_validator"@,
            PyRole::named("pydantic_validator"@) == Some(PyRole::PydanticValidator),
            PyRole::Type.name() == "type"@,
            PyRole::named("type"@) == Some(PyRole::Type),
            PyRole::Function.name() == "function"@,
            PyRole::named("function"@) == Some(PyRole::Function),
            PyRole::Method.name() == "method"@,
            PyRole::named("method"@) == Some(PyRole::Method),
            PyRole::Module.name() == "module"@,
            PyRole::named("module"@) == Some(PyRole::Module),
            PyRole::Property.name() == "property"@,
            PyRole::named("property"@) == Some(PyRole::Property),
            PyRole::Class.name() == "class"@,
            PyRole::named("class"@) == Some(PyRole::Class),
            PyRole::Classmethod.name() == "classmethod"@,
            PyRole::named("classmethod"@) == Some(PyRole::Classmethod),
            PyRole::PydanticModel.name() == "pydantic_model"@,
            PyRole::named("pydantic_model"@) == Some(PyRole::PydanticModel),
            PyRole::Interface.name() == "interface"@,
            PyRole::named("interface"@) == Some(PyRole::Interface),
    {
        PyRole::Parameter.lemma_named_name();
        PyRole::Attribute.lemma_named_name();
        PyRole::Attr.lemma_named_name();
        PyRole::Data.lemma_named_name();
        PyRole::Exception.lemma_named_name();
        PyRole::Staticmethod.lemma_named_name();
        PyRole::Enum.lemma_named_name();
        PyRole::PydanticField.lemma_named_name();
        PyRole::PydanticValidator.lemma_named_name();
        PyRole::Type.lemma_named_name();
        PyRole::Function.lemma_named_name();
        PyRole::Method.lemma_named_name();
        PyRole::Module.lemma_named_name();
        PyRole::Property.lemma_named_name();
        PyRole::Class.lemma_named_name();
        PyRole::Classmethod.lemma_named_name();
        PyRole::PydanticModel.lemma_named_name();
        PyRole::Interface.lemma_named_name();
    }
}

} // verus!
