//! Roles of the C++ domain (`cpp:` in inventories).

use vstd::prelude::*;

use crate::error::UnknownRole;
use crate::text::{chars_eq_str, chars_of, in_class, CharClass};

verus! {

/// A role of the C++ domain that inventories in the wild declare as `cpp:{role}`.
#[derive(Clone, Copy, Debug, PartialEq, Eq, Structural)]
pub enum CppRole {
    /// A C++ enum.
    Enum,
    /// A C++ enumerator.
    Enumerator,
    /// A C++ class (or struct).
    Class,
    /// A C++ union.
    Union,
    /// A C++ concept.
    Concept,
    /// A C++ function or method.
    Function,
    /// A parameter of a C++ function.
    FunctionParam,
    /// A C++ variable or member.
    Member,
    /// A C++ template parameter.
    TemplateParam,
    /// A C++ type declaration or alias.
    Type,
}

impl CppRole {
    /// The role's name as inventories spell it.
    pub open spec fn name(self) -> Seq<char> {
        match self {
            CppRole::Enum => "enum"@,
            CppRole::Enumerator => "enumerator"@,
            CppRole::Class => "class"@,
            CppRole::Union => "union"@,
            CppRole::Concept => "concept"@,
            CppRole::Function => "function"@,
            CppRole::FunctionParam => "functionParam"@,
            CppRole::Member => "member"@,
            CppRole::TemplateParam => "templateParam"@,
            CppRole::Type => "type"@,
        }
    }

    /// The role that inventories spell `s`, if there is one.
    pub open spec fn named(s: Seq<char>) -> Option<CppRole> {
        if s == "enum"@ {
            Some(CppRole::Enum)
        } else if s == "enumerator"@ {
            Some(CppRole::Enumerator)
        } else if s == "class"@ {
            Some(CppRole::Class)
        } else if s == "union"@ {
            Some(CppRole::Union)
        } else if s == "concept"@ {
            Some(CppRole::Concept)
        } else if s == "function"@ {
            Some(CppRole::Function)
        } else if s == "functionParam"@ {
            Some(CppRole::FunctionParam)
        } else if s == "member"@ {
            Some(CppRole::Member)
        } else if s == "templateParam"@ {
            Some(CppRole::TemplateParam)
        } else if s == "type"@ {
            Some(CppRole::Type)
        } else {
            None
        }
    }

    /// The role's name as inventories spell it.
    pub fn as_str(&self) -> (s: &'static str)
        ensures
            s@ == self.name(),
    {
        match self {
            CppRole::Enum => "enum",
            CppRole::Enumerator => "enumerator",
            CppRole::Class => "class",
            CppRole::Union => "union",
            CppRole::Concept => "concept",
            CppRole::Function => "function",
            CppRole::FunctionParam => "functionParam",
            CppRole::Member => "member",
            CppRole::TemplateParam => "templateParam",
            CppRole::Type => "type",
        }
    }

    /// The role's name as a new string.
    pub fn to_string(&self) -> (s: String)
        ensures
            s@ == self.name(),
    {
        self.as_str().to_owned()
    }

    /// The role that `v[from..to]` spells, if there is one.
    pub fn from_chars(v: &Vec<char>, from: usize, to: usize) -> (r: Option<CppRole>)
        requires
            from <= to <= v@.len(),
        ensures
            r == Self::named(v@.subrange(from as int, to as int)),
    {
        if chars_eq_str(v, from, to, "enum") {
            Some(CppRole::Enum)
        } else if chars_eq_str(v, from, to, "enumerator") {
            Some(CppRole::Enumerator)
        } else if chars_eq_str(v, from, to, "class") {
            Some(CppRole::Class)
        } else if chars_eq_str(v, from, to, "union") {
            Some(CppRole::Union)
        } else if chars_eq_str(v, from, to, "concept") {
            Some(CppRole::Concept)
        } else if chars_eq_str(v, from, to, "function") {
            Some(CppRole::Function)
        } else if chars_eq_str(v, from, to, "functionParam") {
            Some(CppRole::FunctionParam)
        } else if chars_eq_str(v, from, to, "member") {
            Some(CppRole::Member)
        } else if chars_eq_str(v, from, to, "templateParam") {
            Some(CppRole::TemplateParam)
        } else if chars_eq_str(v, from, to, "type") {
            Some(CppRole::Type)
        } else {
            None
        }
    }

    /// Reads a role from its name; any other text is an unknown role.
    pub fn from_str(s: &str) -> (r: Result<CppRole, UnknownRole>)
        ensures
            r is Ok <==> Self::named(s@) is Some,
            r matches Ok(role) ==> Self::named(s@) == Some(role),
    {
        let v = chars_of(s);
        proof {
            assert(v@.subrange(0, v@.len() as int) =~= s@);
        }
        match Self::from_chars(&v, 0, v.len()) {
            Some(role) => Ok(role),
            None => Err(UnknownRole),
        }
    }

    /// Reading back the name of a role gives that role.
    pub proof fn lemma_named_name(self)
        ensures
            Self::named(self.name()) == Some(self),
    {
        match self {
            CppRole::Enum => {
                reveal_strlit("enum");
            },
            CppRole::Enumerator => {
                reveal_strlit("enumerator");
                reveal_strlit("enum");
                assert("enumerator"@.len() != "enum"@.len());
            },
            CppRole::Class => {
                reveal_strlit("class");
                reveal_strlit("enum");
                assert("class"@.len() != "enum"@.len());
                reveal_strlit("enumerator");
                assert("class"@.len() != "enumerator"@.len());
            },
            CppRole::Union => {
                reveal_strlit("union");
                reveal_strlit("enum");
                assert("union"@.len() != "enum"@.len());
                reveal_strlit("enumerator");
                assert("union"@.len() != "enumerator"@.len());
                reveal_strlit("class");
                assert("union"@[0] != "class"@[0]);
            },
            CppRole::Concept => {
                reveal_strlit("concept");
                reveal_strlit("enum");
                assert("concept"@.len() != "enum"@.len());
                reveal_strlit("enumerator");
                assert("concept"@.len() != "enumerator"@.len());
                reveal_strlit("class");
                assert("concept"@.len() != "class"@.len());
                reveal_strlit("union");
                assert("concept"@.len() != "union"@.len());
            },
            CppRole::Function => {
                reveal_strlit("function");
                reveal_strlit("enum");
                assert("function"@.len() != "enum"@.len());
                reveal_strlit("enumerator");
                assert("function"@.len() != "enumerator"@.len());
                reveal_strlit("class");
                assert("function"@.len() != "class"@.len());
                reveal_strlit("union");
                assert("function"@.len() != "union"@.len());
                reveal_strlit("concept");
                assert("function"@.len() != "concept"@.len());
            },
            CppRole::FunctionParam => {
                reveal_strlit("functionParam");
                reveal_strlit("enum");
                assert("functionParam"@.len() != "enum"@.len());
                reveal_strlit("enumerator");
                assert("functionParam"@.len() != "enumerator"@.len());
                reveal_strlit("class");
                assert("functionParam"@.len() != "class"@.len());
                reveal_strlit("union");
                assert("functionParam"@.len() != "union"@.len());
                reveal_strlit("concept");
                assert("functionParam"@.len() != "concept"@.len());
                reveal_strlit("function");
                assert("functionParam"@.len() != "function"@.len());
            },
            CppRole::Member => {
                reveal_strlit("member");
                reveal_strlit("enum");
                assert("member"@.len() != "enum"@.len());
                reveal_strlit("enumerator");
                assert("member"@.len() != "enumerator"@.len());
                reveal_strlit("class");
                assert("member"@.len() != "class"@.len());
                reveal_strlit("union");
                assert("member"@.len() != "union"@.len());
                reveal_strlit("concept");
                assert("member"@.len() != "concept"@.len());
                reveal_strlit("function");
                assert("member"@.len() != "function"@.len());
                reveal_strlit("functionParam");
                assert("member"@.len() != "functionParam"@.len());
            },
            CppRole::TemplateParam => {
                reveal_strlit("templateParam");
                reveal_strlit("enum");
                assert("templateParam"@.len() != "enum"@.len());
                reveal_strlit("enumerator");
                assert("templateParam"@.len() != "enumerator"@.len());
                reveal_strlit("class");
                assert("templateParam"@.len() != "class"@.len());
                reveal_strlit("union");
                assert("templateParam"@.len() != "union"@.len());
                reveal_strlit("concept");
                assert("templateParam"@.len() != "concept"@.len());
                reveal_strlit("function");
                assert("templateParam"@.len() != "function"@.len());
                reveal_strlit("functionParam");
                assert("templateParam"@[0] != "functionParam"@[0]);
                reveal_strlit("member");
                assert("templateParam"@.len() != "member"@.len());
            },
            CppRole::Type => {
                reveal_strlit("type");
                reveal_strlit("enum");
                assert("type"@[0] != "enum"@[0]);
                reveal_strlit("enumerator");
                assert("type"@.len() != "enumerator"@.len());
                reveal_strlit("class");
                assert("type"@.len() != "class"@.len());
                reveal_strlit("union");
                assert("type"@.len() != "union"@.len());
                reveal_strlit("concept");
                assert("type"@.len() != "concept"@.len());
                reveal_strlit("function");
                assert("type"@.len() != "function"@.len());
                reveal_strlit("functionParam");
                assert("type"@.len() != "functionParam"@.len());
                reveal_strlit("member");
                assert("type"@.len() != "member"@.len());
                reveal_strlit("templateParam");
                assert("type"@.len() != "templateParam"@.len());
            },
        }
    }

    /// A role's name is not empty and holds no blank or line break.
    pub proof fn lemma_name_chars(self)
        ensures
            self.name().len() > 0,
            forall|i: int| 0 <= i < self.name().len() ==> in_class(#[trigger] self.name()[i], CharClass::NonSpace),
    {
        match self {
            CppRole::Enum => {
                reveal_strlit("enum");
                assert(forall|i: int| 0 <= i < "enum"@.len() ==> in_class(#[trigger] "enum"@[i], CharClass::NonSpace));
            },
            CppRole::Enumerator => {
                reveal_strlit("enumerator");
                assert(forall|i: int| 0 <= i < "enumerator"@.len() ==> in_class(#[trigger] "enumerator"@[i], CharClass::NonSpace));
            },
            CppRole::Class => {
                reveal_strlit("class");
                assert(forall|i: int| 0 <= i < "class"@.len() ==> in_class(#[trigger] "class"@[i], CharClass::NonSpace));
            },
            CppRole::Union => {
                reveal_strlit("union");
                assert(forall|i: int| 0 <= i < "union"@.len() ==> in_class(#[trigger] "union"@[i], CharClass::NonSpace));
            },
            CppRole::Concept => {
                reveal_strlit("concept");
                assert(forall|i: int| 0 <= i < "concept"@.len() ==> in_class(#[trigger] "concept"@[i], CharClass::NonSpace));
            },
            CppRole::Function => {
                reveal_strlit("function");
                assert(forall|i: int| 0 <= i < "function"@.len() ==> in_class(#[trigger] "function"@[i], CharClass::NonSpace));
            },
            CppRole::FunctionParam => {
                reveal_strlit("functionParam");
                assert(forall|i: int| 0 <= i < "functionParam"@.len() ==> in_class(#[trigger] "functionParam"@[i], CharClass::NonSpace));
            },
            CppRole::Member => {
                reveal_strlit("member");
                assert(forall|i: int| 0 <= i < "member"@.len() ==> in_class(#[trigger] "member"@[i], CharClass::NonSpace));
            },
            CppRole::TemplateParam => {
                reveal_strlit("templateParam");
                assert(forall|i: int| 0 <= i < "templateParam"@.len() ==> in_class(#[trigger] "templateParam"@[i], CharClass::NonSpace));
            },
            CppRole::Type => {
                reveal_strlit("type");
                assert(forall|i: int| 0 <= i < "type"@.len() ==> in_class(#[trigger] "type"@[i], CharClass::NonSpace));
            },
        }
    }

    /// A role that reads back from a text has that text as its name.
    pub proof fn lemma_name_named(s: Seq<char>)
        ensures
            Self::named(s) matches Some(role) ==> role.name() == s,
    {
    }

    /// Each role is spelled as Sphinx spells it, and that spelling reads back as the
    /// role: `enum` for `Enum`, `enumerator` for `Enumerator`, `class` for `Class`,
    /// `union` for `Union`, `concept` for `Concept`, `function` for `Function`,
    /// `functionParam` for `FunctionParam`, `member` for `Member`, `templateParam` for
    /// `TemplateParam`, `type` for `Type`.
    pub proof fn law_spellings()
        ensures
            CppRole::Enum.name() == "enum"@,
            CppRole::named("enum"@) == Some(CppRole::Enum),
            CppRole::Enumerator.name() == "enumerator"@,
            CppRole::named("enumerator"@) == Some(CppRole::Enumerator),
            CppRole::Class.name() == "class"@,
            CppRole::named("class"@) == Some(CppRole::Class),
            CppRole::Union.name() == "union"@,
            CppRole::named("union"@) == Some(CppRole::Union),
            CppRole::Concept.name() == "concept"@,
            CppRole::named("concept"@) == Some(CppRole::Concept),
            CppRole::Function.name() == "function"@,
            CppRole::named("function"@) == Some(CppRole::Function),
            CppRole::FunctionParam.name() == "functionParam"@,
            CppRole::named("functionParam"@) == Some(CppRole::FunctionParam),
            CppRole::Member.name() == "member"@,
            CppRole::named("member"@) == Some(CppRole::Member),
            CppRole::TemplateParam.name() == "templateParam"@,
            CppRole::named("templateParam"@) == Some(CppRole::TemplateParam),
            CppRole::Type.name() == "type"@,
            CppRole::named("type"@) == Some(CppRole::Type),
    {
        CppRole::Enum.lemma_named_name();
        CppRole::Enumerator.lemma_named_name();
        CppRole::Class.lemma_named_name();
        CppRole::Union.lemma_named_name();
        CppRole::Concept.lemma_named_name();
        CppRole::Function.lemma_named_name();
        CppRole::FunctionParam.lemma_named_name();
        CppRole::Member.lemma_named_name();
        CppRole::TemplateParam.lemma_named_name();
        CppRole::Type.lemma_named_name();
    }
}

} // verus!
