//! Roles of the C domain (`c:` in inventories).

use vstd::prelude::*;

use crate::error::UnknownRole;
use crate::text::{chars_eq_str, chars_of, in_class, CharClass};

verus! {

/// A role of the C domain that inventories in the wild declare as `c:{role}`.
#[derive(Clone, Copy, Debug, PartialEq, Eq, Structural)]
pub enum CRole {
    /// A C enumerator.
    Enumerator,
    /// A C enum.
    Enum,
    /// A C function.
    Function,
    /// A parameter of a C function.
    FunctionParam,
    /// A C variable (an alias of [`CRole::Var`]).
    Member,
    /// A C macro.
    Macro,
    /// A C variable.
    Var,
    /// A C type from a `typedef` or an alias.
    Type,
    /// A C struct.
    Struct,
    /// A C union.
    Union,
}

impl CRole {
    /// The role's name as inventories spell it.
    pub open spec fn name(self) -> Seq<char> {
        match self {
            CRole::Enumerator => "enumerator"@,
            CRole::Enum => "enum"@,
            CRole::Function => "function"@,
            CRole::FunctionParam => "functionParam"@,
            CRole::Member => "member"@,
            CRole::Macro => "macro"@,
            CRole::Var => "var"@,
            CRole::Type => "type"@,
            CRole::Struct => "struct"@,
            CRole::Union => "union"@,
        }
    }

    /// The role that inventories spell `s`, if there is one.
    pub open spec fn named(s: Seq<char>) -> Option<CRole> {
        if s == "enumerator"@ {
            Some(CRole::Enumerator)
        } else if s == "enum"@ {
            Some(CRole::Enum)
        } else if s == "function"@ {
            Some(CRole::Function)
        } else if s == "functionParam"@ {
            Some(CRole::FunctionParam)
        } else if s == "member"@ {
            Some(CRole::Member)
        } else if s == "macro"@ {
            Some(CRole::Macro)
        } else if s == "var"@ {
            Some(CRole::Var)
        } else if s == "type"@ {
            Some(CRole::Type)
        } else if s == "struct"@ {
            Some(CRole::Struct)
        } else if s == "union"@ {
            Some(CRole::Union)
        } else {
            None
        }
    }

    /// The role's name as inventories spell it.
    pub fn as_str(&self) -> (s: &'static str)
        ensures
            s@ == self.name(),
    {
        match self {
            CRole::Enumerator => "enumerator",
            CRole::Enum => "enum",
            CRole::Function => "function",
            CRole::FunctionParam => "functionParam",
            CRole::Member => "member",
            CRole::Macro => "macro",
            CRole::Var => "var",
            CRole::Type => "type",
            CRole::Struct => "struct",
            CRole::Union => "union",
        }
    }

    /// The role's name as a new string.
    pub fn to_string(&self) -> (s: String)
        ensures
            s@ == self.name(),
    {
        self.as_str().to_owned()
    }

    /// The role that `v[from..to]` spells, if there is one.
    pub fn from_chars(v: &Vec<char>, from: usize, to: usize) -> (r: Option<CRole>)
        requires
            from <= to <= v@.len(),
        ensures
            r == Self::named(v@.subrange(from as int, to as int)),
    {
        if chars_eq_str(v, from, to, "enumerator") {
            Some(CRole::Enumerator)
        } else if chars_eq_str(v, from, to, "enum") {
            Some(CRole::Enum)
        } else if chars_eq_str(v, from, to, "function") {
            Some(CRole::Function)
        } else if chars_eq_str(v, from, to, "functionParam") {
            Some(CRole::FunctionParam)
        } else if chars_eq_str(v, from, to, "member") {
            Some(CRole::Member)
        } else if chars_eq_str(v, from, to, "macro") {
            Some(CRole::Macro)
        } else if chars_eq_str(v, from, to, "var") {
            Some(CRole::Var)
        } else if chars_eq_str(v, from, to, "type") {
            Some(CRole::Type)
        } else if chars_eq_str(v, from, to, "struct") {
            Some(CRole::Struct)
        } else if chars_eq_str(v, from, to, "union") {
            Some(CRole::Union)
        } else {
            None
        }
    }

    /// Reads a role from its name; any other text is an unknown role.
    pub fn from_str(s: &str) -> (r: Result<CRole, UnknownRole>)
        ensures
            r is Ok <==> Self::named(s@) is Some,
            r matches Ok(role) ==> Self::named(s@) == Some(role),
    {
        let v = chars_of(s);
        proof {
            assert(v@.subrange(0, v@.len() as int) =~= s@);
        }
        match Self::from_chars(&v, 0, v.len()) {
            Some(role) => Ok(role),
            None => Err(UnknownRole),
        }
    }

    /// Reading back the name of a role gives that role.
    pub proof fn lemma_named_name(self)
        ensures
            Self::named(self.name()) == Some(self),
    {
        match self {
            CRole::Enumerator => {
                reveal_strlit("enumerator");
            },
            CRole::Enum => {
                reveal_strlit("enum");
                reveal_strlit("enumerator");
                assert("enum"@.len() != "enumerator"@.len());
            },
            CRole::Function => {
                reveal_strlit("function");
                reveal_strlit("enumerator");
                assert("function"@.len() != "enumerator"@.len());
                reveal_strlit("enum");
                assert("function"@.len() != "enum"@.len());
            },
            CRole::FunctionParam => {
                reveal_strlit("functionParam");
                reveal_strlit("enumerator");
                assert("functionParam"@.len() != "enumerator"@.len());
                reveal_strlit("enum");
                assert("functionParam"@.len() != "enum"@.len());
                reveal_strlit("function");
                assert("functionParam"@.len() != "function"@.len());
            },
            CRole::Member => {
                reveal_strlit("member");
                reveal_strlit("enumerator");
                assert("member"@.len() != "enumerator"@.len());
                reveal_strlit("enum");
                assert("member"@.len() != "enum"@.len());
                reveal_strlit("function");
                assert("member"@.len() != "function"@.len());
                reveal_strlit("functionParam");
                assert("member"@.len() != "functionParam"@.len());
            },
            CRole::Macro => {
                reveal_strlit("macro");
                reveal_strlit("enumerator");
                assert("macro"@.len() != "enumerator"@.len());
                reveal_strlit("enum");
                assert("macro"@.len() != "enum"@.len());
                reveal_strlit("function");
                assert("macro"@.len() != "function"@.len());
                reveal_strlit("functionParam");
                assert("macro"@.len() != "functionParam"@.len());
                reveal_strlit("member");
                assert("macro"@.len() != "member"@.len());
            },
            CRole::Var => {
                reveal_strlit("var");
                reveal_strlit("enumerator");
                assert("var"@.len() != "enumerator"@.len());
                reveal_strlit("enum");
                assert("var"@.len() != "enum"@.len());
                reveal_strlit("function");
                assert("var"@.len() != "function"@.len());
                reveal_strlit("functionParam");
                assert("var"@.len() != "functionParam"@.len());
                reveal_strlit("member");
                assert("var"@.len() != "member"@.len());
                reveal_strlit("macro");
                assert("var"@.len() != "macro"@.len());
            },
            CRole::Type => {
                reveal_strlit("type");
                reveal_strlit("enumerator");
                assert("type"@.len() != "enumerator"@.len());
                reveal_strlit("enum");
                assert("type"@[0] != "enum"@[0]);
                reveal_strlit("function");
                assert("type"@.len() != "function"@.len());
                reveal_strlit("functionParam");
                assert("type"@.len() != "functionParam"@.len());
                reveal_strlit("member");
                assert("type"@.len() != "member"@.len());
                reveal_strlit("macro");
                assert("type"@.len() != "macro"@.len());
                reveal_strlit("var");
                assert("type"@.len() != "var"@.len());
            },
            CRole::Struct => {
                reveal_strlit("struct");
                reveal_strlit("enumerator");
                assert("struct"@.len() != "enumerator"@.len());
                reveal_strlit("enum");
                assert("struct"@.len() != "enum"@.len());
                reveal_strlit("function");
                assert("struct"@.len() != "function"@.len());
                reveal_strlit("functionParam");
                assert("struct"@.len() != "functionParam"@.len());
                reveal_strlit("member");
                assert("struct"@[0] != "member"@[0]);
                reveal_strlit("macro");
                assert("struct"@.len() != "macro"@.len());
                reveal_strlit("var");
                assert("struct"@.len() != "var"@.len());
                reveal_strlit("type");
                assert("struct"@.len() != "type"@.len());
            },
            CRole::Union => {
                reveal_strlit("union");
                reveal_strlit("enumerator");
                assert("union"@.len() != "enumerator"@.len());
                reveal_strlit("enum");
                assert("union"@.len() != "enum"@.len());
                reveal_strlit("function");
                assert("union"@.len() != "function"@.len());
                reveal_strlit("functionParam");
                assert("union"@.len() != "functionParam"@.len());
                reveal_strlit("member");
                assert("union"@.len() != "member"@.len());
                reveal_strlit("macro");
                assert("union"@[0] != "macro"@[0]);
                reveal_strlit("var");
                assert("union"@.len() != "var"@.len());
                reveal_strlit("type");
                assert("union"@.len() != "type"@.len());
                reveal_strlit("struct");
                assert("union"@.len() != "struct"@.len());
            },
        }
    }

    /// A role's name is not empty and holds no blank or line break.
    pub proof fn lemma_name_chars(self)
        ensures
            self.name().len() > 0,
            forall|i: int| 0 <= i < self.name().len() ==> in_class(#[trigger] self.name()[i], CharClass::NonSpace),
    {
        match self {
            CRole::Enumerator => {
                reveal_strlit("enumerator");
                assert(forall|i: int| 0 <= i < "enumerator"@.len() ==> in_class(#[trigger] "enumerator"@[i], CharClass::NonSpace));
            },
            CRole::Enum => {
                reveal_strlit("enum");
                assert(forall|i: int| 0 <= i < "enum"@.len() ==> in_class(#[trigger] "enum"@[i], CharClass::NonSpace));
            },
            CRole::Function => {
                reveal_strlit("function");
                assert(forall|i: int| 0 <= i < "function"@.len() ==> in_class(#[trigger] "function"@[i], CharClass::NonSpace));
            },
            CRole::FunctionParam => {
                reveal_strlit("functionParam");
                assert(forall|i: int| 0 <= i < "functionParam"@.len() ==> in_class(#[trigger] "functionParam"@[i], CharClass::NonSpace));
            },
            CRole::Member => {
                reveal_strlit("member");
                assert(forall|i: int| 0 <= i < "member"@.len() ==> in_class(#[trigger] "member"@[i], CharClass::NonSpace));
            },
            CRole::Macro => {
                reveal_strlit("macro");
                assert(forall|i: int| 0 <= i < "macro"@.len() ==> in_class(#[trigger] "macro"@[i], CharClass::NonSpace));
            },
            CRole::Var => {
                reveal_strlit("var");
                assert(forall|i: int| 0 <= i < "var"@.len() ==> in_class(#[trigger] "var"@[i], CharClass::NonSpace));
            },
            CRole::Type => {
                reveal_strlit("type");
                assert(forall|i: int| 0 <= i < "type"@.len() ==> in_class(#[trigger] "type"@[i], CharClass::NonSpace));
            },
            CRole::Struct => {
                reveal_strlit("struct");
                assert(forall|i: int| 0 <= i < "struct"@.len() ==> in_class(#[trigger] "struct"@[i], CharClass::NonSpace));
            },
            CRole::Union => {
                reveal_strlit("union");
                assert(forall|i: int| 0 <= i < "union"@.len() ==> in_class(#[trigger] "union"@[i], CharClass::NonSpace));
            },
        }
    }

    /// A role that reads back from a text has that text as its name.
    pub proof fn lemma_name_named(s: Seq<char>)
        ensures
            Self::named(s) matches Some(role) ==> role.name() == s,
    {
    }

    /// Each role is spelled as Sphinx spells it, and that spelling reads back as the
    /// role: `enumerator` for `Enumerator`, `enum` for `Enum`, `function` for
    /// `Function`, `functionParam` for `FunctionParam`, `member` for `Member`, `macro`
    /// for `Macro`, `var` for `Var`, `type` for `Type`, `struct` for `Struct`, `union`
    /// for `Union`.
    pub proof fn law_spellings()
        ensures
            CRole::Enumerator.name() == "enumerator"@,
            CRole::named("enumerator"@) == Some(CRole::Enumerator),
            CRole::Enum.name() == "enum"@,
            CRole::named("enum"@) == Some(CRole::Enum),
            CRole::Function.name() == "function"@,
            CRole::named("function"@) == Some(CRole::Function),
            CRole::FunctionParam.name() == "functionParam"@,
            CRole::named("functionParam"@) == Some(CRole::FunctionParam),
            CRole::Member.name() == "member"@,
            CRole::named("member"@) == Some(CRole::Member),
            CRole::Macro.name() == "macro"@,
            CRole::named("macro"@) == Some(CRole::Macro),
            CRole::Var.name() == "var"@,
            CRole::named("var"@) == Some(CRole::Var),
            CRole::Type.name() == "type"@,
            CRole::named("type"@) == Some(CRole::Type),
            CRole::Struct.name() == "struct"@,
            CRole::named("struct"@) == Some(CRole::Struct),
            CRole::Union.name() == "union"@,
            CRole::named("union"@) == Some(CRole::Union),
    {
        CRole::Enumerator.lemma_named_name();
        CRole::Enum.lemma_named_name();
        CRole::Function.lemma_named_name();
        CRole::FunctionParam.lemma_named_name();
        CRole::Member.lemma_named_name();
        CRole::Macro.lemma_named_name();
        CRole::Var.lemma_named_name();
        CRole::Type.lemma_named_name();
        CRole::Struct.lemma_named_name();
        CRole::Union.lemma_named_name();
    }
}

} // verus!
