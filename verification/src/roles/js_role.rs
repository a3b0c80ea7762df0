//! Roles of the JavaScript domain (`js:` in inventories).

use vstd::prelude::*;

use crate::error::UnknownRole;
use crate::text::{chars_eq_str, chars_of, in_class, CharClass};

verus! {

/// A role of the JavaScript domain that inventories in the wild declare as `js:{role}`.
#[derive(Clone, Copy, Debug, PartialEq, Eq, Structural)]
pub enum JsRole {
    /// A JavaScript module.
    Module,
    /// A JavaScript function or method.
    Function,
    /// An alias of [`JsRole::Function`].
    Method,
    /// A JavaScript constructor.
    Class,
    /// A global variable or constant.
    Data,
}

impl JsRole {
    /// The role's name as inventories spell it.
    pub open spec fn name(self) -> Seq<char> {
        match self {
            JsRole::Module => "module"@,
            JsRole::Function => "function"@,
            JsRole::Method => "method"@,
            JsRole::Class => "class"@,
            JsRole::Data => "data"@,
        }
    }

    /// The role that inventories spell `s`, if there is one.
    pub open spec fn named(s: Seq<char>) -> Option<JsRole> {
        if s == "module"@ {
            Some(JsRole::Module)
        } else if s == "function"@ {
            Some(JsRole::Function)
        } else if s == "method"@ {
            Some(JsRole::Method)
        } else if s == "class"@ {
            Some(JsRole::Class)
        } else if s == "data"@ {
            Some(JsRole::Data)
        } else {
            None
        }
    }

    /// The role's name as inventories spell it.
    pub fn as_str(&self) -> (s: &'static str)
        ensures
            s@ == self.name(),
    {
        match self {
            JsRole::Module => "module",
            JsRole::Function => "function",
            JsRole::Method => "method",
            JsRole::Class => "class",
            JsRole::Data => "data",
        }
    }

    /// The role's name as a new string.
    pub fn to_string(&self) -> (s: String)
        ensures
            s@ == self.name(),
    {
        self.as_str().to_owned()
    }

    /// The role that `v[from..to]` spells, if there is one.
    pub fn from_chars(v: &Vec<char>, from: usize, to: usize) -> (r: Option<JsRole>)
        requires
            from <= to <= v@.len(),
        ensures
            r == Self::named(v@.subrange(from as int, to as int)),
    {
        if chars_eq_str(v, from, to, "module") {
            Some(JsRole::Module)
        } else if chars_eq_str(v, from, to, "function") {
            Some(JsRole::Function)
        } else if chars_eq_str(v, from, to, "method") {
            Some(JsRole::Method)
        } else if chars_eq_str(v, from, to, "class") {
            Some(JsRole::Class)
        } else if chars_eq_str(v, from, to, "data") {
            Some(JsRole::Data)
        } else {
            None
        }
    }

    /// Reads a role from its name; any other text is an unknown role.
    pub fn from_str(s: &str) -> (r: Result<JsRole, UnknownRole>)
        ensures
            r is Ok <==> Self::named(s@) is Some,
            r matches Ok(role) ==> Self::named(s@) == Some(role),
    {
        let v = chars_of(s);
        proof {
            assert(v@.subrange(0, v@.len() as int) =~= s@);
        }
        match Self::from_chars(&v, 0, v.len()) {
            Some(role) => Ok(role),
            None => Err(UnknownRole),
        }
    }

    /// Reading back the name of a role gives that role.
    pub proof fn lemma_named_name(self)
        ensures
            Self::named(self.name()) == Some(self),
    {
        match self {
            JsRole::Module => {
                reveal_strlit("module");
            },
            JsRole::Function => {
                reveal_strlit("function");
                reveal_strlit("module");
                assert("function"@.len() != "module"@.len());
            },
            JsRole::Method => {
                reveal_strlit("method");
                reveal_strlit("module");
                assert("method"@[1] != "module"@[1]);
                reveal_strlit("function");
                assert("method"@.len() != "function"@.len());
            },
            JsRole::Class => {
                reveal_strlit("class");
                reveal_strlit("module");
                assert("class"@.len() != "module"@.len());
                reveal_strlit("function");
                assert("class"@.len() != "function"@.len());
                reveal_strlit("method");
                assert("class"@.len() != "method"@.len());
            },
            JsRole::Data => {
                reveal_strlit("data");
                reveal_strlit("module");
                assert("data"@.len() != "module"@.len());
                reveal_strlit("function");
                assert("data"@.len() != "function"@.len());
                reveal_strlit("method");
                assert("data"@.len() != "method"@.len());
                reveal_strlit("class");
                assert("data"@.len() != "class"@.len());
            },
        }
    }

    /// A role's name is not empty and holds no blank or line break.
    pub proof fn lemma_name_chars(self)
        ensures
            self.name().len() > 0,
            forall|i: int| 0 <= i < self.name().len() ==> in_class(#[trigger] self.name()[i], CharClass::NonSpace),
    {
        match self {
            JsRole::Module => {
                reveal_strlit("module");
                assert(forall|i: int| 0 <= i < "module"@.len() ==> in_class(#[trigger] "module"@[i], CharClass::NonSpace));
            },
            JsRole::Function => {
                reveal_strlit("function");
                assert(forall|i: int| 0 <= i < "function"@.len() ==> in_class(#[trigger] "function"@[i], CharClass::NonSpace));
            },
            JsRole::Method => {
                reveal_strlit("method");
                assert(forall|i: int| 0 <= i < "method"@.len() ==> in_class(#[trigger] "method"@[i], CharClass::NonSpace));
            },
            JsRole::Class => {
                reveal_strlit("class");
                assert(forall|i: int| 0 <= i < "class"@.len() ==> in_class(#[trigger] "class"@[i], CharClass::NonSpace));
            },
            JsRole::Data => {
                reveal_strlit("data");
                assert(forall|i: int| 0 <= i < "data"@.len() ==> in_class(#[trigger] "data"@[i], CharClass::NonSpace));
            },
        }
    }

    /// A role that reads back from a text has that text as its name.
    pub proof fn lemma_name_named(s: Seq<char>)
        ensures
            Self::named(s) matches Some(role) ==> role.name() == s,
    {
    }

    /// Each role is spelled as Sphinx spells it, and that spelling reads back as the
    /// role: `module` for `Module`, `function` for `Function`, `method` for `Method`,
    /// `class` for `Class`, `data` for `Data`.
    pub proof fn law_spellings()
        ensures
            JsRole::Module.name() == "module"@,
            JsRole::named("module"@) == Some(JsRole::Module),
            JsRole::Function.name() == "function"@,
            JsRole::named("function"@) == Some(JsRole::Function),
            JsRole::Method.name() == "method"@,
            JsRole::named("method"@) == Some(JsRole::Method),
            JsRole::Class.name() == "class"@,
            JsRole::named("class"@) == Some(JsRole::Class),
            JsRole::Data.name() == "data"@,
            JsRole::named("data"@) == Some(JsRole::Data),
    {
        JsRole::Module.lemma_named_name();
        JsRole::Function.lemma_named_name();
        JsRole::Method.lemma_named_name();
        JsRole::Class.lemma_named_name();
        JsRole::Data.lemma_named_name();
    }
}

} // verus!
