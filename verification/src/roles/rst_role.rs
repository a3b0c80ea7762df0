//! Roles of the reStructuredText domain (`rst:` in inventories).

use vstd::prelude::*;

use crate::error::UnknownRole;
use crate::text::{chars_eq_str, chars_of, in_class, CharClass};

verus! {

/// A role of the reStructuredText domain that inventories in the wild declare as `rst:{role}`.
#[derive(Clone, Copy, Debug, PartialEq, Eq, Structural)]
pub enum RstRole {
    /// A reStructuredText directive.
    Directive,
    /// An option of a reStructuredText directive.
    Option,
}

impl RstRole {
    /// The role's name as inventories spell it.
    pub open spec fn name(self) -> Seq<char> {
        match self {
            RstRole::Directive => "directive"@,
            RstRole::Option => "directive:option"@,
        }
    }

    /// The role that inventories spell `s`, if there is one.
    pub open spec fn named(s: Seq<char>) -> Option<RstRole> {
        if s == "directive"@ {
            Some(RstRole::Directive)
        } else if s == "directive:option"@ {
            Some(RstRole::Option)
        } else {
            None
        }
    }

    /// The role's name as inventories spell it.
    pub fn as_str(&self) -> (s: &'static str)
        ensures
            s@ == self.name(),
    {
        match self {
            RstRole::Directive => "directive",
            RstRole::Option => "directive:option",
        }
    }

    /// The role's name as a new string.
    pub fn to_string(&self) -> (s: String)
        ensures
            s@ == self.name(),
    {
        self.as_str().to_owned()
    }

    /// The role that `v[from..to]` spells, if there is one.
    pub fn from_chars(v: &Vec<char>, from: usize, to: usize) -> (r: Option<RstRole>)
        requires
            from <= to <= v@.len(),
        ensures
            r == Self::named(v@.subrange(from as int, to as int)),
    {
        if chars_eq_str(v, from, to, "directive") {
            Some(RstRole::Directive)
        } else if chars_eq_str(v, from, to, "directive:option") {
            Some(RstRole::Option)
        } else {
            None
        }
    }

    /// Reads a role from its name; any other text is an unknown role.
    pub fn from_str(s: &str) -> (r: Result<RstRole, UnknownRole>)
        ensures
            r is Ok <==> Self::named(s@) is Some,
            r matches Ok(role) ==> Self::named(s@) == Some(role),
    {
        let v = chars_of(s);
        proof {
            assert(v@.subrange(0, v@.len() as int) =~= s@);
        }
        match Self::from_chars(&v, 0, v.len()) {
            Some(role) => Ok(role),
            None => Err(UnknownRole),
        }
    }

    /// Reading back the name of a role gives that role.
    pub proof fn lemma_named_name(self)
        ensures
            Self::named(self.name()) == Some(self),
    {
        match self {
            RstRole::Directive => {
                reveal_strlit("directive");
            },
            RstRole::Option => {
                reveal_strlit("directive:option");
                reveal_strlit("directive");
                assert("directive:option"@.len() != "directive"@.len());
            },
        }
    }

    /// A role's name is not empty and holds no blank or line break.
    pub proof fn lemma_name_chars(self)
        ensures
            self.name().len() > 0,
            forall|i: int| 0 <= i < self.name().len() ==> in_class(#[trigger] self.name()[i], CharClass::NonSpace),
    {
        match self {
            RstRole::Directive => {
                reveal_strlit("directive");
                assert(forall|i: int| 0 <= i < "directive"@.len() ==> in_class(#[trigger] "directive"@[i], CharClass::NonSpace));
            },
            RstRole::Option => {
                reveal_strlit("directive:option");
                assert(forall|i: int| 0 <= i < "directive:option"@.len() ==> in_class(#[trigger] "directive:option"@[i], CharClass::NonSpace));
            },
        }
    }

    /// A role that reads back from a text has that text as its name.
    pub proof fn lemma_name_named(s: Seq<char>)
        ensures
            Self::named(s) matches Some(role) ==> role.name() == s,
    {
    }

    /// Each role is spelled as Sphinx spells it, and that spelling reads back as the
    /// role: `directive` for `Directive`, `directive:option` for `Option`.
    pub proof fn law_spellings()
        ensures
            RstRole::Directive.name() == "directive"@,
            RstRole::named("directive"@) == Some(RstRole::Directive),
            RstRole::Option.name() == "directive:option"@,
            RstRole::named("directive:option"@) == Some(RstRole::Option),
    {
        RstRole::Directive.lemma_named_name();
        RstRole::Option.lemma_named_name();
    }
}

} // verus!
