//! Roles of the SIP domain (`sip:` in inventories).

use vstd::prelude::*;

use crate::error::UnknownRole;
use crate::text::{chars_eq_str, chars_of, in_class, CharClass};

verus! {

/// A role of the SIP domain that inventories in the wild declare as `sip:{role}`.
#[derive(Clone, Copy, Debug, PartialEq, Eq, Structural)]
pub enum SipRole {
    /// A method.
    Method,
    /// A member.
    Member,
    /// A class.
    Class,
    /// An attribute.
    Attribute,
    /// An enumeration.
    Enum,
    /// A module.
    Module,
    /// A Qt signal.
    Signal,
}

impl SipRole {
    /// The role's name as inventories spell it.
    pub open spec fn name(self) -> Seq<char> {
        match self {
            SipRole::Method => "method"@,
            SipRole::Member => "member"@,
            SipRole::Class => "class"@,
            SipRole::Attribute => "attribute"@,
            SipRole::Enum => "enum"@,
            SipRole::Module => "module"@,
            SipRole::Signal => "signal"@,
        }
    }

    /// The role that inventories spell `s`, if there is one.
    pub open spec fn named(s: Seq<char>) -> Option<SipRole> {
        if s == "method"@ {
            Some(SipRole::Method)
        } else if s == "member"@ {
            Some(SipRole::Member)
        } else if s == "class"@ {
            Some(SipRole::Class)
        } else if s == "attribute"@ {
            Some(SipRole::Attribute)
        } else if s == "enum"@ {
            Some(SipRole::Enum)
        } else if s == "module"@ {
            Some(SipRole::Module)
        } else if s == "signal"@ {
            Some(SipRole::Signal)
        } else {
            None
        }
    }

    /// The role's name as inventories spell it.
    pub fn as_str(&self) -> (s: &'static str)
        ensures
            s@ == self.name(),
    {
        match self {
            SipRole::Method => "method",
            SipRole::Member => "member",
            SipRole::Class => "class",
            SipRole::Attribute => "attribute",
            SipRole::Enum => "enum",
            SipRole::Module => "module",
            SipRole::Signal => "signal",
        }
    }

    /// The role's name as a new string.
    pub fn to_string(&self) -> (s: String)
        ensures
            s@ == self.name(),
    {
        self.as_str().to_owned()
    }

    /// The role that `v[from..to]` spells, if there is one.
    pub fn from_chars(v: &Vec<char>, from: usize, to: usize) -> (r: Option<SipRole>)
        requires
            from <= to <= v@.len(),
        ensures
            r == Self::named(v@.subrange(from as int, to as int)),
    {
        if chars_eq_str(v, from, to, "method") {
            Some(SipRole::Method)
        } else if chars_eq_str(v, from, to, "member") {
            Some(SipRole::Member)
        } else if chars_eq_str(v, from, to, "class") {
            Some(SipRole::Class)
        } else if chars_eq_str(v, from, to, "attribute") {
            Some(SipRole::Attribute)
        } else if chars_eq_str(v, from, to, "enum") {
            Some(SipRole::Enum)
        } else if chars_eq_str(v, from, to, "module") {
            Some(SipRole::Module)
        } else if chars_eq_str(v, from, to, "signal") {
            Some(SipRole::Signal)
        } else {
            None
        }
    }

    /// Reads a role from its name; any other text is an unknown role.
    pub fn from_str(s: &str) -> (r: Result<SipRole, UnknownRole>)
        ensures
            r is Ok <==> Self::named(s@) is Some,
            r matches Ok(role) ==> Self::named(s@) == Some(role),
    {
        let v = chars_of(s);
        proof {
            assert(v@.subrange(0, v@.len() as int) =~= s@);
        }
        match Self::from_chars(&v, 0, v.len()) {
            Some(role) => Ok(role),
            None => Err(UnknownRole),
        }
    }

    /// Reading back the name of a role gives that role.
    pub proof fn lemma_named_name(self)
        ensures
            Self::named(self.name()) == Some(self),
    {
        match self {
            SipRole::Method => {
                reveal_strlit("method");
            },
            SipRole::Member => {
                reveal_strlit("member");
                reveal_strlit("method");
                assert("member"@[2] != "method"@[2]);
            },
            SipRole::Class => {
                reveal_strlit("class");
                reveal_strlit("method");
                assert("class"@.len() != "method"@.len());
                reveal_strlit("member");
                assert("class"@.len() != "member"@.len());
            },
            SipRole::Attribute => {
                reveal_strlit("attribute");
                reveal_strlit("method");
                assert("attribute"@.len() != "method"@.len());
                reveal_strlit("member");
                assert("attribute"@.len() != "member"@.len());
                reveal_strlit("class");
                assert("attribute"@.len() != "class"@.len());
            },
            SipRole::Enum => {
                reveal_strlit("enum");
                reveal_strlit("method");
                assert("enum"@.len() != "method"@.len());
                reveal_strlit("member");
                assert("enum"@.len() != "member"@.len());
                reveal_strlit("class");
                assert("enum"@.len() != "class"@.len());
                reveal_strlit("attribute");
                assert("enum"@.len() != "attribute"@.len());
            },
            SipRole::Module => {
                reveal_strlit("module");
                reveal_strlit("method");
                assert("module"@[1] != "method"@[1]);
                reveal_strlit("member");
                assert("module"@[1] != "member"@[1]);
                reveal_strlit("class");
                assert("module"@.len() != "class"@.len());
                reveal_strlit("attribute");
                assert("module"@.len() != "attribute"@.len());
                reveal_strlit("enum");
                assert("module"@.len() != "enum"@.len());
            },
            SipRole::Signal => {
                reveal_strlit("signal");
                reveal_strlit("method");
                assert("signal"@[0] != "method"@[0]);
                reveal_strlit("member");
                assert("signal"@[0] != "member"@[0]);
                reveal_strlit("class");
                assert("signal"@.len() != "class"@.len());
                reveal_strlit("attribute");
                assert("signal"@.len() != "attribute"@.len());
                reveal_strlit("enum");
                assert("signal"@.len() != "enum"@.len());
                reveal_strlit("module");
                assert("signal"@[0] != "module"@[0]);
            },
        }
    }

    /// A role's name is not empty and holds no blank or line break.
    pub proof fn lemma_name_chars(self)
        ensures
            self.name().len() > 0,
            forall|i: int| 0 <= i < self.name().len() ==> in_class(#[trigger] self.name()[i], CharClass::NonSpace),
    {
        match self {
            SipRole::Method => {
                reveal_strlit("method");
                assert(forall|i: int| 0 <= i < "method"@.len() ==> in_class(#[trigger] "method"@[i], CharClass::NonSpace));
            },
            SipRole::Member => {
                reveal_strlit("member");
                assert(forall|i: int| 0 <= i < "member"@.len() ==> in_class(#[trigger] "member"@[i], CharClass::NonSpace));
            },
            SipRole::Class => {
                reveal_strlit("class");
                assert(forall|i: int| 0 <= i < "class"@.len() ==> in_class(#[trigger] "class"@[i], CharClass::NonSpace));
            },
            SipRole::Attribute => {
                reveal_strlit("attribute");
                assert(forall|i: int| 0 <= i < "attribute"@.len() ==> in_class(#[trigger] "attribute"@[i], CharClass::NonSpace));
            },
            SipRole::Enum => {
                reveal_strlit("enum");
                assert(forall|i: int| 0 <= i < "enum"@.len() ==> in_class(#[trigger] "enum"@[i], CharClass::NonSpace));
            },
            SipRole::Module => {
                reveal_strlit("module");
                assert(forall|i: int| 0 <= i < "module"@.len() ==> in_class(#[trigger] "module"@[i], CharClass::NonSpace));
            },
            SipRole::Signal => {
                reveal_strlit("signal");
                assert(forall|i: int| 0 <= i < "signal"@.len() ==> in_class(#[trigger] "signal"@[i], CharClass::NonSpace));
            },
        }
    }

    /// A role that reads back from a text has that text as its name.
    pub proof fn lemma_name_named(s: Seq<char>)
        ensures
            Self::named(s) matches Some(role) ==> role.name() == s,
    {
    }

    /// Each role is spelled as Sphinx spells it, and that spelling reads back as the
    /// role: `method` for `Method`, `member` for `Member`, `class` for `Class`,
    /// `attribute` for `Attribute`, `enum` for `Enum`, `module` for `Module`, `signal`
    /// for `Signal`.
    pub proof fn law_spellings()
        ensures
            SipRole::Method.name() == "method"@,
            SipRole::named("method"@) == Some(SipRole::Method),
            SipRole::Member.name() == "member"@,
            SipRole::named("member"@) == Some(SipRole::Member),
            SipRole::Class.name() == "class"@,
            SipRole::named("class"@) == Some(SipRole::Class),
            SipRole::Attribute.name() == "attribute"@,
            SipRole::named("attribute"@) == Some(SipRole::Attribute),
            SipRole::Enum.name() == "enum"@,
            SipRole::named("enum"@) == Some(SipRole::Enum),
            SipRole::Module.name() == "module"@,
            SipRole::named("module"@) == Some(SipRole::Module),
            SipRole::Signal.name() == "signal"@,
            SipRole::named("signal"@) == Some(SipRole::Signal),
    {
        SipRole::Method.lemma_named_name();
        SipRole::Member.lemma_named_name();
        SipRole::Class.lemma_named_name();
        SipRole::Attribute.lemma_named_name();
        SipRole::Enum.lemma_named_name();
        SipRole::Module.lemma_named_name();
        SipRole::Signal.lemma_named_name();
    }
}

} // verus!
