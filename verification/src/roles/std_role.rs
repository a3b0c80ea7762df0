//! Roles of the standard domain (`std:` in inventories).

use vstd::prelude::*;

use crate::error::UnknownRole;
use crate::text::{chars_eq_str, chars_of, in_class, CharClass};

verus! {

/// A role of the standard domain that inventories in the wild declare as `std:{role}`.
#[derive(Clone, Copy, Debug, PartialEq, Eq, Structural)]
pub enum StdRole {
    /// A document.
    Doc,
    /// A label, usually of an equation or figure.
    Label,
    /// A glossary term.
    Term,
    /// A command line option; written as `cmdoption`.
    Option,
    /// A command line option (the deprecated spelling).
    Cmdoption,
    /// A command of a pdb session.
    Pdbcommand,
    /// A grammar token.
    Token,
    /// A Python byte code operation.
    Opcode,
    /// A monitoring event.
    MonitoringEvent,
    /// An environment variable.
    Envvar,
}

impl StdRole {
    /// The role's name as inventories spell it.
    pub open spec fn name(self) -> Seq<char> {
        match self {
            StdRole::Doc => "doc"@,
            StdRole::Label => "label"@,
            StdRole::Term => "term"@,
            StdRole::Option => "cmdoption"@,
            StdRole::Cmdoption => "cmdoption"@,
            StdRole::Pdbcommand => "pdbcommand"@,
            StdRole::Token => "token"@,
            StdRole::Opcode => "opcode"@,
            StdRole::MonitoringEvent => "monitoring-event"@,
            StdRole::Envvar => "envvar"@,
        }
    }

    /// The role that inventories spell `s`, if there is one.
    pub open spec fn named(s: Seq<char>) -> Option<StdRole> {
        if s == "doc"@ {
            Some(StdRole::Doc)
        } else if s == "label"@ {
            Some(StdRole::Label)
        } else if s == "term"@ {
            Some(StdRole::Term)
        } else if s == "cmdoption"@ {
            Some(StdRole::Cmdoption)
        } else if s == "pdbcommand"@ {
            Some(StdRole::Pdbcommand)
        } else if s == "token"@ {
            Some(StdRole::Token)
        } else if s == "opcode"@ {
            Some(StdRole::Opcode)
        } else if s == "monitoring-event"@ {
            Some(StdRole::MonitoringEvent)
        } else if s == "envvar"@ {
            Some(StdRole::Envvar)
        } else {
            None
        }
    }

    /// The role's name as inventories spell it.
    pub fn as_str(&self) -> (s: &'static str)
        ensures
            s@ == self.name(),
    {
        match self {
            StdRole::Doc => "doc",
            StdRole::Label => "label",
            StdRole::Term => "term",
            StdRole::Option => "cmdoption",
            StdRole::Cmdoption => "cmdoption",
            StdRole::Pdbcommand => "pdbcommand",
            StdRole::Token => "token",
            StdRole::Opcode => "opcode",
            StdRole::MonitoringEvent => "monitoring-event",
            StdRole::Envvar => "envvar",
        }
    }

    /// The role's name as a new string.
    pub fn to_string(&self) -> (s: String)
        ensures
            s@ == self.name(),
    {
        self.as_str().to_owned()
    }

    /// The role that `v[from..to]` spells, if there is one.
    pub fn from_chars(v: &Vec<char>, from: usize, to: usize) -> (r: Option<StdRole>)
        requires
            from <= to <= v@.len(),
        ensures
            r == Self::named(v@.subrange(from as int, to as int)),
    {
        if chars_eq_str(v, from, to, "doc") {
            Some(StdRole::Doc)
        } else if chars_eq_str(v, from, to, "label") {
            Some(StdRole::Label)
        } else if chars_eq_str(v, from, to, "term") {
            Some(StdRole::Term)
        } else if chars_eq_str(v, from, to, "cmdoption") {
            Some(StdRole::Cmdoption)
        } else if chars_eq_str(v, from, to, "pdbcommand") {
            Some(StdRole::Pdbcommand)
        } else if chars_eq_str(v, from, to, "token") {
            Some(StdRole::Token)
        } else if chars_eq_str(v, from, to, "opcode") {
            Some(StdRole::Opcode)
        } else if chars_eq_str(v, from, to, "monitoring-event") {
            Some(StdRole::MonitoringEvent)
        } else if chars_eq_str(v, from, to, "envvar") {
            Some(StdRole::Envvar)
        } else {
            None
        }
    }

    /// Reads a role from its name; any other text is an unknown role.
    pub fn from_str(s: &str) -> (r: Result<StdRole, UnknownRole>)
        ensures
            r is Ok <==> Self::named(s@) is Some,
            r matches Ok(role) ==> Self::named(s@) == Some(role),
    {
        let v = chars_of(s);
        proof {
            assert(v@.subrange(0, v@.len() as int) =~= s@);
        }
        match Self::from_chars(&v, 0, v.len()) {
            Some(role) => Ok(role),
            None => Err(UnknownRole),
        }
    }

    /// Reading back the name of a role gives that role, except for `Option`,
    /// which is written with the spelling of `Cmdoption`.
    pub proof fn lemma_named_name(self)
        ensures
            self != StdRole::Option ==> Self::named(self.name()) == Some(self),
            self == StdRole::Option ==> Self::named(self.name()) == Some(StdRole::Cmdoption),
    {
        match self {
            StdRole::Doc => {
                reveal_strlit("doc");
            },
            StdRole::Label => {
                reveal_strlit("label");
                reveal_strlit("doc");
                assert("label"@.len() != "doc"@.len());
            },
            StdRole::Term => {
                reveal_strlit("term");
                reveal_strlit("doc");
                assert("term"@.len() != "doc"@.len());
                reveal_strlit("label");
                assert("term"@.len() != "label"@.len());
            },
            StdRole::Option => {
                reveal_strlit("cmdoption");
                reveal_strlit("doc");
                assert("cmdoption"@.len() != "doc"@.len());
                reveal_strlit("label");
                assert("cmdoption"@.len() != "label"@.len());
                reveal_strlit("term");
                assert("cmdoption"@.len() != "term"@.len());
            },
            StdRole::Cmdoption => {
                reveal_strlit("cmdoption");
                reveal_strlit("doc");
                assert("cmdoption"@.len() != "doc"@.len());
                reveal_strlit("label");
                assert("cmdoption"@.len() != "label"@.len());
                reveal_strlit("term");
                assert("cmdoption"@.len() != "term"@.len());
            },
            StdRole::Pdbcommand => {
                reveal_strlit("pdbcommand");
                reveal_strlit("doc");
                assert("pdbcommand"@.len() != "doc"@.len());
                reveal_strlit("label");
                assert("pdbcommand"@.len() != "label"@.len());
                reveal_strlit("term");
                assert("pdbcommand"@.len() != "term"@.len());
                reveal_strlit("cmdoption");
                assert("pdbcommand"@.len() != "cmdoption"@.len());
            },
            StdRole::Token => {
                reveal_strlit("token");
                reveal_strlit("doc");
                assert("token"@.len() != "doc"@.len());
                reveal_strlit("label");
                assert("token"@[0] != "label"@[0]);
                reveal_strlit("term");
                assert("token"@.len() != "term"@.len());
                reveal_strlit("cmdoption");
                assert("token"@.len() != "cmdoption"@.len());
                reveal_strlit("pdbcommand");
                assert("token"@.len() != "pdbcommand"@.len());
            },
            StdRole::Opcode => {
                reveal_strlit("opcode");
                reveal_strlit("doc");
                assert("opcode"@.len() != "doc"@.len());
                reveal_strlit("label");
                assert("opcode"@.len() != "label"@.len());
                reveal_strlit("term");
                assert("opcode"@.len() != "term"@.len());
                reveal_strlit("cmdoption");
                assert("opcode"@.len() != "cmdoption"@.len());
                reveal_strlit("pdbcommand");
                assert("opcode"@.len() != "pdbcommand"@.len());
                reveal_strlit("token");
                assert("opcode"@.len() != "token"@.len());
            },
            StdRole::MonitoringEvent => {
                reveal_strlit("monitoring-event");
                reveal_strlit("doc");
                assert("monitoring-event"@.len() != "doc"@.len());
                reveal_strlit("label");
                assert("monitoring-event"@.len() != "label"@.len());
                reveal_strlit("term");
                assert("monitoring-event"@.len() != "term"@.len());
                reveal_strlit("cmdoption");
                assert("monitoring-event"@.len() != "cmdoption"@.len());
                reveal_strlit("pdbcommand");
                assert("monitoring-event"@.len() != "pdbcommand"@.len());
                reveal_strlit("token");
                assert("monitoring-event"@.len() != "token"@.len());
                reveal_strlit("opcode");
                assert("monitoring-event"@.len() != "opcode"@.len());
            },
            StdRole::Envvar => {
                reveal_strlit("envvar");
                reveal_strlit("doc");
                assert("envvar"@.len() != "doc"@.len());
                reveal_strlit("label");
                assert("envvar"@.len() != "label"@.len());
                reveal_strlit("term");
                assert("envvar"@.len() != "term"@.len());
                reveal_strlit("cmdoption");
                assert("envvar"@.len() != "cmdoption"@.len());
                reveal_strlit("pdbcommand");
                assert("envvar"@.len() != "pdbcommand"@.len());
                reveal_strlit("token");
                assert("envvar"@.len() != "token"@.len());
                reveal_strlit("opcode");
                assert("envvar"@[0] != "opcode"@[0]);
                reveal_strlit("monitoring-event");
                assert("envvar"@.len() != "monitoring-event"@.len());
            },
        }
    }

    /// A role's name is not empty and holds no blank or line break.
    pub proof fn lemma_name_chars(self)
        ensures
            self.name().len() > 0,
            forall|i: int| 0 <= i < self.name().len() ==> in_class(#[trigger] self.name()[i], CharClass::NonSpace),
    {
        match self {
            StdRole::Doc => {
                reveal_strlit("doc");
                assert(forall|i: int| 0 <= i < "doc"@.len() ==> in_class(#[trigger] "doc"@[i], CharClass::NonSpace));
            },
            StdRole::Label => {
                reveal_strlit("label");
                assert(forall|i: int| 0 <= i < "label"@.len() ==> in_class(#[trigger] "label"@[i], CharClass::NonSpace));
            },
            StdRole::Term => {
                reveal_strlit("term");
                assert(forall|i: int| 0 <= i < "term"@.len() ==> in_class(#[trigger] "term"@[i], CharClass::NonSpace));
            },
            StdRole::Option => {
                reveal_strlit("cmdoption");
                assert(forall|i: int| 0 <= i < "cmdoption"@.len() ==> in_class(#[trigger] "cmdoption"@[i], CharClass::NonSpace));
            },
            StdRole::Cmdoption => {
                reveal_strlit("cmdoption");
                assert(forall|i: int| 0 <= i < "cmdoption"@.len() ==> in_class(#[trigger] "cmdoption"@[i], CharClass::NonSpace));
            },
            StdRole::Pdbcommand => {
                reveal_strlit("pdbcommand");
                assert(forall|i: int| 0 <= i < "pdbcommand"@.len() ==> in_class(#[trigger] "pdbcommand"@[i], CharClass::NonSpace));
            },
            StdRole::Token => {
                reveal_strlit("token");
                assert(forall|i: int| 0 <= i < "token"@.len() ==> in_class(#[trigger] "token"@[i], CharClass::NonSpace));
            },
            StdRole::Opcode => {
                reveal_strlit("opcode");
                assert(forall|i: int| 0 <= i < "opcode"@.len() ==> in_class(#[trigger] "opcode"@[i], CharClass::NonSpace));
            },
            StdRole::MonitoringEvent => {
                reveal_strlit("monitoring-event");
                assert(forall|i: int| 0 <= i < "monitoring-event"@.len() ==> in_class(#[trigger] "monitoring-event"@[i], CharClass::NonSpace));
            },
            StdRole::Envvar => {
                reveal_strlit("envvar");
                assert(forall|i: int| 0 <= i < "envvar"@.len() ==> in_class(#[trigger] "envvar"@[i], CharClass::NonSpace));
            },
        }
    }

    /// A role that reads back from a text has that text as its name.
    pub proof fn lemma_name_named(s: Seq<char>)
        ensures
            Self::named(s) matches Some(role) ==> role.name() == s,
    {
    }

    /// Each role is spelled as Sphinx spells it, and that spelling reads back as the
    /// role: `doc` for `Doc`, `label` for `Label`, `term` for `Term`, `cmdoption` for
    /// `Option`, `cmdoption` for `Cmdoption`, `pdbcommand` for `Pdbcommand`, `token`
    /// for `Token`, `opcode` for `Opcode`, `monitoring-event` for `MonitoringEvent`,
    /// `envvar` for `Envvar`.
    pub proof fn law_spellings()
        ensures
            StdRole::Doc.name() == "doc"@,
            StdRole::named("doc"@) == Some(StdRole::Doc),
            StdRole::Label.name() == "label"@,
            StdRole::named("label"@) == Some(StdRole::Label),
            StdRole::Term.name() == "term"@,
            StdRole::named("term"@) == Some(StdRole::Term),
            StdRole::Option.name() == "cmdoption"@,
            StdRole::Cmdoption.name() == "cmdoption"@,
            StdRole::named("cmdoption"@) == Some(StdRole::Cmdoption),
            StdRole::Pdbcommand.name() == "pdbcommand"@,
            StdRole::named("pdbcommand"@) == Some(StdRole::Pdbcommand),
            StdRole::Token.name() == "token"@,
            StdRole::named("token"@) == Some(StdRole::Token),
            StdRole::Opcode.name() == "opcode"@,
            StdRole::named("opcode"@) == Some(StdRole::Opcode),
            StdRole::MonitoringEvent.name() == "monitoring-event"@,
            StdRole::named("monitoring-event"@) == Some(StdRole::MonitoringEvent),
            StdRole::Envvar.name() == "envvar"@,
            StdRole::named("envvar"@) == Some(StdRole::Envvar),
    {
        StdRole::Doc.lemma_named_name();
        StdRole::Label.lemma_named_name();
        StdRole::Term.lemma_named_name();
        StdRole::Option.lemma_named_name();
        StdRole::Cmdoption.lemma_named_name();
        StdRole::Pdbcommand.lemma_named_name();
        StdRole::Token.lemma_named_name();
        StdRole::Opcode.lemma_named_name();
        StdRole::MonitoringEvent.lemma_named_name();
        StdRole::Envvar.lemma_named_name();
    }
}

} // verus!
