//! The `{domain}:{role}` types that inventory records carry.

mod std_role;
mod c_role;
mod cpp_role;
mod py_role;
mod js_role;
mod math_role;
mod rst_role;
mod cmake_role;
mod http_role;
mod sip_role;

pub use std_role::StdRole;
pub use c_role::CRole;
pub use cpp_role::CppRole;
pub use py_role::PyRole;
pub use js_role::JsRole;
pub use math_role::MathRole;
pub use rst_role::RstRole;
pub use cmake_role::CmakeRole;
pub use http_role::HttpRole;
pub use sip_role::SipRole;

use vstd::prelude::*;

use crate::error::MalformedReference;
use crate::text::{chars_eq_str, chars_of, find_char, find_first, in_class, lemma_find_first, string_of, CharClass};

verus! {

/// The documentation domains that records can name.
#[derive(Clone, Copy, Debug, PartialEq, Eq, Structural)]
pub enum Domain {
    /// The standard domain (`std`): documents, labels, terms, options.
    Std,
    /// The C domain (`c`).
    C,
    /// The C++ domain (`cpp`).
    Cpp,
    /// The Python domain (`py`).
    Python,
    /// The JavaScript domain (`js`).
    JavaScript,
    /// The mathematics domain (`math`).
    Mathematics,
    /// The reStructuredText domain (`rst`).
    ReStructuredText,
    /// The CMake domain (`cmake`).
    Cmake,
    /// The HTTP domain (`http`).
    Http,
    /// The SIP domain (`sip`), as PyQt documents it.
    Sip,
}

impl Domain {
    /// The domain's name as inventories spell it.
    pub open spec fn name(self) -> Seq<char> {
        match self {
            Domain::Std => "std"@,
            Domain::C => "c"@,
            Domain::Cpp => "cpp"@,
            Domain::Python => "py"@,
            Domain::JavaScript => "js"@,
            Domain::Mathematics => "math"@,
            Domain::ReStructuredText => "rst"@,
            Domain::Cmake => "cmake"@,
            Domain::Http => "http"@,
            Domain::Sip => "sip"@,
        }
    }

    /// The domain that inventories spell `s`, if there is one.
    pub open spec fn named(s: Seq<char>) -> Option<Domain> {
        if s == "std"@ {
            Some(Domain::Std)
        } else if s == "c"@ {
            Some(Domain::C)
        } else if s == "cpp"@ {
            Some(Domain::Cpp)
        } else if s == "py"@ {
            Some(Domain::Python)
        } else if s == "js"@ {
            Some(Domain::JavaScript)
        } else if s == "math"@ {
            Some(Domain::Mathematics)
        } else if s == "rst"@ {
            Some(Domain::ReStructuredText)
        } else if s == "cmake"@ {
            Some(Domain::Cmake)
        } else if s == "http"@ {
            Some(Domain::Http)
        } else if s == "sip"@ {
            Some(Domain::Sip)
        } else {
            None
        }
    }

    /// The domain's name as inventories spell it.
    pub fn as_str(&self) -> (s: &'static str)
        ensures
            s@ == self.name(),
    {
        match self {
            Domain::Std => "std",
            Domain::C => "c",
            Domain::Cpp => "cpp",
            Domain::Python => "py",
            Domain::JavaScript => "js",
            Domain::Mathematics => "math",
            Domain::ReStructuredText => "rst",
            Domain::Cmake => "cmake",
            Domain::Http => "http",
            Domain::Sip => "sip",
        }
    }

    /// The domain that `v[from..to]` spells, if there is one.
    pub fn from_chars(v: &Vec<char>, from: usize, to: usize) -> (d: Option<Domain>)
        requires
            from <= to <= v@.len(),
        ensures
            d == Self::named(v@.subrange(from as int, to as int)),
    {
        if chars_eq_str(v, from, to, "std") {
            Some(Domain::Std)
        } else if chars_eq_str(v, from, to, "c") {
            Some(Domain::C)
        } else if chars_eq_str(v, from, to, "cpp") {
            Some(Domain::Cpp)
        } else if chars_eq_str(v, from, to, "py") {
            Some(Domain::Python)
        } else if chars_eq_str(v, from, to, "js") {
            Some(Domain::JavaScript)
        } else if chars_eq_str(v, from, to, "math") {
            Some(Domain::Mathematics)
        } else if chars_eq_str(v, from, to, "rst") {
            Some(Domain::ReStructuredText)
        } else if chars_eq_str(v, from, to, "cmake") {
            Some(Domain::Cmake)
        } else if chars_eq_str(v, from, to, "http") {
            Some(Domain::Http)
        } else if chars_eq_str(v, from, to, "sip") {
            Some(Domain::Sip)
        } else {
            None
        }
    }

    /// The class of the characters that make up a role of this domain in a record:
    /// a role runs up to the next blank, and for reStructuredText also stops at a line break.
    pub open spec fn role_class(self) -> CharClass {
        match self {
            Domain::ReStructuredText => CharClass::NonSpace,
            _ => CharClass::NotBlank,
        }
    }

    /// Executable form of [`Domain::role_class`].
    pub fn role_chars(&self) -> (k: CharClass)
        ensures
            k == self.role_class(),
    {
        match self {
            Domain::ReStructuredText => CharClass::NonSpace,
            _ => CharClass::NotBlank,
        }
    }

    /// Reading back the name of a domain gives that domain; the name is made of
    /// word characters only.
    pub proof fn lemma_name(self)
        ensures
            Self::named(self.name()) == Some(self),
            self.name().len() > 0,
            forall|i: int| 0 <= i < self.name().len() ==> in_class(#[trigger] self.name()[i], CharClass::Word),
    {
        match self {
            Domain::Std => {
                reveal_strlit("std");
                assert(forall|i: int| 0 <= i < "std"@.len() ==> in_class(#[trigger] "std"@[i], CharClass::Word));
            },
            Domain::C => {
                reveal_strlit("c");
                assert(forall|i: int| 0 <= i < "c"@.len() ==> in_class(#[trigger] "c"@[i], CharClass::Word));
                reveal_strlit("std");
                assert("c"@.len() != "std"@.len());
            },
            Domain::Cpp => {
                reveal_strlit("cpp");
                assert(forall|i: int| 0 <= i < "cpp"@.len() ==> in_class(#[trigger] "cpp"@[i], CharClass::Word));
                reveal_strlit("std");
                assert("cpp"@[0] != "std"@[0]);
                reveal_strlit("c");
                assert("cpp"@.len() != "c"@.len());
            },
            Domain::Python => {
                reveal_strlit("py");
                assert(forall|i: int| 0 <= i < "py"@.len() ==> in_class(#[trigger] "py"@[i], CharClass::Word));
                reveal_strlit("std");
                assert("py"@.len() != "std"@.len());
                reveal_strlit("c");
                assert("py"@.len() != "c"@.len());
                reveal_strlit("cpp");
                assert("py"@.len() != "cpp"@.len());
            },
            Domain::JavaScript => {
                reveal_strlit("js");
                assert(forall|i: int| 0 <= i < "js"@.len() ==> in_class(#[trigger] "js"@[i], CharClass::Word));
                reveal_strlit("std");
                assert("js"@.len() != "std"@.len());
                reveal_strlit("c");
                assert("js"@.len() != "c"@.len());
                reveal_strlit("cpp");
                assert("js"@.len() != "cpp"@.len());
                reveal_strlit("py");
                assert("js"@[0] != "py"@[0]);
            },
            Domain::Mathematics => {
                reveal_strlit("math");
                assert(forall|i: int| 0 <= i < "math"@.len() ==> in_class(#[trigger] "math"@[i], CharClass::Word));
                reveal_strlit("std");
                assert("math"@.len() != "std"@.len());
                reveal_strlit("c");
                assert("math"@.len() != "c"@.len());
                reveal_strlit("cpp");
                assert("math"@.len() != "cpp"@.len());
                reveal_strlit("py");
                assert("math"@.len() != "py"@.len());
                reveal_strlit("js");
                assert("math"@.len() != "js"@.len());
            },
            Domain::ReStructuredText => {
                reveal_strlit("rst");
                assert(forall|i: int| 0 <= i < "rst"@.len() ==> in_class(#[trigger] "rst"@[i], CharClass::Word));
                reveal_strlit("std");
                assert("rst"@[0] != "std"@[0]);
                reveal_strlit("c");
                assert("rst"@.len() != "c"@.len());
                reveal_strlit("cpp");
                assert("rst"@[0] != "cpp"@[0]);
                reveal_strlit("py");
                assert("rst"@.len() != "py"@.len());
                reveal_strlit("js");
                assert("rst"@.len() != "js"@.len());
                reveal_strlit("math");
                assert("rst"@.len() != "math"@.len());
            },
            Domain::Cmake => {
                reveal_strlit("cmake");
                assert(forall|i: int| 0 <= i < "cmake"@.len() ==> in_class(#[trigger] "cmake"@[i], CharClass::Word));
                reveal_strlit("std");
                assert("cmake"@.len() != "std"@.len());
                reveal_strlit("c");
                assert("cmake"@.len() != "c"@.len());
                reveal_strlit("cpp");
                assert("cmake"@.len() != "cpp"@.len());
                reveal_strlit("py");
                assert("cmake"@.len() != "py"@.len());
                reveal_strlit("js");
                assert("cmake"@.len() != "js"@.len());
                reveal_strlit("math");
                assert("cmake"@.len() != "math"@.len());
                reveal_strlit("rst");
                assert("cmake"@.len() != "rst"@.len());
            },
            Domain::Http => {
                reveal_strlit("http");
                assert(forall|i: int| 0 <= i < "http"@.len() ==> in_class(#[trigger] "http"@[i], CharClass::Word));
                reveal_strlit("std");
                assert("http"@.len() != "std"@.len());
                reveal_strlit("c");
                assert("http"@.len() != "c"@.len());
                reveal_strlit("cpp");
                assert("http"@.len() != "cpp"@.len());
                reveal_strlit("py");
                assert("http"@.len() != "py"@.len());
                reveal_strlit("js");
                assert("http"@.len() != "js"@.len());
                reveal_strlit("math");
                assert("http"@[0] != "math"@[0]);
                reveal_strlit("rst");
                assert("http"@.len() != "rst"@.len());
                reveal_strlit("cmake");
                assert("http"@.len() != "cmake"@.len());
            },
            Domain::Sip => {
                reveal_strlit("sip");
                assert(forall|i: int| 0 <= i < "sip"@.len() ==> in_class(#[trigger] "sip"@[i], CharClass::Word));
                reveal_strlit("std");
                assert("sip"@[1] != "std"@[1]);
                reveal_strlit("c");
                assert("sip"@.len() != "c"@.len());
                reveal_strlit("cpp");
                assert("sip"@[0] != "cpp"@[0]);
                reveal_strlit("py");
                assert("sip"@.len() != "py"@.len());
                reveal_strlit("js");
                assert("sip"@.len() != "js"@.len());
                reveal_strlit("math");
                assert("sip"@.len() != "math"@.len());
                reveal_strlit("rst");
                assert("sip"@[0] != "rst"@[0]);
                reveal_strlit("cmake");
                assert("sip"@.len() != "cmake"@.len());
                reveal_strlit("http");
                assert("sip"@.len() != "http"@.len());
            },
        }
    }

    /// Each domain is spelled as Sphinx spells it, and that spelling reads back as the
    /// domain: `std`, `c`, `cpp`, `py`, `js`, `math`, `rst`, `cmake`, `http`, `sip`.
    pub proof fn law_spellings()
        ensures
            Domain::Std.name() == "std"@,
            Domain::named("std"@) == Some(Domain::Std),
            Domain::C.name() == "c"@,
            Domain::named("c"@) == Some(Domain::C),
            Domain::Cpp.name() == "cpp"@,
            Domain::named("cpp"@) == Some(Domain::Cpp),
            Domain::Python.name() == "py"@,
            Domain::named("py"@) == Some(Domain::Python),
            Domain::JavaScript.name() == "js"@,
            Domain::named("js"@) == Some(Domain::JavaScript),
            Domain::Mathematics.name() == "math"@,
            Domain::named("math"@) == Some(Domain::Mathematics),
            Domain::ReStructuredText.name() == "rst"@,
            Domain::named("rst"@) == Some(Domain::ReStructuredText),
            Domain::Cmake.name() == "cmake"@,
            Domain::named("cmake"@) == Some(Domain::Cmake),
            Domain::Http.name() == "http"@,
            Domain::named("http"@) == Some(Domain::Http),
            Domain::Sip.name() == "sip"@,
            Domain::named("sip"@) == Some(Domain::Sip),
    {
        Domain::Std.lemma_name();
        Domain::C.lemma_name();
        Domain::Cpp.lemma_name();
        Domain::Python.lemma_name();
        Domain::JavaScript.lemma_name();
        Domain::Mathematics.lemma_name();
        Domain::ReStructuredText.lemma_name();
        Domain::Cmake.lemma_name();
        Domain::Http.lemma_name();
        Domain::Sip.lemma_name();
    }

}

/// The type of a record: a domain and one of its roles.
#[derive(Clone, Copy, Debug, PartialEq, Eq, Structural)]
pub enum SphinxType {
    /// The standard domain (`std`): documents, labels, terms, options.
    Std(StdRole),
    /// The C domain (`c`).
    C(CRole),
    /// The C++ domain (`cpp`).
    Cpp(CppRole),
    /// The Python domain (`py`).
    Python(PyRole),
    /// The JavaScript domain (`js`).
    JavaScript(JsRole),
    /// The mathematics domain (`math`).
    Mathematics(MathRole),
    /// The reStructuredText domain (`rst`).
    ReStructuredText(RstRole),
    /// The CMake domain (`cmake`).
    Cmake(CmakeRole),
    /// The HTTP domain (`http`).
    Http(HttpRole),
    /// The SIP domain (`sip`), as PyQt documents it.
    Sip(SipRole),
}

impl SphinxType {
    /// The domain of the type.
    pub open spec fn domain(self) -> Domain {
        match self {
            SphinxType::Std(_) => Domain::Std,
            SphinxType::C(_) => Domain::C,
            SphinxType::Cpp(_) => Domain::Cpp,
            SphinxType::Python(_) => Domain::Python,
            SphinxType::JavaScript(_) => Domain::JavaScript,
            SphinxType::Mathematics(_) => Domain::Mathematics,
            SphinxType::ReStructuredText(_) => Domain::ReStructuredText,
            SphinxType::Cmake(_) => Domain::Cmake,
            SphinxType::Http(_) => Domain::Http,
            SphinxType::Sip(_) => Domain::Sip,
        }
    }

    /// The name of the role, as inventories spell it.
    pub open spec fn role_name(self) -> Seq<char> {
        match self {
            SphinxType::Std(r) => r.name(),
            SphinxType::C(r) => r.name(),
            SphinxType::Cpp(r) => r.name(),
            SphinxType::Python(r) => r.name(),
            SphinxType::JavaScript(r) => r.name(),
            SphinxType::Mathematics(r) => r.name(),
            SphinxType::ReStructuredText(r) => r.name(),
            SphinxType::Cmake(r) => r.name(),
            SphinxType::Http(r) => r.name(),
            SphinxType::Sip(r) => r.name(),
        }
    }

    /// The type as records spell it: `{domain}:{role}`.
    pub open spec fn name(self) -> Seq<char> {
        self.domain().name() + seq![':'] + self.role_name()
    }

    /// The type of domain `d` whose role is spelled `role`, if there is one.
    pub open spec fn of_role(d: Domain, role: Seq<char>) -> Option<SphinxType> {
        match d {
            Domain::Std => match StdRole::named(role) {
                Some(r) => Some(SphinxType::Std(r)),
                None => None,
            },
            Domain::C => match CRole::named(role) {
                Some(r) => Some(SphinxType::C(r)),
                None => None,
            },
            Domain::Cpp => match CppRole::named(role) {
                Some(r) => Some(SphinxType::Cpp(r)),
                None => None,
            },
            Domain::Python => match PyRole::named(role) {
                Some(r) => Some(SphinxType::Python(r)),
                None => None,
            },
            Domain::JavaScript => match JsRole::named(role) {
                Some(r) => Some(SphinxType::JavaScript(r)),
                None => None,
            },
            Domain::Mathematics => match MathRole::named(role) {
                Some(r) => Some(SphinxType::Mathematics(r)),
                None => None,
            },
            Domain::ReStructuredText => match RstRole::named(role) {
                Some(r) => Some(SphinxType::ReStructuredText(r)),
                None => None,
            },
            Domain::Cmake => match CmakeRole::named(role) {
                Some(r) => Some(SphinxType::Cmake(r)),
                None => None,
            },
            Domain::Http => match HttpRole::named(role) {
                Some(r) => Some(SphinxType::Http(r)),
                None => None,
            },
            Domain::Sip => match SipRole::named(role) {
                Some(r) => Some(SphinxType::Sip(r)),
                None => None,
            },
        }
    }

    /// The type that reading back this type's name gives: itself, except that
    /// `std:option` is written with the spelling of `std:cmdoption`.
    pub open spec fn read_back(self) -> SphinxType {
        match self {
            SphinxType::Std(StdRole::Option) => SphinxType::Std(StdRole::Cmdoption),
            _ => self,
        }
    }

    /// The type of domain `d` whose role `v[from..to]` spells, if there is one.
    pub fn role_from_chars(d: Domain, v: &Vec<char>, from: usize, to: usize) -> (t: Option<SphinxType>)
        requires
            from <= to <= v@.len(),
        ensures
            t == Self::of_role(d, v@.subrange(from as int, to as int)),
    {
        match d {
            Domain::Std => match StdRole::from_chars(v, from, to) {
                Some(r) => Some(SphinxType::Std(r)),
                None => None,
            },
            Domain::C => match CRole::from_chars(v, from, to) {
                Some(r) => Some(SphinxType::C(r)),
                None => None,
            },
            Domain::Cpp => match CppRole::from_chars(v, from, to) {
                Some(r) => Some(SphinxType::Cpp(r)),
                None => None,
            },
            Domain::Python => match PyRole::from_chars(v, from, to) {
                Some(r) => Some(SphinxType::Python(r)),
                None => None,
            },
            Domain::JavaScript => match JsRole::from_chars(v, from, to) {
                Some(r) => Some(SphinxType::JavaScript(r)),
                None => None,
            },
            Domain::Mathematics => match MathRole::from_chars(v, from, to) {
                Some(r) => Some(SphinxType::Mathematics(r)),
                None => None,
            },
            Domain::ReStructuredText => match RstRole::from_chars(v, from, to) {
                Some(r) => Some(SphinxType::ReStructuredText(r)),
                None => None,
            },
            Domain::Cmake => match CmakeRole::from_chars(v, from, to) {
                Some(r) => Some(SphinxType::Cmake(r)),
                None => None,
            },
            Domain::Http => match HttpRole::from_chars(v, from, to) {
                Some(r) => Some(SphinxType::Http(r)),
                None => None,
            },
            Domain::Sip => match SipRole::from_chars(v, from, to) {
                Some(r) => Some(SphinxType::Sip(r)),
                None => None,
            },
        }
    }

    /// The domain of the type.
    pub fn domain_of(&self) -> (d: Domain)
        ensures
            d == self.domain(),
    {
        match self {
            SphinxType::Std(_) => Domain::Std,
            SphinxType::C(_) => Domain::C,
            SphinxType::Cpp(_) => Domain::Cpp,
            SphinxType::Python(_) => Domain::Python,
            SphinxType::JavaScript(_) => Domain::JavaScript,
            SphinxType::Mathematics(_) => Domain::Mathematics,
            SphinxType::ReStructuredText(_) => Domain::ReStructuredText,
            SphinxType::Cmake(_) => Domain::Cmake,
            SphinxType::Http(_) => Domain::Http,
            SphinxType::Sip(_) => Domain::Sip,
        }
    }

    /// The name of the role, as inventories spell it.
    pub fn role_str(&self) -> (s: &'static str)
        ensures
            s@ == self.role_name(),
    {
        match self {
            SphinxType::Std(r) => r.as_str(),
            SphinxType::C(r) => r.as_str(),
            SphinxType::Cpp(r) => r.as_str(),
            SphinxType::Python(r) => r.as_str(),
            SphinxType::JavaScript(r) => r.as_str(),
            SphinxType::Mathematics(r) => r.as_str(),
            SphinxType::ReStructuredText(r) => r.as_str(),
            SphinxType::Cmake(r) => r.as_str(),
            SphinxType::Http(r) => r.as_str(),
            SphinxType::Sip(r) => r.as_str(),
        }
    }

    /// The type as records spell it: `{domain}:{role}`.
    pub fn to_string(&self) -> (s: String)
        ensures
            s@ == self.name(),
    {
        let mut s = String::new();
        s.append(self.domain_of().as_str());
        s.append(":");
        s.append(self.role_str());
        proof {
            reveal_strlit(":");
            assert(s@ =~= self.name());
        }
        s
    }

    /// Reads a type from its `{domain}:{role}` spelling: the domain is the text
    /// before the first `:`, the role the text after it.
    pub fn try_from(value: &str) -> (r: Result<SphinxType, MalformedReference>)
        ensures
            r is Ok <==> type_from_text(value@) is Ok,
            r matches Ok(t) ==> type_from_text(value@) == Ok::<SphinxType, MalformedField>(t),
            r matches Err(e) ==> type_from_text(value@) == Err::<SphinxType, MalformedField>(e.field()),
    {
        let v = chars_of(value);
        let k = find_char(&v, 0, ':');
        proof {
            lemma_find_first(v@, ':');
            assert(v@.skip(0) =~= v@);
            assert(v@.take(k as int) =~= v@.subrange(0, k as int));
            assert(v@.skip(k + 1) =~= v@.subrange(k + 1, v@.len() as int));
        }
        if k == v.len() {
            return Err(MalformedReference::MalformedDomainField(value.to_owned()));
        }
        match Domain::from_chars(&v, 0, k) {
            None => Err(MalformedReference::InvalidDomain(string_of(&v, 0, k))),
            Some(d) => match Self::role_from_chars(d, &v, k + 1, v.len()) {
                None => Err(MalformedReference::InvalidRole(string_of(&v, k + 1, v.len()))),
                Some(t) => Ok(t),
            },
        }
    }

    /// A type's name reads back as the type (see [`SphinxType::read_back`]); the domain
    /// part is a non-empty run of word characters and the role part is not empty and
    /// holds no blank or line break.
    pub proof fn lemma_name(self)
        ensures
            Self::of_role(self.domain(), self.role_name()) == Some(self.read_back()),
            Domain::named(self.domain().name()) == Some(self.domain()),
            self.domain().name().len() > 0,
            forall|i: int| 0 <= i < self.domain().name().len() ==> in_class(#[trigger] self.domain().name()[i], CharClass::Word),
            self.role_name().len() > 0,
            forall|i: int| 0 <= i < self.role_name().len() ==> in_class(#[trigger] self.role_name()[i], CharClass::NonSpace),
    {
        self.domain().lemma_name();
        match self {
            SphinxType::Std(r) => {
                r.lemma_named_name();
                r.lemma_name_chars();
            },
            SphinxType::C(r) => {
                r.lemma_named_name();
                r.lemma_name_chars();
            },
            SphinxType::Cpp(r) => {
                r.lemma_named_name();
                r.lemma_name_chars();
            },
            SphinxType::Python(r) => {
                r.lemma_named_name();
                r.lemma_name_chars();
            },
            SphinxType::JavaScript(r) => {
                r.lemma_named_name();
                r.lemma_name_chars();
            },
            SphinxType::Mathematics(r) => {
                r.lemma_named_name();
                r.lemma_name_chars();
            },
            SphinxType::ReStructuredText(r) => {
                r.lemma_named_name();
                r.lemma_name_chars();
            },
            SphinxType::Cmake(r) => {
                r.lemma_named_name();
                r.lemma_name_chars();
            },
            SphinxType::Http(r) => {
                r.lemma_named_name();
                r.lemma_name_chars();
            },
            SphinxType::Sip(r) => {
                r.lemma_named_name();
                r.lemma_name_chars();
            },
        }
    }
}

/// Why a `{domain}:{role}` text names no type, with the text at fault.
pub enum MalformedField {
    /// The text before the first `:`, which is not a known domain.
    InvalidDomain(Seq<char>),
    /// The whole text, which has no `:`.
    MalformedDomainField(Seq<char>),
    /// The text after the first `:`, which is not a role of the domain.
    InvalidRole(Seq<char>),
}

impl MalformedReference {
    /// The kind of the error and the text it carries.
    pub open spec fn field(self) -> MalformedField {
        match self {
            MalformedReference::InvalidDomain(s) => MalformedField::InvalidDomain(s@),
            MalformedReference::MalformedDomainField(s) => MalformedField::MalformedDomainField(s@),
            MalformedReference::InvalidRole(s) => MalformedField::InvalidRole(s@),
        }
    }
}

/// What reading `{domain}:{role}` text gives: the domain is the text before the
/// first `:`, the role the text after it.
pub open spec fn type_from_text(s: Seq<char>) -> Result<SphinxType, MalformedField> {
    let k = find_first(s, ':');
    if k >= s.len() {
        Err(MalformedField::MalformedDomainField(s))
    } else {
        match Domain::named(s.take(k)) {
            None => Err(MalformedField::InvalidDomain(s.take(k))),
            Some(d) => match SphinxType::of_role(d, s.skip(k + 1)) {
                None => Err(MalformedField::InvalidRole(s.skip(k + 1))),
                Some(t) => Ok(t),
            },
        }
    }
}

/// Reading a type's `{domain}:{role}` spelling gives the type back; `std:option`,
/// which is spelled as `std:cmdoption`, reads back as `std:cmdoption`.
pub proof fn law_type_name_reads_back(t: SphinxType)
    ensures
        type_from_text(t.name()) == Ok::<SphinxType, MalformedField>(t.read_back()),
{
    t.lemma_name();
    let s = t.name();
    let dn = t.domain().name();
    lemma_find_first(s, ':');
    assert(s[dn.len() as int] == ':');
    assert forall|j: int| 0 <= j < dn.len() implies s[j] != ':' by {
        assert(s[j] == dn[j]);
        assert(in_class(dn[j], CharClass::Word));
    }
    assert(find_first(s, ':') == dn.len());
    assert(s.take(dn.len() as int) =~= dn);
    assert(s.skip(dn.len() as int + 1) =~= t.role_name());
}

} // verus!
