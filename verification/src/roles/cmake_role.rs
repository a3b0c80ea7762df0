//! Roles of the CMake domain (`cmake:` in inventories).

use vstd::prelude::*;

use crate::error::UnknownRole;
use crate::text::{chars_eq_str, chars_of, in_class, CharClass};

verus! {

/// A role of the CMake domain that inventories in the wild declare as `cmake:{role}`.
#[derive(Clone, Copy, Debug, PartialEq, Eq, Structural)]
pub enum CmakeRole {
    /// A command in a CMake file, like `set()`.
    Command,
    /// A CPack generator.
    CpackGen,
    /// An environment variable that CMake reads.
    Envvar,
    /// A CMake generator.
    Generator,
    /// A generator expression.
    Genex,
    /// A guide page.
    Guide,
    /// A manual page such as `cmake(1)`.
    Manual,
    /// A CMake module.
    Module,
    /// A CMake policy.
    Policy,
    /// A cache entry property.
    PropCache,
    /// A directory property.
    PropDir,
    /// A global property.
    PropGbl,
    /// A property of installed files.
    PropInst,
    /// A source file property.
    PropSf,
    /// A test property.
    PropTest,
    /// A target property.
    PropTgt,
    /// A CMake variable.
    Variable,
}

impl CmakeRole {
    /// The role's name as inventories spell it.
    pub open spec fn name(self) -> Seq<char> {
        match self {
            CmakeRole::Command => "command"@,
            CmakeRole::CpackGen => "cpack_gen"@,
            CmakeRole::Envvar => "envvar"@,
            CmakeRole::Generator => "generator"@,
            CmakeRole::Genex => "genex"@,
            CmakeRole::Guide => "guide"@,
            CmakeRole::Manual => "manual"@,
            CmakeRole::Module => "module"@,
            CmakeRole::Policy => "policy"@,
            CmakeRole::PropCache => "prop_cache"@,
            CmakeRole::PropDir => "prop_dir"@,
            CmakeRole::PropGbl => "prop_gbl"@,
            CmakeRole::PropInst => "prop_inst"@,
            CmakeRole::PropSf => "prop_sf"@,
            CmakeRole::PropTest => "prop_test"@,
            CmakeRole::PropTgt => "prop_tgt"@,
            CmakeRole::Variable => "variable"@,
        }
    }

    /// The role that inventories spell `s`, if there is one.
    pub open spec fn named(s: Seq<char>) -> Option<CmakeRole> {
        if s == "command"@ {
            Some(CmakeRole::Command)
        } else if s == "cpack_gen"@ {
            Some(CmakeRole::CpackGen)
        } else if s == "envvar"@ {
            Some(CmakeRole::Envvar)
        } else if s == "generator"@ {
            Some(CmakeRole::Generator)
        } else if s == "genex"@ {
            Some(CmakeRole::Genex)
        } else if s == "guide"@ {
            Some(CmakeRole::Guide)
        } else if s == "manual"@ {
            Some(CmakeRole::Manual)
        } else if s == "module"@ {
            Some(CmakeRole::Module)
        } else if s == "policy"@ {
            Some(CmakeRole::Policy)
        } else if s == "prop_cache"@ {
            Some(CmakeRole::PropCache)
        } else if s == "prop_dir"@ {
            Some(CmakeRole::PropDir)
        } else if s == "prop_gbl"@ {
            Some(CmakeRole::PropGbl)
        } else if s == "prop_inst"@ {
            Some(CmakeRole::PropInst)
        } else if s == "prop_sf"@ {
            Some(CmakeRole::PropSf)
        } else if s == "prop_test"@ {
            Some(CmakeRole::PropTest)
        } else if s == "prop_tgt"@ {
            Some(CmakeRole::PropTgt)
        } else if s == "variable"@ {
            Some(CmakeRole::Variable)
        } else {
            None
        }
    }

    /// The role's name as inventories spell it.
    pub fn as_str(&self) -> (s: &'static str)
        ensures
            s@ == self.name(),
    {
        match self {
            CmakeRole::Command => "command",
            CmakeRole::CpackGen => "cpack_gen",
            CmakeRole::Envvar => "envvar",
            CmakeRole::Generator => "generator",
            CmakeRole::Genex => "genex",
            CmakeRole::Guide => "guide",
            CmakeRole::Manual => "manual",
            CmakeRole::Module => "module",
            CmakeRole::Policy => "policy",
            CmakeRole::PropCache => "prop_cache",
            CmakeRole::PropDir => "prop_dir",
            CmakeRole::PropGbl => "prop_gbl",
            CmakeRole::PropInst => "prop_inst",
            CmakeRole::PropSf => "prop_sf",
            CmakeRole::PropTest => "prop_test",
            CmakeRole::PropTgt => "prop_tgt",
            CmakeRole::Variable => "variable",
        }
    }

    /// The role's name as a new string.
    pub fn to_string(&self) -> (s: String)
        ensures
            s@ == self.name(),
    {
        self.as_str().to_owned()
    }

    /// The role that `v[from..to]` spells, if there is one.
    pub fn from_chars(v: &Vec<char>, from: usize, to: usize) -> (r: Option<CmakeRole>)
        requires
            from <= to <= v@.len(),
        ensures
            r == Self::named(v@.subrange(from as int, to as int)),
    {
        if chars_eq_str(v, from, to, "command") {
            Some(CmakeRole::Command)
        } else if chars_eq_str(v, from, to, "cpack_gen") {
            Some(CmakeRole::CpackGen)
        } else if chars_eq_str(v, from, to, "envvar") {
            Some(CmakeRole::Envvar)
        } else if chars_eq_str(v, from, to, "generator") {
            Some(CmakeRole::Generator)
        } else if chars_eq_str(v, from, to, "genex") {
            Some(CmakeRole::Genex)
        } else if chars_eq_str(v, from, to, "guide") {
            Some(CmakeRole::Guide)
        } else if chars_eq_str(v, from, to, "manual") {
            Some(CmakeRole::Manual)
        } else if chars_eq_str(v, from, to, "module") {
            Some(CmakeRole::Module)
        } else if chars_eq_str(v, from, to, "policy") {
            Some(CmakeRole::Policy)
        } else if chars_eq_str(v, from, to, "prop_cache") {
            Some(CmakeRole::PropCache)
        } else if chars_eq_str(v, from, to, "prop_dir") {
            Some(CmakeRole::PropDir)
        } else if chars_eq_str(v, from, to, "prop_gbl") {
            Some(CmakeRole::PropGbl)
        } else if chars_eq_str(v, from, to, "prop_inst") {
            Some(CmakeRole::PropInst)
        } else if chars_eq_str(v, from, to, "prop_sf") {
            Some(CmakeRole::PropSf)
        } else if chars_eq_str(v, from, to, "prop_test") {
            Some(CmakeRole::PropTest)
        } else if chars_eq_str(v, from, to, "prop_tgt") {
            Some(CmakeRole::PropTgt)
        } else if chars_eq_str(v, from, to, "variable") {
            Some(CmakeRole::Variable)
        } else {
            None
        }
    }

    /// Reads a role from its name; any other text is an unknown role.
    pub fn from_str(s: &str) -> (r: Result<CmakeRole, UnknownRole>)
        ensures
            r is Ok <==> Self::named(s@) is Some,
            r matches Ok(role) ==> Self::named(s@) == Some(role),
    {
        let v = chars_of(s);
        proof {
            assert(v@.subrange(0, v@.len() as int) =~= s@);
        }
        match Self::from_chars(&v, 0, v.len()) {
            Some(role) => Ok(role),
            None => Err(UnknownRole),
        }
    }

    /// Reading back the name of a role gives that role.
    pub proof fn lemma_named_name(self)
        ensures
            Self::named(self.name()) == Some(self),
    {
        match self {
            CmakeRole::Command => {
                reveal_strlit("command");
            },
            CmakeRole::CpackGen => {
                reveal_strlit("cpack_gen");
                reveal_strlit("command");
                assert("cpack_gen"@.len() != "command"@.len());
            },
            CmakeRole::Envvar => {
                reveal_strlit("envvar");
                reveal_strlit("command");
                assert("envvar"@.len() != "command"@.len());
                reveal_strlit("cpack_gen");
                assert("envvar"@.len() != "cpack_gen"@.len());
            },
            CmakeRole::Generator => {
                reveal_strlit("generator");
                reveal_strlit("command");
                assert("generator"@.len() != "command"@.len());
                reveal_strlit("cpack_gen");
                assert("generator"@[0] != "cpack_gen"@[0]);
                reveal_strlit("envvar");
                assert("generator"@.len() != "envvar"@.len());
            },
            CmakeRole::Genex => {
                reveal_strlit("genex");
                reveal_strlit("command");
                assert("genex"@.len() != "command"@.len());
                reveal_strlit("cpack_gen");
                assert("genex"@.len() != "cpack_gen"@.len());
                reveal_strlit("envvar");
                assert("genex"@.len() != "envvar"@.len());
                reveal_strlit("generator");
                assert("genex"@.len() != "generator"@.len());
            },
            CmakeRole::Guide => {
                reveal_strlit("guide");
                reveal_strlit("command");
                assert("guide"@.len() != "command"@.len());
                reveal_strlit("cpack_gen");
                assert("guide"@.len() != "cpack_gen"@.len());
                reveal_strlit("envvar");
                assert("guide"@.len() != "envvar"@.len());
                reveal_strlit("generator");
                assert("guide"@.len() != "generator"@.len());
                reveal_strlit("genex");
                assert("guide"@[1] != "genex"@[1]);
            },
            CmakeRole::Manual => {
                reveal_strlit("manual");
                reveal_strlit("command");
                assert("manual"@.len() != "command"@.len());
                reveal_strlit("cpack_gen");
                assert("manual"@.len() != "cpack_gen"@.len());
                reveal_strlit("envvar");
                assert("manual"@[0] != "envvar"@[0]);
                reveal_strlit("generator");
                assert("manual"@.len() != "generator"@.len());
                reveal_strlit("genex");
                assert("manual"@.len() != "genex"@.len());
                reveal_strlit("guide");
                assert("manual"@.len() != "guide"@.len());
            },
            CmakeRole::Module => {
                reveal_strlit("module");
                reveal_strlit("command");
                assert("module"@.len() != "command"@.len());
                reveal_strlit("cpack_gen");
                assert("module"@.len() != "cpack_gen"@.len());
                reveal_strlit("envvar");
                assert("module"@[0] != "envvar"@[0]);
                reveal_strlit("generator");
                assert("module"@.len() != "generator"@.len());
                reveal_strlit("genex");
                assert("module"@.len() != "genex"@.len());
                reveal_strlit("guide");
                assert("module"@.len() != "guide"@.len());
                reveal_strlit("manual");
                assert("module"@[1] != "manual"@[1]);
            },
            CmakeRole::Policy => {
                reveal_strlit("policy");
                reveal_strlit("command");
                assert("policy"@.len() != "command"@.len());
                reveal_strlit("cpack_gen");
                assert("policy"@.len() != "cpack_gen"@.len());
                reveal_strlit("envvar");
                assert("policy"@[0] != "envvar"@[0]);
                reveal_strlit("generator");
                assert("policy"@.len() != "generator"@.len());
                reveal_strlit("genex");
                assert("policy"@.len() != "genex"@.len());
                reveal_strlit("guide");
                assert("policy"@.len() != "guide"@.len());
                reveal_strlit("manual");
                assert("policy"@[0] != "manual"@[0]);
                reveal_strlit("module");
                assert("policy"@[0] != "module"@[0]);
            },
            CmakeRole::PropCache => {
                reveal_strlit("prop_cache");
                reveal_strlit("command");
                assert("prop_cache"@.len() != "command"@.len());
                reveal_strlit("cpack_gen");
                assert("prop_cache"@.len() != "cpack_gen"@.len());
                reveal_strlit("envvar");
                assert("prop_cache"@.len() != "envvar"@.len());
                reveal_strlit("generator");
                assert("prop_cache"@.len() != "generator"@.len());
                reveal_strlit("genex");
                assert("prop_cache"@.len() != "genex"@.len());
                reveal_strlit("guide");
                assert("prop_cache"@.len() != "guide"@.len());
                reveal_strlit("manual");
                assert("prop_cache"@.len() != "manual"@.len());
                reveal_strlit("module");
                assert("prop_cache"@.len() != "module"@.len());
                reveal_strlit("policy");
                assert("prop_cache"@.len() != "policy"@.len());
            },
            CmakeRole::PropDir => {
                reveal_strlit("prop_dir");
                reveal_strlit("command");
                assert("prop_dir"@.len() != "command"@.len());
                reveal_strlit("cpack_gen");
                assert("prop_dir"@.len() != "cpack_gen"@.len());
                reveal_strlit("envvar");
                assert("prop_dir"@.len() != "envvar"@.len());
                reveal_strlit("generator");
                assert("prop_dir"@.len() != "generator"@.len());
                reveal_strlit("genex");
                assert("prop_dir"@.len() != "genex"@.len());
                reveal_strlit("guide");
                assert("prop_dir"@.len() != "guide"@.len());
                reveal_strlit("manual");
                assert("prop_dir"@.len() != "manual"@.len());
                reveal_strlit("module");
                assert("prop_dir"@.len() != "module"@.len());
                reveal_strlit("policy");
                assert("prop_dir"@.len() != "policy"@.len());
                reveal_strlit("prop_cache");
                assert("prop_dir"@.len() != "prop_cache"@.len());
            },
            CmakeRole::PropGbl => {
                reveal_strlit("prop_gbl");
                reveal_strlit("command");
                assert("prop_gbl"@.len() != "command"@.len());
                reveal_strlit("cpack_gen");
                assert("prop_gbl"@.len() != "cpack_gen"@.len());
                reveal_strlit("envvar");
                assert("prop_gbl"@.len() != "envvar"@.len());
                reveal_strlit("generator");
                assert("prop_gbl"@.len() != "generator"@.len());
                reveal_strlit("genex");
                assert("prop_gbl"@.len() != "genex"@.len());
                reveal_strlit("guide");
                assert("prop_gbl"@.len() != "guide"@.len());
                reveal_strlit("manual");
                assert("prop_gbl"@.len() != "manual"@.len());
                reveal_strlit("module");
                assert("prop_gbl"@.len() != "module"@.len());
                reveal_strlit("policy");
                assert("prop_gbl"@.len() != "policy"@.len());
                reveal_strlit("prop_cache");
                assert("prop_gbl"@.len() != "prop_cache"@.len());
                reveal_strlit("prop_dir");
                assert("prop_gbl"@[5] != "prop_dir"@[5]);
            },
            CmakeRole::PropInst => {
                reveal_strlit("prop_inst");
                reveal_strlit("command");
                assert("prop_inst"@.len() != "command"@.len());
                reveal_strlit("cpack_gen");
                assert("prop_inst"@[0] != "cpack_gen"@[0]);
                reveal_strlit("envvar");
                assert("prop_inst"@.len() != "envvar"@.len());
                reveal_strlit("generator");
                assert("prop_inst"@[0] != "generator"@[0]);
                reveal_strlit("genex");
                assert("prop_inst"@.len() != "genex"@.len());
                reveal_strlit("guide");
                assert("prop_inst"@.len() != "guide"@.len());
                reveal_strlit("manual");
                assert("prop_inst"@.len() != "manual"@.len());
                reveal_strlit("module");
                assert("prop_inst"@.len() != "module"@.len());
                reveal_strlit("policy");
                assert("prop_inst"@.len() != "policy"@.len());
                reveal_strlit("prop_cache");
                assert("prop_inst"@.len() != "prop_cache"@.len());
                reveal_strlit("prop_dir");
                assert("prop_inst"@.len() != "prop_dir"@.len());
                reveal_strlit("prop_gbl");
                assert("prop_inst"@.len() != "prop_gbl"@.len());
            },
            CmakeRole::PropSf => {
                reveal_strlit("prop_sf");
                reveal_strlit("command");
                assert("prop_sf"@[0] != "command"@[0]);
                reveal_strlit("cpack_gen");
                assert("prop_sf"@.len() != "cpack_gen"@.len());
                reveal_strlit("envvar");
                assert("prop_sf"@.len() != "envvar"@.len());
                reveal_strlit("generator");
                assert("prop_sf"@.len() != "generator"@.len());
                reveal_strlit("genex");
                assert("prop_sf"@.len() != "genex"@.len());
                reveal_strlit("guide");
                assert("prop_sf"@.len() != "guide"@.len());
                reveal_strlit("manual");
                assert("prop_sf"@.len() != "manual"@.len());
                reveal_strlit("module");
                assert("prop_sf"@.len() != "module"@.len());
                reveal_strlit("policy");
                assert("prop_sf"@.len() != "policy"@.len());
                reveal_strlit("prop_cache");
                assert("prop_sf"@.len() != "prop_cache"@.len());
                reveal_strlit("prop_dir");
                assert("prop_sf"@.len() != "prop_dir"@.len());
                reveal_strlit("prop_gbl");
                assert("prop_sf"@.len() != "prop_gbl"@.len());
                reveal_strlit("prop_inst");
                assert("prop_sf"@.len() != "prop_inst"@.len());
            },
            CmakeRole::PropTest => {
                reveal_strlit("prop_test");
                reveal_strlit("command");
                assert("prop_test"@.len() != "command"@.len());
                reveal_strlit("cpack_gen");
                assert("prop_test"@[0] != "cpack_gen"@[0]);
                reveal_strlit("envvar");
                assert("prop_test"@.len() != "envvar"@.len());
                reveal_strlit("generator");
                assert("prop_test"@[0] != "generator"@[0]);
                reveal_strlit("genex");
                assert("prop_test"@.len() != "genex"@.len());
                reveal_strlit("guide");
                assert("prop_test"@.len() != "guide"@.len());
                reveal_strlit("manual");
                assert("prop_test"@.len() != "manual"@.len());
                reveal_strlit("module");
                assert("prop_test"@.len() != "module"@.len());
                reveal_strlit("policy");
                assert("prop_test"@.len() != "policy"@.len());
                reveal_strlit("prop_cache");
                assert("prop_test"@.len() != "prop_cache"@.len());
                reveal_strlit("prop_dir");
                assert("prop_test"@.len() != "prop_dir"@.len());
                reveal_strlit("prop_gbl");
                assert("prop_test"@.len() != "prop_gbl"@.len());
                reveal_strlit("prop_inst");
                assert("prop_test"@[5] != "prop_inst"@[5]);
                reveal_strlit("prop_sf");
                assert("prop_test"@.len() != "prop_sf"@.len());
            },
            CmakeRole::PropTgt => {
                reveal_strlit("prop_tgt");
                reveal_strlit("command");
                assert("prop_tgt"@.len() != "command"@.len());
                reveal_strlit("cpack_gen");
                assert("prop_tgt"@.len() != "cpack_gen"@.len());
                reveal_strlit("envvar");
                assert("prop_tgt"@.len() != "envvar"@.len());
                reveal_strlit("generator");
                assert("prop_tgt"@.len() != "generator"@.len());
                reveal_strlit("genex");
                assert("prop_tgt"@.len() != "genex"@.len());
                reveal_strlit("guide");
                assert("prop_tgt"@.len() != "guide"@.len());
                reveal_strlit("manual");
                assert("prop_tgt"@.len() != "manual"@.len());
                reveal_strlit("module");
                assert("prop_tgt"@.len() != "module"@.len());
                reveal_strlit("policy");
                assert("prop_tgt"@.len() != "policy"@.len());
                reveal_strlit("prop_cache");
                assert("prop_tgt"@.len() != "prop_cache"@.len());
                reveal_strlit("prop_dir");
                assert("prop_tgt"@[5] != "prop_dir"@[5]);
                reveal_strlit("prop_gbl");
                assert("prop_tgt"@[5] != "prop_gbl"@[5]);
                reveal_strlit("prop_inst");
                assert("prop_tgt"@.len() != "prop_inst"@.len());
                reveal_strlit("prop_sf");
                assert("prop_tgt"@.len() != "prop_sf"@.len());
                reveal_strlit("prop_test");
                assert("prop_tgt"@.len() != "prop_test"@.len());
            },
            CmakeRole::Variable => {
                reveal_strlit("variable");
                reveal_strlit("command");
                assert("variable"@.len() != "command"@.len());
                reveal_strlit("cpack_gen");
                assert("variable"@.len() != "cpack_gen"@.len());
                reveal_strlit("envvar");
                assert("variable"@.len() != "envvar"@.len());
                reveal_strlit("generator");
                assert("variable"@.len() != "generator"@.len());
                reveal_strlit("genex");
                assert("variable"@.len() != "genex"@.len());
                reveal_strlit("guide");
                assert("variable"@.len() != "guide"@.len());
                reveal_strlit("manual");
                assert("variable"@.len() != "manual"@.len());
                reveal_strlit("module");
                assert("variable"@.len() != "module"@.len());
                reveal_strlit("policy");
                assert("variable"@.len() != "policy"@.len());
                reveal_strlit("prop_cache");
                assert("variable"@.len() != "prop_cache"@.len());
                reveal_strlit("prop_dir");
                assert("variable"@[0] != "prop_dir"@[0]);
                reveal_strlit("prop_gbl");
                assert("variable"@[0] != "prop_gbl"@[0]);
                reveal_strlit("prop_inst");
                assert("variable"@.len() != "prop_inst"@.len());
                reveal_strlit("prop_sf");
                assert("variable"@.len() != "prop_sf"@.len());
                reveal_strlit("prop_test");
                assert("variable"@.len() != "prop_test"@.len());
                reveal_strlit("prop_tgt");
                assert("variable"@[0] != "prop_tgt"@[0]);
            },
        }
    }

    /// A role's name is not empty and holds no blank or line break.
    pub proof fn lemma_name_chars(self)
        ensures
            self.name().len() > 0,
            forall|i: int| 0 <= i < self.name().len() ==> in_class(#[trigger] self.name()[i], CharClass::NonSpace),
    {
        match self {
            CmakeRole::Command => {
                reveal_strlit("command");
                assert(forall|i: int| 0 <= i < "command"@.len() ==> in_class(#[trigger] "command"@[i], CharClass::NonSpace));
            },
            CmakeRole::CpackGen => {
                reveal_strlit("cpack_gen");
                assert(forall|i: int| 0 <= i < "cpack_gen"@.len() ==> in_class(#[trigger] "cpack_gen"@[i], CharClass::NonSpace));
            },
            CmakeRole::Envvar => {
                reveal_strlit("envvar");
                assert(forall|i: int| 0 <= i < "envvar"@.len() ==> in_class(#[trigger] "envvar"@[i], CharClass::NonSpace));
            },
            CmakeRole::Generator => {
                reveal_strlit("generator");
                assert(forall|i: int| 0 <= i < "generator"@.len() ==> in_class(#[trigger] "generator"@[i], CharClass::NonSpace));
            },
            CmakeRole::Genex => {
                reveal_strlit("genex");
                assert(forall|i: int| 0 <= i < "genex"@.len() ==> in_class(#[trigger] "genex"@[i], CharClass::NonSpace));
            },
            CmakeRole::Guide => {
                reveal_strlit("guide");
                assert(forall|i: int| 0 <= i < "guide"@.len() ==> in_class(#[trigger] "guide"@[i], CharClass::NonSpace));
            },
            CmakeRole::Manual => {
                reveal_strlit("manual");
                assert(forall|i: int| 0 <= i < "manual"@.len() ==> in_class(#[trigger] "manual"@[i], CharClass::NonSpace));
            },
            CmakeRole::Module => {
                reveal_strlit("module");
                assert(forall|i: int| 0 <= i < "module"@.len() ==> in_class(#[trigger] "module"@[i], CharClass::NonSpace));
            },
            CmakeRole::Policy => {
                reveal_strlit("policy");
                assert(forall|i: int| 0 <= i < "policy"@.len() ==> in_class(#[trigger] "policy"@[i], CharClass::NonSpace));
            },
            CmakeRole::PropCache => {
                reveal_strlit("prop_cache");
                assert(forall|i: int| 0 <= i < "prop_cache"@.len() ==> in_class(#[trigger] "prop_cache"@[i], CharClass::NonSpace));
            },
            CmakeRole::PropDir => {
                reveal_strlit("prop_dir");
                assert(forall|i: int| 0 <= i < "prop_dir"@.len() ==> in_class(#[trigger] "prop_dir"@[i], CharClass::NonSpace));
            },
            CmakeRole::PropGbl => {
                reveal_strlit("prop_gbl");
                assert(forall|i: int| 0 <= i < "prop_gbl"@.len() ==> in_class(#[trigger] "prop_gbl"@[i], CharClass::NonSpace));
            },
            CmakeRole::PropInst => {
                reveal_strlit("prop_inst");
                assert(forall|i: int| 0 <= i < "prop_inst"@.len() ==> in_class(#[trigger] "prop_inst"@[i], CharClass::NonSpace));
            },
            CmakeRole::PropSf => {
                reveal_strlit("prop_sf");
                assert(forall|i: int| 0 <= i < "prop_sf"@.len() ==> in_class(#[trigger] "prop_sf"@[i], CharClass::NonSpace));
            },
            CmakeRole::PropTest => {
                reveal_strlit("prop_test");
                assert(forall|i: int| 0 <= i < "prop_test"@.len() ==> in_class(#[trigger] "prop_test"@[i], CharClass::NonSpace));
            },
            CmakeRole::PropTgt => {
                reveal_strlit("prop_tgt");
                assert(forall|i: int| 0 <= i < "prop_tgt"@.len() ==> in_class(#[trigger] "prop_tgt"@[i], CharClass::NonSpace));
            },
            CmakeRole::Variable => {
                reveal_strlit("variable");
                assert(forall|i: int| 0 <= i < "variable"@.len() ==> in_class(#[trigger] "variable"@[i], CharClass::NonSpace));
            },
        }
    }

    /// A role that reads back from a text has that text as its name.
    pub proof fn lemma_name_named(s: Seq<char>)
        ensures
            Self::named(s) matches Some(role) ==> role.name() == s,
    {
    }

    /// Each role is spelled as Sphinx spells it, and that spelling reads back as the
    /// role: `command` for `Command`, `cpack_gen` for `CpackGen`, `envvar` for
    /// `Envvar`, `generator` for `Generator`, `genex` for `Genex`, `guide` for `Guide`,
    /// `manual` for `Manual`, `module` for `Module`, `policy` for `Policy`,
    /// `prop_cache` for `PropCache`, `prop_dir` for `PropDir`, `prop_gbl` for
    /// `PropGbl`, `prop_inst` for `PropInst`, `prop_sf` for `PropSf`, `prop_test` for
    /// `PropTest`, `prop_tgt` for `PropTgt`, `variable` for `Variable`.
    pub proof fn law_spellings()
        ensures
            CmakeRole::Command.name() == "command"@,
            CmakeRole::named("command"@) == Some(CmakeRole::Command),
            CmakeRole::CpackGen.name() == "cpack_gen"@,
            CmakeRole::named("cpack_gen"@) == Some(CmakeRole::CpackGen),
            CmakeRole::Envvar.name() == "envvar"@,
            CmakeRole::named("envvar"@) == Some(CmakeRole::Envvar),
            CmakeRole::Generator.name() == "generator"@,
            CmakeRole::named("generator"@) == Some(CmakeRole::Generator),
            CmakeRole::Genex.name() == "genex"@,
            CmakeRole::named("genex"@) == Some(CmakeRole::Genex),
            CmakeRole::Guide.name() == "guide"@,
            CmakeRole::named("guide"@) == Some(CmakeRole::Guide),
            CmakeRole::Manual.name() == "manual"@,
            CmakeRole::named("manual"@) == Some(CmakeRole::Manual),
            CmakeRole::Module.name() == "module"@,
            CmakeRole::named("module"@) == Some(CmakeRole::Module),
            CmakeRole::Policy.name() == "policy"@,
            CmakeRole::named("policy"@) == Some(CmakeRole::Policy),
            CmakeRole::PropCache.name() == "prop_cache"@,
            CmakeRole::named("prop_cache"@) == Some(CmakeRole::PropCache),
            CmakeRole::PropDir.name() == "prop_dir"@,
            CmakeRole::named("prop_dir"@) == Some(CmakeRole::PropDir),
            CmakeRole::PropGbl.name() == "prop_gbl"@,
            CmakeRole::named("prop_gbl"@) == Some(CmakeRole::PropGbl),
            CmakeRole::PropInst.name() == "prop_inst"@,
            CmakeRole::named("prop_inst"@) == Some(CmakeRole::PropInst),
            CmakeRole::PropSf.name() == "prop_sf"@,
            CmakeRole::named("prop_sf"@) == Some(CmakeRole::PropSf),
            CmakeRole::PropTest.name() == "prop_test"@,
            CmakeRole::named("prop_test"@) == Some(CmakeRole::PropTest),
            CmakeRole::PropTgt.name() == "prop_tgt"@,
            CmakeRole::named("prop_tgt"@) == Some(CmakeRole::PropTgt),
            CmakeRole::Variable.name() == "variable"@,
            CmakeRole::named("variable"@) == Some(CmakeRole::Variable),
    {
        CmakeRole::Command.lemma_named_name();
        CmakeRole::CpackGen.lemma_named_name();
        CmakeRole::Envvar.lemma_named_name();
        CmakeRole::Generator.lemma_named_name();
        CmakeRole::Genex.lemma_named_name();
        CmakeRole::Guide.lemma_named_name();
        CmakeRole::Manual.lemma_named_name();
        CmakeRole::Module.lemma_named_name();
        CmakeRole::Policy.lemma_named_name();
        CmakeRole::PropCache.lemma_named_name();
        CmakeRole::PropDir.lemma_named_name();
        CmakeRole::PropGbl.lemma_named_name();
        CmakeRole::PropInst.lemma_named_name();
        CmakeRole::PropSf.lemma_named_name();
        CmakeRole::PropTest.lemma_named_name();
        CmakeRole::PropTgt.lemma_named_name();
        CmakeRole::Variable.lemma_named_name();
    }
}

} // verus!
