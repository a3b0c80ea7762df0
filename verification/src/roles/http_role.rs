//! Roles of the HTTP domain (`http:` in inventories).

use vstd::prelude::*;

use crate::error::UnknownRole;
use crate::text::{chars_eq_str, chars_of, in_class, CharClass};

verus! {

/// A role of the HTTP domain that inventories in the wild declare as `http:{role}`.
#[derive(Clone, Copy, Debug, PartialEq, Eq, Structural)]
pub enum HttpRole {
    /// A `GET` endpoint.
    Get,
    /// A `DELETE` endpoint.
    Delete,
    /// A `PUT` endpoint.
    Put,
    /// A `POST` endpoint.
    Post,
    /// A `COPY` endpoint.
    Copy,
    /// A `HEAD` endpoint.
    Head,
    /// An endpoint for any method.
    Any,
}

impl HttpRole {
    /// The role's name as inventories spell it.
    pub open spec fn name(self) -> Seq<char> {
        match self {
            HttpRole::Get => "get"@,
            HttpRole::Delete => "delete"@,
            HttpRole::Put => "put"@,
            HttpRole::Post => "post"@,
            HttpRole::Copy => "copy"@,
            HttpRole::Head => "head"@,
            HttpRole::Any => "any"@,
        }
    }

    /// The role that inventories spell `s`, if there is one.
    pub open spec fn named(s: Seq<char>) -> Option<HttpRole> {
        if s == "get"@ {
            Some(HttpRole::Get)
        } else if s == "delete"@ {
            Some(HttpRole::Delete)
        } else if s == "put"@ {
            Some(HttpRole::Put)
        } else if s == "post"@ {
            Some(HttpRole::Post)
        } else if s == "copy"@ {
            Some(HttpRole::Copy)
        } else if s == "head"@ {
            Some(HttpRole::Head)
        } else if s == "any"@ {
            Some(HttpRole::Any)
        } else {
            None
        }
    }

    /// The role's name as inventories spell it.
    pub fn as_str(&self) -> (s: &'static str)
        ensures
            s@ == self.name(),
    {
        match self {
            HttpRole::Get => "get",
            HttpRole::Delete => "delete",
            HttpRole::Put => "put",
            HttpRole::Post => "post",
            HttpRole::Copy => "copy",
            HttpRole::Head => "head",
            HttpRole::Any => "any",
        }
    }

    /// The role's name as a new string.
    pub fn to_string(&self) -> (s: String)
        ensures
            s@ == self.name(),
    {
        self.as_str().to_owned()
    }

    /// The role that `v[from..to]` spells, if there is one.
    pub fn from_chars(v: &Vec<char>, from: usize, to: usize) -> (r: Option<HttpRole>)
        requires
            from <= to <= v@.len(),
        ensures
            r == Self::named(v@.subrange(from as int, to as int)),
    {
        if chars_eq_str(v, from, to, "get") {
            Some(HttpRole::Get)
        } else if chars_eq_str(v, from, to, "delete") {
            Some(HttpRole::Delete)
        } else if chars_eq_str(v, from, to, "put") {
            Some(HttpRole::Put)
        } else if chars_eq_str(v, from, to, "post") {
            Some(HttpRole::Post)
        } else if chars_eq_str(v, from, to, "copy") {
            Some(HttpRole::Copy)
        } else if chars_eq_str(v, from, to, "head") {
            Some(HttpRole::Head)
        } else if chars_eq_str(v, from, to, "any") {
            Some(HttpRole::Any)
        } else {
            None
        }
    }

    /// Reads a role from its name; any other text is an unknown role.
    pub fn from_str(s: &str) -> (r: Result<HttpRole, UnknownRole>)
        ensures
            r is Ok <==> Self::named(s@) is Some,
            r matches Ok(role) ==> Self::named(s@) == Some(role),
    {
        let v = chars_of(s);
        proof {
            assert(v@.subrange(0, v@.len() as int) =~= s@);
        }
        match Self::from_chars(&v, 0, v.len()) {
            Some(role) => Ok(role),
            None => Err(UnknownRole),
        }
    }

    /// Reading back the name of a role gives that role.
    pub proof fn lemma_named_name(self)
        ensures
            Self::named(self.name()) == Some(self),
    {
        match self {
            HttpRole::Get => {
                reveal_strlit("get");
            },
            HttpRole::Delete => {
                reveal_strlit("delete");
                reveal_strlit("get");
                assert("delete"@.len() != "get"@.len());
            },
            HttpRole::Put => {
                reveal_strlit("put");
                reveal_strlit("get");
                assert("put"@[0] != "get"@[0]);
                reveal_strlit("delete");
                assert("put"@.len() != "delete"@.len());
            },
            HttpRole::Post => {
                reveal_strlit("post");
                reveal_strlit("get");
                assert("post"@.len() != "get"@.len());
                reveal_strlit("delete");
                assert("post"@.len() != "delete"@.len());
                reveal_strlit("put");
                assert("post"@.len() != "put"@.len());
            },
            HttpRole::Copy => {
                reveal_strlit("copy");
                reveal_strlit("get");
                assert("copy"@.len() != "get"@.len());
                reveal_strlit("delete");
                assert("copy"@.len() != "delete"@.len());
                reveal_strlit("put");
                assert("copy"@.len() != "put"@.len());
                reveal_strlit("post");
                assert("copy"@[0] != "post"@[0]);
            },
            HttpRole::Head => {
                reveal_strlit("head");
                reveal_strlit("get");
                assert("head"@.len() != "get"@.len());
                reveal_strlit("delete");
                assert("head"@.len() != "delete"@.len());
                reveal_strlit("put");
                assert("head"@.len() != "put"@.len());
                reveal_strlit("post");
                assert("head"@[0] != "post"@[0]);
                reveal_strlit("copy");
                assert("head"@[0] != "copy"@[0]);
            },
            HttpRole::Any => {
                reveal_strlit("any");
                reveal_strlit("get");
                assert("any"@[0] != "get"@[0]);
                reveal_strlit("delete");
                assert("any"@.len() != "delete"@.len());
                reveal_strlit("put");
                assert("any"@[0] != "put"@[0]);
                reveal_strlit("post");
                assert("any"@.len() != "post"@.len());
                reveal_strlit("copy");
                assert("any"@.len() != "copy"@.len());
                reveal_strlit("head");
                assert("any"@.len() != "head"@.len());
            },
        }
    }

    /// A role's name is not empty and holds no blank or line break.
    pub proof fn lemma_name_chars(self)
        ensures
            self.name().len() > 0,
            forall|i: int| 0 <= i < self.name().len() ==> in_class(#[trigger] self.name()[i], CharClass::NonSpace),
    {
        match self {
            HttpRole::Get => {
                reveal_strlit("get");
                assert(forall|i: int| 0 <= i < "get"@.len() ==> in_class(#[trigger] "get"@[i], CharClass::NonSpace));
            },
            HttpRole::Delete => {
                reveal_strlit("delete");
                assert(forall|i: int| 0 <= i < "delete"@.len() ==> in_class(#[trigger] "delete"@[i], CharClass::NonSpace));
            },
            HttpRole::Put => {
                reveal_strlit("put");
                assert(forall|i: int| 0 <= i < "put"@.len() ==> in_class(#[trigger] "put"@[i], CharClass::NonSpace));
            },
            HttpRole::Post => {
                reveal_strlit("post");
                assert(forall|i: int| 0 <= i < "post"@.len() ==> in_class(#[trigger] "post"@[i], CharClass::NonSpace));
            },
            HttpRole::Copy => {
                reveal_strlit("copy");
                assert(forall|i: int| 0 <= i < "copy"@.len() ==> in_class(#[trigger] "copy"@[i], CharClass::NonSpace));
            },
            HttpRole::Head => {
                reveal_strlit("head");
                assert(forall|i: int| 0 <= i < "head"@.len() ==> in_class(#[trigger] "head"@[i], CharClass::NonSpace));
            },
            HttpRole::Any => {
                reveal_strlit("any");
                assert(forall|i: int| 0 <= i < "any"@.len() ==> in_class(#[trigger] "any"@[i], CharClass::NonSpace));
            },
        }
    }

    /// A role that reads back from a text has that text as its name.
    pub proof fn lemma_name_named(s: Seq<char>)
        ensures
            Self::named(s) matches Some(role) ==> role.name() == s,
    {
    }

    /// Each role is spelled as Sphinx spells it, and that spelling reads back as the
    /// role: `get` for `Get`, `delete` for `Delete`, `put` for `Put`, `post` for
    /// `Post`, `copy` for `Copy`, `head` for `Head`, `any` for `Any`.
    pub proof fn law_spellings()
        ensures
            HttpRole::Get.name() == "get"@,
            HttpRole::named("get"@) == Some(HttpRole::Get),
            HttpRole::Delete.name() == "delete"@,
            HttpRole::named("delete"@) == Some(HttpRole::Delete),
            HttpRole::Put.name() == "put"@,
            HttpRole::named("put"@) == Some(HttpRole::Put),
            HttpRole::Post.name() == "post"@,
            HttpRole::named("post"@) == Some(HttpRole::Post),
            HttpRole::Copy.name() == "copy"@,
            HttpRole::named("copy"@) == Some(HttpRole::Copy),
            HttpRole::Head.name() == "head"@,
            HttpRole::named("head"@) == Some(HttpRole::Head),
            HttpRole::Any.name() == "any"@,
            HttpRole::named("any"@) == Some(HttpRole::Any),
    {
        HttpRole::Get.lemma_named_name();
        HttpRole::Delete.lemma_named_name();
        HttpRole::Put.lemma_named_name();
        HttpRole::Post.lemma_named_name();
        HttpRole::Copy.lemma_named_name();
        HttpRole::Head.lemma_named_name();
        HttpRole::Any.lemma_named_name();
    }
}

} // verus!
