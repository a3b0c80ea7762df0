//! The search priority that Sphinx gives each record.

use vstd::prelude::*;

use crate::text::chars_of;

verus! {

/// The search priority of a record, written as `-1`, `1`, `0` or `2`.
#[derive(Clone, Copy, Debug, PartialEq, Eq, Structural)]
pub enum SphinxPriority {
    /// `-1`: left out of search results.
    Omit,
    /// `1`: the usual priority.
    Standard,
    /// `0`: shown before the others.
    High,
    /// `2`: shown after the others.
    Low,
}

/// The error of reading a priority from text that is not one of the four spellings.
#[derive(Clone, Copy, Debug, PartialEq, Eq, Structural)]
pub struct UnknownPriority;

impl SphinxPriority {
    /// The priority as records spell it.
    pub open spec fn name(self) -> Seq<char> {
        match self {
            SphinxPriority::Omit => seq!['-', '1'],
            SphinxPriority::Standard => seq!['1'],
            SphinxPriority::High => seq!['0'],
            SphinxPriority::Low => seq!['2'],
        }
    }

    /// The priority that records spell `s`, if there is one.
    pub open spec fn named(s: Seq<char>) -> Option<SphinxPriority> {
        if s == seq!['-', '1'] {
            Some(SphinxPriority::Omit)
        } else if s == seq!['1'] {
            Some(SphinxPriority::Standard)
        } else if s == seq!['0'] {
            Some(SphinxPriority::High)
        } else if s == seq!['2'] {
            Some(SphinxPriority::Low)
        } else {
            None
        }
    }

    /// The priority as records spell it.
    pub fn to_string(&self) -> (s: String)
        ensures
            s@ == self.name(),
    {
        let r = match self {
            SphinxPriority::Omit => "-1",
            SphinxPriority::Standard => "1",
            SphinxPriority::High => "0",
            SphinxPriority::Low => "2",
        };
        proof {
            reveal_strlit("-1");
            reveal_strlit("1");
            reveal_strlit("0");
            reveal_strlit("2");
            assert(r@ =~= self.name());
        }
        r.to_owned()
    }

    /// Reads a priority from one of its four spellings.
    pub fn from_str(value: &str) -> (r: Result<SphinxPriority, UnknownPriority>)
        ensures
            r is Ok <==> Self::named(value@) is Some,
            r matches Ok(p) ==> Self::named(value@) == Some(p),
    {
        let v = chars_of(value);
        if v.len() == 2 && v[0] == '-' && v[1] == '1' {
            proof {
                assert(v@ =~= seq!['-', '1']);
            }
            Ok(SphinxPriority::Omit)
        } else if v.len() == 1 && v[0] == '1' {
            proof {
                assert(v@ =~= seq!['1']);
            }
            Ok(SphinxPriority::Standard)
        } else if v.len() == 1 && v[0] == '0' {
            proof {
                assert(v@ =~= seq!['0']);
            }
            Ok(SphinxPriority::High)
        } else if v.len() == 1 && v[0] == '2' {
            proof {
                assert(v@ =~= seq!['2']);
            }
            Ok(SphinxPriority::Low)
        } else {
            proof {
                if v@.len() == 2 {
                    assert(v@[0] != seq!['-', '1'][0] || v@[1] != seq!['-', '1'][1]);
                }
                if v@.len() == 1 {
                    assert(v@[0] != seq!['1'][0]);
                    assert(v@[0] != seq!['0'][0]);
                    assert(v@[0] != seq!['2'][0]);
                }
            }
            Err(UnknownPriority)
        }
    }

    /// Reading back the spelling of a priority gives that priority.
    pub proof fn lemma_named_name(self)
        ensures
            Self::named(self.name()) == Some(self),
    {
        assert(seq!['-', '1'][0] != seq!['1'][0]);
        assert(seq!['0'][0] != seq!['1'][0]);
        assert(seq!['2'][0] != seq!['1'][0]);
        assert(seq!['2'][0] != seq!['0'][0]);
    }

    /// Each priority is spelled as Sphinx spells it, and that spelling reads back as
    /// the priority: `-1` for `Omit`, `1` for `Standard`, `0` for `High` and `2` for
    /// `Low`.
    pub proof fn law_spellings()
        ensures
            SphinxPriority::Omit.name() == seq!['-', '1'],
            SphinxPriority::named(seq!['-', '1']) == Some(SphinxPriority::Omit),
            SphinxPriority::Standard.name() == seq!['1'],
            SphinxPriority::named(seq!['1']) == Some(SphinxPriority::Standard),
            SphinxPriority::High.name() == seq!['0'],
            SphinxPriority::named(seq!['0']) == Some(SphinxPriority::High),
            SphinxPriority::Low.name() == seq!['2'],
            SphinxPriority::named(seq!['2']) == Some(SphinxPriority::Low),
    {
        SphinxPriority::Omit.lemma_named_name();
        SphinxPriority::Standard.lemma_named_name();
        SphinxPriority::High.lemma_named_name();
        SphinxPriority::Low.lemma_named_name();
    }
}

} // verus!
