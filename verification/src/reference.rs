//! The records of an inventory: what each documented object is called, what it is,
//! and where it is documented.

use vstd::prelude::*;
use vstd::std_specs::cmp::PartialEqSpec;

use crate::priority::SphinxPriority;
use crate::roles::SphinxType;
use crate::text::{chars_of, find_char, find_first, lemma_find_first, push_char, string_of};

verus! {

/// A location or display name, kept in the form in which it was given: abbreviated
/// (a location ending in `#$`, or the display name `-`) or written out.
#[derive(Debug, Clone)]
pub enum ReferenceString {
    /// The abbreviated form.
    Minified(String),
    /// The written-out form.
    Expanded(String),
}

/// The contents of a location or display name, and the form it was given in.
pub enum StoredText {
    Minified(Seq<char>),
    Expanded(Seq<char>),
}

/// The main data of this crate: one record of an inventory, with what is needed to
/// link to the object it documents.
#[derive(Debug, Clone)]
pub struct SphinxReference {
    /// The name of the object (it may hold blanks).
    pub name: String,
    /// The domain and role of the object.
    pub sphinx_type: SphinxType,
    /// The search priority of the object.
    pub priority: SphinxPriority,
    location: ReferenceString,
    display_name: ReferenceString,
}

/// The contents of a [`SphinxReference`].
pub struct ReferenceView {
    pub name: Seq<char>,
    pub sphinx_type: SphinxType,
    pub priority: SphinxPriority,
    pub location: StoredText,
    pub display_name: StoredText,
}

impl ReferenceString {
    /// The contents and the form.
    pub open spec fn stored(&self) -> StoredText {
        match self {
            ReferenceString::Minified(s) => StoredText::Minified(s@),
            ReferenceString::Expanded(s) => StoredText::Expanded(s@),
        }
    }
}

impl View for SphinxReference {
    type V = ReferenceView;

    closed spec fn view(&self) -> ReferenceView {
        ReferenceView {
            name: self.name@,
            sphinx_type: self.sphinx_type,
            priority: self.priority,
            location: self.location.stored(),
            display_name: self.display_name.stored(),
        }
    }
}

/// Whether `s` ends with `#$`, the abbreviation of an anchor named after the object.
pub open spec fn ends_with_anchor_placeholder(s: Seq<char>) -> bool {
    s.len() >= 2 && s[s.len() - 2] == '#' && s[s.len() - 1] == '$'
}

/// Whether `s` is `-`, the abbreviation of a display name equal to the object's name.
pub open spec fn is_dash(s: Seq<char>) -> bool {
    s == seq!['-']
}

/// The record that [`SphinxReference::new`] builds from its parts: a location ending
/// in `#$` and the display name `-` are kept as abbreviations.
pub open spec fn reference_of(
    name: Seq<char>,
    sphinx_type: SphinxType,
    priority: SphinxPriority,
    location: Seq<char>,
    display_name: Seq<char>,
) -> ReferenceView {
    ReferenceView {
        name,
        sphinx_type,
        priority,
        location: if ends_with_anchor_placeholder(location) {
            StoredText::Minified(location)
        } else {
            StoredText::Expanded(location)
        },
        display_name: if is_dash(display_name) {
            StoredText::Minified(display_name)
        } else {
            StoredText::Expanded(display_name)
        },
    }
}

/// `s` with every `c` replaced by `by`.
pub open spec fn replace_char(s: Seq<char>, c: char, by: Seq<char>) -> Seq<char>
    decreases s.len(),
{
    if s.len() == 0 {
        seq![]
    } else {
        (if s[0] == c {
            by
        } else {
            seq![s[0]]
        }) + replace_char(s.drop_first(), c, by)
    }
}

/// What a location reads back as: with every `$` replaced by `name` when it ends
/// in `#$`, as it is otherwise.
pub open spec fn expand_location(location: Seq<char>, name: Seq<char>) -> Seq<char> {
    if ends_with_anchor_placeholder(location) {
        replace_char(location, '$', name)
    } else {
        location
    }
}

/// What a display name reads back as: `name` for `-`, itself otherwise.
pub open spec fn expand_display_name(display_name: Seq<char>, name: Seq<char>) -> Seq<char> {
    if is_dash(display_name) {
        name
    } else {
        display_name
    }
}

impl ReferenceView {
    /// Whether the stored forms agree with what they hold, as
    /// [`SphinxReference::new`] makes them: an abbreviated location ends in `#$`,
    /// an abbreviated display name is `-`, and the written-out ones are not.
    pub open spec fn wf(self) -> bool {
        &&& match self.location {
            StoredText::Minified(s) => ends_with_anchor_placeholder(s),
            StoredText::Expanded(s) => !ends_with_anchor_placeholder(s),
        }
        &&& match self.display_name {
            StoredText::Minified(s) => is_dash(s),
            StoredText::Expanded(s) => !is_dash(s),
        }
    }

    /// The location with every `$` replaced by the name when it was given abbreviated.
    pub open spec fn expanded_location(self) -> Seq<char> {
        match self.location {
            StoredText::Expanded(s) => s,
            StoredText::Minified(s) => replace_char(s, '$', self.name),
        }
    }

    /// The display name, or the name when it was given as `-`.
    pub open spec fn expanded_display_name(self) -> Seq<char> {
        match self.display_name {
            StoredText::Expanded(s) => s,
            StoredText::Minified(_) => self.name,
        }
    }

    /// The location as given when abbreviated; otherwise everything before its first
    /// `#` followed by `#$`, or all of it when it has no `#`.
    pub open spec fn minified_location(self) -> Seq<char> {
        match self.location {
            StoredText::Minified(s) => s,
            StoredText::Expanded(s) => if find_first(s, '#') < s.len() {
                s.take(find_first(s, '#')) + seq!['#', '$']
            } else {
                s
            },
        }
    }

    /// The display name as given when abbreviated; otherwise `-`.
    pub open spec fn minified_display_name(self) -> Seq<char> {
        match self.display_name {
            StoredText::Minified(s) => s,
            StoredText::Expanded(_) => seq!['-'],
        }
    }

    /// The record line `{name} {type} {priority} {location} {display name}` with the
    /// given location and display name.
    pub open spec fn line_with(self, location: Seq<char>, display_name: Seq<char>) -> Seq<char> {
        self.name + seq![' '] + self.sphinx_type.name() + seq![' '] + self.priority.name() + seq![
            ' ',
        ] + location + seq![' '] + display_name
    }

    /// The record line with location and display name written out.
    pub open spec fn expanded_line(self) -> Seq<char> {
        self.line_with(self.expanded_location(), self.expanded_display_name())
    }

    /// The record line with location and display name abbreviated.
    pub open spec fn minified_line(self) -> Seq<char> {
        self.line_with(self.minified_location(), self.minified_display_name())
    }

    /// The record line as a writer writes it: abbreviated when `minimize` holds,
    /// written out otherwise.
    pub open spec fn written_line(self, minimize: bool) -> Seq<char> {
        if minimize {
            self.minified_line()
        } else {
            self.expanded_line()
        }
    }

    /// Two records are the same when their names, types and priorities agree and
    /// their locations and display names agree once written out.
    pub open spec fn same_as(self, other: ReferenceView) -> bool {
        &&& self.name == other.name
        &&& self.sphinx_type == other.sphinx_type
        &&& self.priority == other.priority
        &&& self.expanded_location() == other.expanded_location()
        &&& self.expanded_display_name() == other.expanded_display_name()
    }
}

/// `s` with every `$` replaced by `name`, appended to `out`.
fn push_replacing_dollar(out: &mut String, s: &String, name: &String)
    ensures
        final(out)@ == old(out)@ + replace_char(s@, '$', name@),
{
    let v = chars_of(s.as_str());
    let mut i: usize = 0;
    proof {
        assert(s@.take(0) =~= Seq::<char>::empty());
        assert(old(out)@ + replace_char(Seq::<char>::empty(), '$', name@) =~= old(out)@);
    }
    while i < v.len()
        invariant
            0 <= i <= v@.len(),
            v@ == s@,
            out@ == old(out)@ + replace_char(s@.take(i as int), '$', name@),
        decreases v@.len() - i,
    {
        proof {
            lemma_replace_char_push(s@.take(i as int), s@[i as int], '$', name@);
            assert(s@.take(i + 1) =~= s@.take(i as int).push(s@[i as int]));
        }
        if v[i] == '$' {
            out.append(name.as_str());
        } else {
            push_char(out, v[i]);
        }
        proof {
            assert(seq![s@[i as int]].drop_first() =~= Seq::<char>::empty());
        }
        i = i + 1;
    }
    proof {
        assert(s@.take(v@.len() as int) =~= s@);
    }
}

/// Replacing in a text extended by one character extends the result by the
/// replacement of that character.
pub proof fn lemma_replace_char_push(s: Seq<char>, x: char, c: char, by: Seq<char>)
    ensures
        replace_char(s.push(x), c, by) == replace_char(s, c, by) + (if x == c {
            by
        } else {
            seq![x]
        }),
    decreases s.len(),
{
    if s.len() == 0 {
        assert(s.push(x).drop_first() =~= Seq::<char>::empty());
        assert(replace_char(Seq::<char>::empty(), c, by) =~= Seq::<char>::empty());
        assert(replace_char(s.push(x), c, by) =~= replace_char(s, c, by) + (if x == c {
            by
        } else {
            seq![x]
        }));
    } else {
        assert(s.push(x).drop_first() =~= s.drop_first().push(x));
        lemma_replace_char_push(s.drop_first(), x, c, by);
        assert(replace_char(s.push(x), c, by) =~= replace_char(s, c, by) + (if x == c {
            by
        } else {
            seq![x]
        }));
    }
}

impl SphinxReference {
    /// Builds a record. A location ending in `#$` and the display name `-` are kept
    /// as the abbreviations that they are.
    pub fn new(
        name: &str,
        sphinx_type: SphinxType,
        priority: SphinxPriority,
        location: &str,
        display_name: &str,
    ) -> (r: Self)
        ensures
            r@ == reference_of(name@, sphinx_type, priority, location@, display_name@),
            r@.wf(),
    {
        let lv = chars_of(location);
        let n = lv.len();
        let loc = if n >= 2 && lv[n - 2] == '#' && lv[n - 1] == '$' {
            ReferenceString::Minified(location.to_owned())
        } else {
            ReferenceString::Expanded(location.to_owned())
        };
        let dv = chars_of(display_name);
        let dash = dv.len() == 1 && dv[0] == '-';
        proof {
            if dv@.len() == 1 {
                assert(dv@[0] == seq!['-'][0] ==> dv@ =~= seq!['-']);
            }
        }
        let disp = if dash {
            ReferenceString::Minified(display_name.to_owned())
        } else {
            ReferenceString::Expanded(display_name.to_owned())
        };
        SphinxReference {
            name: name.to_owned(),
            sphinx_type,
            priority,
            location: loc,
            display_name: disp,
        }
    }

    /// The name of the object, as the public field `name` holds it.
    pub fn name(&self) -> (s: &String)
        ensures
            s@ == self@.name,
    {
        &self.name
    }

    /// The domain and role of the object, as the public field `sphinx_type` holds it.
    pub fn sphinx_type(&self) -> (t: SphinxType)
        ensures
            t == self@.sphinx_type,
    {
        self.sphinx_type
    }

    /// The search priority of the object, as the public field `priority` holds it.
    pub fn priority(&self) -> (p: SphinxPriority)
        ensures
            p == self@.priority,
    {
        self.priority
    }

    /// The location in the form in which it was given.
    pub fn location(&self) -> (s: &ReferenceString)
        ensures
            s.stored() == self@.location,
    {
        &self.location
    }

    /// The display name in the form in which it was given.
    pub fn display_name(&self) -> (s: &ReferenceString)
        ensures
            s.stored() == self@.display_name,
    {
        &self.display_name
    }

    /// The location, with every `$` replaced by the name when it was given abbreviated.
    pub fn expanded_location(&self) -> (s: String)
        ensures
            s@ == self@.expanded_location(),
    {
        match &self.location {
            ReferenceString::Expanded(s) => s.clone(),
            ReferenceString::Minified(s) => {
                let mut out = String::new();
                push_replacing_dollar(&mut out, s, &self.name);
                proof {
                    assert(out@ =~= self@.expanded_location());
                }
                out
            },
        }
    }

    /// The display name, or the name when it was given as `-`.
    pub fn expanded_display_name(&self) -> (s: String)
        ensures
            s@ == self@.expanded_display_name(),
    {
        match &self.display_name {
            ReferenceString::Expanded(s) => s.clone(),
            ReferenceString::Minified(_) => self.name.clone(),
        }
    }

    /// The location as given when abbreviated; otherwise everything before its first
    /// `#` followed by `#$`, or all of it when it has no `#`.
    pub fn minified_location(&self) -> (s: String)
        ensures
            s@ == self@.minified_location(),
    {
        match &self.location {
            ReferenceString::Minified(s) => s.clone(),
            ReferenceString::Expanded(s) => {
                let v = chars_of(s.as_str());
                let k = find_char(&v, 0, '#');
                proof {
                    assert(v@.skip(0) =~= v@);
                    lemma_find_first(v@, '#');
                }
                if k < v.len() {
                    let mut out = string_of(&v, 0, k);
                    push_char(&mut out, '#');
                    push_char(&mut out, '$');
                    proof {
                        assert(out@ =~= self@.minified_location());
                    }
                    out
                } else {
                    s.clone()
                }
            },
        }
    }

    /// The display name as given when abbreviated; otherwise `-`.
    pub fn minified_display_name(&self) -> (s: String)
        ensures
            s@ == self@.minified_display_name(),
    {
        match &self.display_name {
            ReferenceString::Minified(s) => s.clone(),
            ReferenceString::Expanded(_) => {
                let mut out = String::new();
                push_char(&mut out, '-');
                proof {
                    assert(out@ =~= seq!['-']);
                }
                out
            },
        }
    }

    /// The record line with the given location and display name.
    fn line_with(&self, location: &String, display_name: &String) -> (s: String)
        ensures
            s@ == self@.line_with(location@, display_name@),
    {
        let mut s = self.name.clone();
        push_char(&mut s, ' ');
        let t = self.sphinx_type.to_string();
        s.append(t.as_str());
        push_char(&mut s, ' ');
        let p = self.priority.to_string();
        s.append(p.as_str());
        push_char(&mut s, ' ');
        s.append(location.as_str());
        push_char(&mut s, ' ');
        s.append(display_name.as_str());
        proof {
            assert(s@ =~= self@.line_with(location@, display_name@));
        }
        s
    }

    /// The record line `{name} {type} {priority} {location} {display name}` with the
    /// location and display name written out.
    pub fn fmt_expanded(&self) -> (s: String)
        ensures
            s@ == self@.expanded_line(),
    {
        let loc = self.expanded_location();
        let disp = self.expanded_display_name();
        self.line_with(&loc, &disp)
    }

    /// The record line `{name} {type} {priority} {location} {display name}` with the
    /// location and display name abbreviated.
    pub fn fmt_minified(&self) -> (s: String)
        ensures
            s@ == self@.minified_line(),
    {
        let loc = self.minified_location();
        let disp = self.minified_display_name();
        self.line_with(&loc, &disp)
    }
}

/// A record built from its parts is well formed, and its written-out location and
/// display name are what the given ones read back as.
pub proof fn lemma_reference_of(
    name: Seq<char>,
    sphinx_type: SphinxType,
    priority: SphinxPriority,
    location: Seq<char>,
    display_name: Seq<char>,
)
    ensures
        reference_of(name, sphinx_type, priority, location, display_name).wf(),
        reference_of(name, sphinx_type, priority, location, display_name).expanded_location()
            == expand_location(location, name),
        reference_of(name, sphinx_type, priority, location, display_name).expanded_display_name()
            == expand_display_name(display_name, name),
{
}

impl PartialEq for ReferenceString {
    fn eq(&self, other: &Self) -> (b: bool) {
        match (self, other) {
            (ReferenceString::Minified(a), ReferenceString::Minified(b)) => *a == *b,
            (ReferenceString::Expanded(a), ReferenceString::Expanded(b)) => *a == *b,
            _ => false,
        }
    }
}

impl vstd::std_specs::cmp::PartialEqSpecImpl for ReferenceString {
    open spec fn obeys_eq_spec() -> bool {
        true
    }

    open spec fn eq_spec(&self, other: &ReferenceString) -> bool {
        self.stored() == other.stored()
    }
}

impl PartialEq for SphinxReference {
    fn eq(&self, other: &Self) -> (b: bool) {
        self.name == other.name && self.sphinx_type == other.sphinx_type && self.priority
            == other.priority && self.expanded_location() == other.expanded_location()
            && self.expanded_display_name() == other.expanded_display_name()
    }
}

impl vstd::std_specs::cmp::PartialEqSpecImpl for SphinxReference {
    open spec fn obeys_eq_spec() -> bool {
        true
    }

    open spec fn eq_spec(&self, other: &SphinxReference) -> bool {
        self@.same_as(other@)
    }
}

/// Two records are equal (`==`) exactly when their names, types and priorities are
/// equal and their locations and display names agree once written out; records that
/// differ in priority are never equal.
pub proof fn law_reference_eq(a: &SphinxReference, b: &SphinxReference)
    ensures
        a.eq_spec(b) <==> (a@.name == b@.name && a@.sphinx_type == b@.sphinx_type && a@.priority
            == b@.priority && a@.expanded_location() == b@.expanded_location()
            && a@.expanded_display_name() == b@.expanded_display_name()),
        a@.priority != b@.priority ==> !a.eq_spec(b),
{
}

} // verus!
