//! The grammar of record lines,
//! `{name} {domain}:{role} {priority} {location} {display name}`, and the parser
//! that reads them.
//!
//! A name may hold blanks and colons. Its first word runs up to the first blank;
//! after that the line is read in runs of word characters (ASCII letters, digits and
//! `_`) and runs of other characters, and the type starts at the first run of word
//! characters that is a known domain followed by `:`. The character just before the
//! type separates it from the name. Once a domain and its `:` are found, the role
//! that follows must be one of the domain's roles.

use vstd::prelude::*;

use crate::error::{ParseErrorView, SphinxParseError};
use crate::priority::SphinxPriority;
use crate::reference::{
    expand_display_name, expand_location, lemma_reference_of, reference_of, ReferenceView,
    SphinxReference,
};
use crate::roles::{Domain, SphinxType};
use crate::text::{
    byte_offset, byte_offset_of, chars_of, in_class, lemma_run_end, lemma_run_end_prefix,
    lemma_run_end_region, run_end, scan_run, string_of, CharClass,
};

verus! {

/// Why a record line was refused.
#[derive(Clone, Copy, Debug, PartialEq, Eq, Structural)]
pub enum LineFailure {
    /// The line does not have the shape of a record.
    Malformed,
    /// No known `{domain}:` was found after the name.
    MissingDomainRole,
    /// A domain and its `:` were followed by no role.
    EmptyRole(Domain),
    /// A domain and its `:` were followed by a text that is none of its roles.
    UnknownRole(Domain),
}

/// The parts of a record line.
pub struct RecordParts {
    pub name: Seq<char>,
    pub sphinx_type: SphinxType,
    pub priority: SphinxPriority,
    pub location: Seq<char>,
    pub display_name: Seq<char>,
}

/// The domain whose name and `:` start at `p`, if the run of word characters at `p`
/// is a known domain followed by `:`.
pub open spec fn domain_at(s: Seq<char>, p: int) -> Option<Domain> {
    let e = run_end(s, p, CharClass::Word);
    if p < e && e < s.len() && s[e] == ':' {
        Domain::named(s.subrange(p, e))
    } else {
        None
    }
}

/// Whether the domain accepts an empty role text before it looks the role up.
pub open spec fn role_may_be_empty(d: Domain) -> bool {
    d == Domain::Std || d == Domain::Python
}

/// Reads the role of domain `d` that starts at `r`: the type and where the role
/// ends, or why it was refused and where.
pub open spec fn role_at(s: Seq<char>, d: Domain, r: int) -> Result<(SphinxType, int), (LineFailure, int)> {
    let e = run_end(s, r, d.role_class());
    if e == r && !role_may_be_empty(d) {
        Err((LineFailure::EmptyRole(d), r))
    } else {
        match SphinxType::of_role(d, s.subrange(r, e)) {
            Some(t) => Ok((t, e)),
            None => Err((LineFailure::UnknownRole(d), r)),
        }
    }
}

/// Looks for the type from position `p` on, run by run: where the type starts, the
/// type, and where it ends; or why none was found and where reading stopped.
pub open spec fn scan_type(s: Seq<char>, p: int) -> Result<(int, SphinxType, int), (LineFailure, int)>
    decreases s.len() - p,
{
    if p < 0 || p > s.len() {
        Err((LineFailure::MissingDomainRole, p))
    } else {
        match domain_at(s, p) {
            Some(d) => match role_at(s, d, run_end(s, p, CharClass::Word) + 1) {
                Ok((t, e)) => Ok((p, t, e)),
                Err(f) => Err(f),
            },
            None => {
                proof {
                    lemma_run_end(s, p, CharClass::Word);
                    lemma_run_end(s, p, CharClass::NonWord);
                }
                let w = run_end(s, p, CharClass::Word);
                if w > p {
                    scan_type(s, w)
                } else {
                    let n = run_end(s, p, CharClass::NonWord);
                    if n > p {
                        scan_type(s, n)
                    } else {
                        Err((LineFailure::MissingDomainRole, p))
                    }
                }
            },
        }
    }
}

/// The priority spelled at `q` and where its spelling ends.
pub open spec fn priority_at(s: Seq<char>, q: int) -> Option<(SphinxPriority, int)> {
    if 0 <= q && q + 1 < s.len() && s[q] == '-' && s[q + 1] == '1' {
        Some((SphinxPriority::Omit, q + 2))
    } else if 0 <= q < s.len() && s[q] == '1' {
        Some((SphinxPriority::Standard, q + 1))
    } else if 0 <= q < s.len() && s[q] == '0' {
        Some((SphinxPriority::High, q + 1))
    } else if 0 <= q < s.len() && s[q] == '2' {
        Some((SphinxPriority::Low, q + 1))
    } else {
        None
    }
}

/// Whether `s` has a space at `i`.
pub open spec fn space_at(s: Seq<char>, i: int) -> bool {
    0 <= i < s.len() && s[i] == ' '
}

/// The parts of a record line, or why it was refused and at which character.
///
/// After the type come a space, the priority, a space, the location (a possibly
/// empty run up to the next blank), a space, and the display name, which runs to
/// the end of the line and may not hold `\r` or `\n`.
pub open spec fn parse_record(s: Seq<char>) -> Result<RecordParts, (LineFailure, int)> {
    let c0 = run_end(s, 0, CharClass::NonSpace);
    if c0 == 0 {
        Err((LineFailure::Malformed, 0))
    } else {
        match scan_type(s, c0) {
            Err(f) => Err(f),
            Ok((start, t, e)) => if !space_at(s, e) {
                Err((LineFailure::Malformed, e))
            } else {
                match priority_at(s, e + 1) {
                    None => Err((LineFailure::Malformed, e + 1)),
                    Some((prio, q)) => if !space_at(s, q) {
                        Err((LineFailure::Malformed, q))
                    } else {
                        let ue = run_end(s, q + 1, CharClass::NonSpace);
                        if !space_at(s, ue) {
                            Err((LineFailure::Malformed, ue))
                        } else {
                            let ve = run_end(s, ue + 1, CharClass::NotLineEnd);
                            if ve < s.len() {
                                Err((LineFailure::Malformed, ve))
                            } else {
                                Ok(
                                    RecordParts {
                                        name: s.take(start - 1),
                                        sphinx_type: t,
                                        priority: prio,
                                        location: s.subrange(q + 1, ue),
                                        display_name: s.subrange(ue + 1, ve),
                                    },
                                )
                            }
                        }
                    }
                }
            },
        }
    }
}

/// The message that a refused record line is reported with. The message for a
/// missing type lists the seven first domains only, though `cmake`, `http` and `sip`
/// are read as well.
pub open spec fn failure_message(f: LineFailure) -> Seq<char> {
    match f {
        LineFailure::Malformed => Seq::empty(),
        LineFailure::MissingDomainRole => "invalid missing domain:role\nexpected `std`, `py`, `c`, `rst`, `cpp`, `js`, `math`"@,
        LineFailure::EmptyRole(d) => match d {
            Domain::Std => Seq::empty(),
            Domain::C => "invalid c role"@,
            Domain::Cpp => "invalid Cpp Role"@,
            Domain::Python => "invalid python role\nexpected `attribute`, `data`, `exception`, `function`, `method`, `module`, `property`, `class`"@,
            Domain::JavaScript => "invalid Js Role"@,
            Domain::Mathematics => "invalid Math Role"@,
            Domain::ReStructuredText => "invalid rst role"@,
            Domain::Cmake => "invalid cmake role"@,
            Domain::Http => "invalid http role"@,
            Domain::Sip => "invalid sip role"@,
        },
        LineFailure::UnknownRole(d) => match d {
            Domain::Python => "invalid python role\nexpected `attribute`, `data`, `exception`, `function`, `method`, `module`, `property`, `class`"@,
            Domain::Http => "invalid expected valid http role"@,
            _ => Seq::empty(),
        },
    }
}

/// The message that a refused record line is reported with, as a new string.
pub fn failure_message_string(f: LineFailure) -> (s: String)
    ensures
        s@ == failure_message(f),
{
    let m: &str = match f {
        LineFailure::Malformed => "",
        LineFailure::MissingDomainRole => "invalid missing domain:role\nexpected `std`, `py`, `c`, `rst`, `cpp`, `js`, `math`",
        LineFailure::EmptyRole(d) => match d {
            Domain::Std => "",
            Domain::C => "invalid c role",
            Domain::Cpp => "invalid Cpp Role",
            Domain::Python => "invalid python role\nexpected `attribute`, `data`, `exception`, `function`, `method`, `module`, `property`, `class`",
            Domain::JavaScript => "invalid Js Role",
            Domain::Mathematics => "invalid Math Role",
            Domain::ReStructuredText => "invalid rst role",
            Domain::Cmake => "invalid cmake role",
            Domain::Http => "invalid http role",
            Domain::Sip => "invalid sip role",
        },
        LineFailure::UnknownRole(d) => match d {
            Domain::Python => "invalid python role\nexpected `attribute`, `data`, `exception`, `function`, `method`, `module`, `property`, `class`",
            Domain::Http => "invalid expected valid http role",
            _ => "",
        },
    };
    proof {
        reveal_strlit("");
        assert(""@ =~= Seq::<char>::empty());
    }
    m.to_owned()
}

/// Executable form of [`role_at`].
fn read_role(v: &Vec<char>, d: Domain, r: usize) -> (res: Result<(SphinxType, usize), (LineFailure, usize)>)
    requires
        r <= v@.len(),
    ensures
        match res {
            Ok((t, e)) => role_at(v@, d, r as int) == Ok::<(SphinxType, int), (LineFailure, int)>((t, e as int)) && r <= e <= v@.len(),
            Err((f, at)) => role_at(v@, d, r as int) == Err::<(SphinxType, int), (LineFailure, int)>((f, at as int)) && at <= v@.len(),
        },
{
    let e = scan_run(v, r, d.role_chars());
    if e == r && !(d == Domain::Std || d == Domain::Python) {
        return Err((LineFailure::EmptyRole(d), r));
    }
    match SphinxType::role_from_chars(d, v, r, e) {
        Some(t) => Ok((t, e)),
        None => Err((LineFailure::UnknownRole(d), r)),
    }
}

/// Reads the role of domain `d` at the start of `text`, as the role of a record line
/// is read after its `{domain}:`: the type and the number of characters that spell
/// the role, or why the role was refused.
pub fn parse_role(d: Domain, text: &str) -> (r: Result<(SphinxType, usize), LineFailure>)
    ensures
        match role_at(text@, d, 0) {
            Ok((t, e)) => r matches Ok((t2, e2)) && t2 == t && e2 == e,
            Err((f, _)) => r matches Err(f2) && f2 == f,
        },
{
    let v = chars_of(text);
    match read_role(&v, d, 0) {
        Ok((t, e)) => Ok((t, e)),
        Err((f, _)) => Err(f),
    }
}

/// Executable form of [`scan_type`].
fn find_type(v: &Vec<char>, p0: usize) -> (res: Result<(usize, SphinxType, usize), (LineFailure, usize)>)
    requires
        p0 <= v@.len(),
    ensures
        match res {
            Ok((start, t, e)) => scan_type(v@, p0 as int) == Ok::<(int, SphinxType, int), (LineFailure, int)>((start as int, t, e as int))
                && p0 <= start < e <= v@.len(),
            Err((f, at)) => scan_type(v@, p0 as int) == Err::<(int, SphinxType, int), (LineFailure, int)>((f, at as int)) && at <= v@.len(),
        },
{
    let mut p = p0;
    loop
        invariant
            p0 <= p <= v@.len(),
            scan_type(v@, p0 as int) == scan_type(v@, p as int),
        decreases v@.len() - p,
    {
        let w = scan_run(v, p, CharClass::Word);
        proof {
            lemma_run_end(v@, p as int, CharClass::Word);
        }
        if p < w && w < v.len() && v[w] == ':' {
            if let Some(d) = Domain::from_chars(v, p, w) {
                match read_role(v, d, w + 1) {
                    Ok((t, e)) => {
                        return Ok((p, t, e));
                    },
                    Err(f) => {
                        return Err(f);
                    },
                }
            }
        }
        if w > p {
            p = w;
        } else {
            let n = scan_run(v, p, CharClass::NonWord);
            if n > p {
                p = n;
            } else {
                return Err((LineFailure::MissingDomainRole, p));
            }
        }
    }
}

/// The positions of the parts of a record line.
struct RecordSpans {
    type_start: usize,
    sphinx_type: SphinxType,
    priority: SphinxPriority,
    location_start: usize,
    location_end: usize,
    display_start: usize,
}

/// Reads the priority spelled at `q`.
fn read_priority(v: &Vec<char>, q: usize) -> (res: Option<(SphinxPriority, usize)>)
    requires
        q <= v@.len(),
    ensures
        match res {
            Some((p, e)) => priority_at(v@, q as int) == Some((p, e as int)) && e <= v@.len(),
            None => priority_at(v@, q as int) is None,
        },
{
    if q < v.len() && q + 1 < v.len() && v[q] == '-' && v[q + 1] == '1' {
        Some((SphinxPriority::Omit, q + 2))
    } else if q < v.len() && v[q] == '1' {
        Some((SphinxPriority::Standard, q + 1))
    } else if q < v.len() && v[q] == '0' {
        Some((SphinxPriority::High, q + 1))
    } else if q < v.len() && v[q] == '2' {
        Some((SphinxPriority::Low, q + 1))
    } else {
        None
    }
}

/// Executable form of [`parse_record`], on positions.
fn record_spans(v: &Vec<char>) -> (res: Result<RecordSpans, (LineFailure, usize)>)
    ensures
        match res {
            Ok(sp) => {
                &&& 1 <= sp.type_start <= sp.location_start <= sp.location_end < sp.display_start <= v@.len()
                &&& parse_record(v@) matches Ok(parts)
                &&& parts.name == v@.take(sp.type_start - 1)
                &&& parts.sphinx_type == sp.sphinx_type
                &&& parts.priority == sp.priority
                &&& parts.location == v@.subrange(sp.location_start as int, sp.location_end as int)
                &&& parts.display_name == v@.subrange(sp.display_start as int, v@.len() as int)
            },
            Err((f, at)) => parse_record(v@) == Err::<RecordParts, (LineFailure, int)>((f, at as int)) && at <= v@.len(),
        },
{
    let c0 = scan_run(v, 0, CharClass::NonSpace);
    if c0 == 0 {
        return Err((LineFailure::Malformed, 0));
    }
    let (start, t, e) = match find_type(v, c0) {
        Ok(found) => found,
        Err((f, at)) => {
            return Err((f, at));
        },
    };
    if !(e < v.len() && v[e] == ' ') {
        return Err((LineFailure::Malformed, e));
    }
    let (prio, q) = match read_priority(v, e + 1) {
        Some(found) => found,
        None => {
            return Err((LineFailure::Malformed, e + 1));
        },
    };
    if !(q < v.len() && v[q] == ' ') {
        return Err((LineFailure::Malformed, q));
    }
    let ue = scan_run(v, q + 1, CharClass::NonSpace);
    if !(ue < v.len() && v[ue] == ' ') {
        return Err((LineFailure::Malformed, ue));
    }
    let ve = scan_run(v, ue + 1, CharClass::NotLineEnd);
    if ve < v.len() {
        return Err((LineFailure::Malformed, ve));
    }
    Ok(
        RecordSpans {
            type_start: start,
            sphinx_type: t,
            priority: prio,
            location_start: q + 1,
            location_end: ue,
            display_start: ue + 1,
        },
    )
}

/// What reading record line `line`, numbered `line_num`, gives: the record, or the
/// error that reports the line, the message, and the byte offset at which reading
/// stopped.
pub open spec fn record_outcome(line: Seq<char>, line_num: usize) -> Result<ReferenceView, ParseErrorView> {
    match parse_record(line) {
        Ok(parts) => Ok(
            reference_of(
                parts.name,
                parts.sphinx_type,
                parts.priority,
                parts.location,
                parts.display_name,
            ),
        ),
        Err((f, at)) => Err(
            ParseErrorView {
                input: line,
                message: failure_message(f),
                location: byte_offset(line, at) as usize,
                line_num,
            },
        ),
    }
}

/// Parses one record line, numbered `line_num` in its inventory.
///
/// A refused line is reported with the line itself, a message, and the byte offset
/// at which reading stopped.
pub fn parse_reference(line: &str, line_num: usize) -> (r: Result<SphinxReference, SphinxParseError>)
    ensures
        match record_outcome(line@, line_num) {
            Ok(view) => r matches Ok(reference) && reference@ == view,
            Err(view) => r matches Err(e) && e@ == view,
        },
        parse_record(line@) matches Err((_, at)) ==> byte_offset(line@, at) <= usize::MAX,
{
    let v = chars_of(line);
    let nbytes = line.as_bytes().len();
    match record_spans(&v) {
        Ok(sp) => {
            let name = string_of(&v, 0, sp.type_start - 1);
            let loc = string_of(&v, sp.location_start, sp.location_end);
            let disp = string_of(&v, sp.display_start, v.len());
            Ok(
                SphinxReference::new(
                    name.as_str(),
                    sp.sphinx_type,
                    sp.priority,
                    loc.as_str(),
                    disp.as_str(),
                ),
            )
        },
        Err((f, at)) => {
            let location = byte_offset_of(&v, at);
            let message = failure_message_string(f);
            Err(SphinxParseError { input: line.to_owned(), message, location, line_num })
        },
    }
}

} // verus!

verus! {

/// Whether position `p` of `s` starts a run of word characters.
pub open spec fn word_run_start(s: Seq<char>, p: int) -> bool {
    0 < p < s.len() && in_class(s[p], CharClass::Word) && !in_class(s[p - 1], CharClass::Word)
}

/// Whether every character of `s` is of class `k`.
pub open spec fn all_in_class(s: Seq<char>, k: CharClass) -> bool {
    forall|i: int| 0 <= i < s.len() ==> in_class(#[trigger] s[i], k)
}

/// A name that a record line gives back as it was written: it starts with a
/// character other than a blank, holds no line break, and after its first word no
/// run of word characters is a known domain followed by `:`.
pub open spec fn name_reads_back(name: Seq<char>) -> bool {
    &&& name.len() > 0
    &&& in_class(name[0], CharClass::NonSpace)
    &&& forall|i: int| 0 <= i < name.len() ==> #[trigger] name[i] != '\n'
    &&& forall|p: int|
        run_end(name, 0, CharClass::NonSpace) < p && #[trigger] word_run_start(name, p)
            ==> domain_at(name, p) is None
}

/// The record line `{name} {type} {priority} {location} {display name}`.
pub open spec fn record_line(
    name: Seq<char>,
    sphinx_type: SphinxType,
    priority: SphinxPriority,
    location: Seq<char>,
    display_name: Seq<char>,
) -> Seq<char> {
    name + seq![' '] + sphinx_type.name() + seq![' '] + priority.name() + seq![' '] + location
        + seq![' '] + display_name
}

/// Looking for the type from any run boundary within a name that reads back ends
/// where the name ends.
#[verifier::rlimit(50)]
#[verifier::spinoff_prover]
proof fn lemma_scan_through_name(l: Seq<char>, name: Seq<char>, p: int)
    requires
        name_reads_back(name),
        l.len() > name.len() + 1,
        l.take(name.len() as int) == name,
        l[name.len() as int] == ' ',
        in_class(l[name.len() as int + 1], CharClass::Word),
        run_end(name, 0, CharClass::NonSpace) <= p <= name.len(),
        p == run_end(name, 0, CharClass::NonSpace) || in_class(l[p], CharClass::Word) != in_class(
            l[p - 1],
            CharClass::Word,
        ),
    ensures
        scan_type(l, p) == scan_type(l, name.len() as int + 1),
    decreases name.len() + 1 - p,
{
    let a = name.len() as int;
    let c0 = run_end(name, 0, CharClass::NonSpace);
    lemma_run_end(name, 0, CharClass::NonSpace);
    lemma_run_end(l, p, CharClass::Word);
    lemma_run_end(l, p, CharClass::NonWord);
    assert(l =~= name + l.skip(a));
    assert(forall|i: int| 0 <= i < a ==> l[i] == #[trigger] name[i]);
    if in_class(l[p], CharClass::Word) {
        assert(p < a);
        assert(p != c0);
        assert(word_run_start(name, p));
        assert(domain_at(name, p) is None);
        lemma_run_end(name, p, CharClass::Word);
        lemma_run_end_prefix(name, l.skip(a), p, CharClass::Word);
        let e = run_end(name, p, CharClass::Word);
        if e < a {
            assert(l.subrange(p, e) =~= name.subrange(p, e));
        }
        assert(domain_at(l, p) is None);
        let w = run_end(l, p, CharClass::Word);
        assert(w <= a);
        assert(in_class(l[w - 1], CharClass::Word));
        lemma_scan_through_name(l, name, w);
    } else {
        assert(run_end(l, p, CharClass::Word) == p);
        assert(domain_at(l, p) is None);
        assert(in_class(l[p], CharClass::NonWord));
        let n = run_end(l, p, CharClass::NonWord);
        assert(!in_class(l[a + 1], CharClass::NonWord));
        assert(n <= a + 1);
        if n < a + 1 {
            assert(n < a);
            assert(in_class(l[n], CharClass::Word));
            assert(!in_class(l[n - 1], CharClass::Word));
            lemma_scan_through_name(l, name, n);
        }
    }
}


/// Writing the parts of a record as a line and reading the line back gives those
/// parts: the name, the type (except that `std:option` is written, and so read back,
/// as `std:cmdoption`), the priority, the location and the display name; provided
/// that the name reads back, the location holds no blank or line break, and the
/// display name holds no `\r` or `\n`.
#[verifier::rlimit(60)]
#[verifier::spinoff_prover]
pub proof fn law_record_line_reads_back(
    name: Seq<char>,
    sphinx_type: SphinxType,
    priority: SphinxPriority,
    location: Seq<char>,
    display_name: Seq<char>,
    line_num: usize,
)
    requires
        name_reads_back(name),
        all_in_class(location, CharClass::NonSpace),
        all_in_class(display_name, CharClass::NotLineEnd),
    ensures
        parse_record(record_line(name, sphinx_type, priority, location, display_name)) matches Ok(
            parts,
        ) && parts.name == name && parts.sphinx_type == sphinx_type.read_back() && parts.priority
            == priority && parts.location == location && parts.display_name == display_name,
        record_outcome(record_line(name, sphinx_type, priority, location, display_name), line_num)
            == Ok::<ReferenceView, ParseErrorView>(
            reference_of(name, sphinx_type.read_back(), priority, location, display_name),
        ),
{
    let l = record_line(name, sphinx_type, priority, location, display_name);
    let d = sphinx_type.domain();
    let dn = d.name();
    let rn = sphinx_type.role_name();
    let pn = priority.name();
    sphinx_type.lemma_name();
    let a = name.len() as int;
    let s0 = a + 1;
    let r0 = s0 + dn.len() + 1;
    let e = r0 + rn.len();
    let q0 = e + 1;
    let q = q0 + pn.len();
    let u = q + 1;
    let ue = u + location.len();
    let v = ue + 1;
    assert(l.len() == v + display_name.len());
    // the regions of the line
    assert(l.take(a) =~= name);
    assert(l[a] == ' ');
    assert(l.subrange(s0, s0 + dn.len()) =~= dn);
    assert(l[s0 + dn.len()] == ':');
    assert(l.subrange(r0, e) =~= rn);
    assert(l[e] == ' ');
    assert(l.subrange(q0, q) =~= pn);
    assert(l[q] == ' ');
    assert(l.subrange(u, ue) =~= location);
    assert(l[ue] == ' ');
    assert(l.subrange(v, l.len() as int) =~= display_name);
    assert forall|i: int| 0 <= i < dn.len() implies in_class(#[trigger] l[s0 + i], CharClass::Word) by {
        assert(l[s0 + i] == l.subrange(s0, s0 + dn.len())[i]);
    }
    // the name
    let c0 = run_end(name, 0, CharClass::NonSpace);
    lemma_run_end(name, 0, CharClass::NonSpace);
    assert(l =~= name + l.skip(a));
    lemma_run_end_prefix(name, l.skip(a), 0, CharClass::NonSpace);
    assert(run_end(l, 0, CharClass::NonSpace) == c0);
    assert(c0 > 0);
    assert(in_class(l[s0], CharClass::Word));
    lemma_scan_through_name(l, name, c0);
    // the type
    assert forall|m: int| s0 <= m < s0 + dn.len() implies in_class(#[trigger] l[m], CharClass::Word) by {
        assert(l[m] == l[s0 + (m - s0)]);
    }
    lemma_run_end_region(l, s0, s0 + dn.len(), CharClass::Word);
    assert(domain_at(l, s0) == Some(d));
    let k = d.role_class();
    assert forall|m: int| r0 <= m < e implies in_class(#[trigger] l[m], k) by {
        assert(l[m] == l.subrange(r0, e)[m - r0]);
        assert(in_class(rn[m - r0], CharClass::NonSpace));
    }
    lemma_run_end_region(l, r0, e, k);
    assert(role_at(l, d, r0) == Ok::<(SphinxType, int), (LineFailure, int)>((sphinx_type.read_back(), e)));
    assert(scan_type(l, s0) == Ok::<(int, SphinxType, int), (LineFailure, int)>((s0, sphinx_type.read_back(), e)));
    // the priority
    assert(priority_at(l, q0) == Some((priority, q))) by {
        assert(l[q0] == pn[0]);
        if pn.len() == 2 {
            assert(l[q0 + 1] == pn[1]);
        }
    }
    // the location and the display name
    assert forall|m: int| u <= m < ue implies in_class(#[trigger] l[m], CharClass::NonSpace) by {
        assert(l[m] == location[m - u]);
    }
    lemma_run_end_region(l, u, ue, CharClass::NonSpace);
    assert forall|m: int| v <= m < l.len() implies in_class(#[trigger] l[m], CharClass::NotLineEnd) by {
        assert(l[m] == display_name[m - v]);
    }
    lemma_run_end_region(l, v, l.len() as int, CharClass::NotLineEnd);
}

/// Whether a record written as its line with location and display name written out
/// reads back as itself: its name reads back, its type is not `std:option` (which is
/// written as `std:cmdoption`), its written-out location holds no blank or line break
/// and its written-out display name no `\r` or `\n`, and the written-out forms do
/// not themselves look abbreviated to a different effect (a location ending in `#$`,
/// a display name `-` other than the name).
pub open spec fn expanded_reads_back(r: ReferenceView) -> bool {
    &&& name_reads_back(r.name)
    &&& r.sphinx_type.read_back() == r.sphinx_type
    &&& all_in_class(r.expanded_location(), CharClass::NonSpace)
    &&& all_in_class(r.expanded_display_name(), CharClass::NotLineEnd)
    &&& expand_location(r.expanded_location(), r.name) == r.expanded_location()
    &&& expand_display_name(r.expanded_display_name(), r.name) == r.expanded_display_name()
}

/// Whether a record written as its line with location and display name abbreviated
/// reads back as itself: its name reads back, its type is not `std:option`, the
/// abbreviated location holds no blank or line break and the abbreviated display
/// name no `\r` or `\n`, and the abbreviations stand for what the record holds (the
/// location is `{page}#{name}` or was given abbreviated, and the display name is the
/// name or `-`).
pub open spec fn minified_reads_back(r: ReferenceView) -> bool {
    &&& name_reads_back(r.name)
    &&& r.sphinx_type.read_back() == r.sphinx_type
    &&& all_in_class(r.minified_location(), CharClass::NonSpace)
    &&& all_in_class(r.minified_display_name(), CharClass::NotLineEnd)
    &&& expand_location(r.minified_location(), r.name) == r.expanded_location()
    &&& expand_display_name(r.minified_display_name(), r.name) == r.expanded_display_name()
}

/// A record written as its line with location and display name written out
/// ([`SphinxReference::fmt_expanded`]) reads back as the same record, when it
/// [reads back](expanded_reads_back) from that form.
pub proof fn law_expanded_line_reads_back(r: ReferenceView, line_num: usize)
    requires
        expanded_reads_back(r),
    ensures
        record_outcome(r.expanded_line(), line_num) matches Ok(back) && back.same_as(r),
{
    let loc = r.expanded_location();
    let disp = r.expanded_display_name();
    assert(r.expanded_line() =~= record_line(r.name, r.sphinx_type, r.priority, loc, disp));
    law_record_line_reads_back(r.name, r.sphinx_type, r.priority, loc, disp, line_num);
    lemma_reference_of(r.name, r.sphinx_type, r.priority, loc, disp);
}

/// A record written as its line with location and display name abbreviated
/// ([`SphinxReference::fmt_minified`]) reads back as the same record, when it
/// [reads back](minified_reads_back) from that form.
pub proof fn law_minified_line_reads_back(r: ReferenceView, line_num: usize)
    requires
        minified_reads_back(r),
    ensures
        record_outcome(r.minified_line(), line_num) matches Ok(back) && back.same_as(r),
{
    let loc = r.minified_location();
    let disp = r.minified_display_name();
    assert(r.minified_line() =~= record_line(r.name, r.sphinx_type, r.priority, loc, disp));
    law_record_line_reads_back(r.name, r.sphinx_type, r.priority, loc, disp, line_num);
    lemma_reference_of(r.name, r.sphinx_type, r.priority, loc, disp);
}

/// A record line whose name holds no line break, whose location is free of blanks
/// and line breaks and whose display name holds no `\r` or `\n` holds no line break
/// and does not end with a carriage return.
pub proof fn lemma_record_line_one_line(
    name: Seq<char>,
    sphinx_type: SphinxType,
    priority: SphinxPriority,
    location: Seq<char>,
    display_name: Seq<char>,
)
    requires
        forall|i: int| 0 <= i < name.len() ==> #[trigger] name[i] != '\n',
        all_in_class(location, CharClass::NonSpace),
        all_in_class(display_name, CharClass::NotLineEnd),
    ensures
        forall|i: int|
            0 <= i < record_line(name, sphinx_type, priority, location, display_name).len()
                ==> #[trigger] record_line(name, sphinx_type, priority, location, display_name)[i]
                != '\n',
        record_line(name, sphinx_type, priority, location, display_name).last() != '\r',
{
    let l = record_line(name, sphinx_type, priority, location, display_name);
    sphinx_type.lemma_name();
    let tn = sphinx_type.name();
    let pn = priority.name();
    assert forall|i: int| 0 <= i < tn.len() implies #[trigger] tn[i] != '\n' by {
        let dl = sphinx_type.domain().name().len();
        if i < dl {
            assert(tn[i] == sphinx_type.domain().name()[i]);
            assert(in_class(sphinx_type.domain().name()[i], CharClass::Word));
        } else if i > dl {
            assert(tn[i] == sphinx_type.role_name()[i - dl - 1]);
            assert(in_class(sphinx_type.role_name()[i - dl - 1], CharClass::NonSpace));
        }
    }
    let a = name.len() as int;
    let b = a + 1 + tn.len();
    let c = b + 1 + pn.len();
    let d = c + 1 + location.len();
    assert forall|i: int| 0 <= i < l.len() implies #[trigger] l[i] != '\n' by {
        if i < a {
            assert(l[i] == name[i]);
        } else if a < i < b {
            assert(l[i] == tn[i - a - 1]);
        } else if b < i < c {
            assert(l[i] == pn[i - b - 1]);
        } else if c < i < d {
            assert(l[i] == location[i - c - 1]);
            assert(in_class(location[i - c - 1], CharClass::NonSpace));
        } else if d < i {
            assert(l[i] == display_name[i - d - 1]);
            assert(in_class(display_name[i - d - 1], CharClass::NotLineEnd));
        }
    }
    if display_name.len() > 0 {
        assert(l.last() == display_name.last());
        assert(in_class(display_name[display_name.len() - 1], CharClass::NotLineEnd));
    }
}

/// Whether a record reads back from the form in which a writer writes it.
pub open spec fn written_reads_back(r: ReferenceView, minimize: bool) -> bool {
    if minimize {
        minified_reads_back(r)
    } else {
        expanded_reads_back(r)
    }
}

/// The line of a record that reads back from the form in which it is written holds
/// no line break and does not end with a carriage return.
pub proof fn lemma_written_line_one_line(r: ReferenceView, minimize: bool)
    requires
        written_reads_back(r, minimize),
    ensures
        forall|i: int|
            0 <= i < r.written_line(minimize).len() ==> #[trigger] r.written_line(minimize)[i]
                != '\n',
        r.written_line(minimize).last() != '\r',
{
    if minimize {
        let loc = r.minified_location();
        let disp = r.minified_display_name();
        assert(r.minified_line() =~= record_line(r.name, r.sphinx_type, r.priority, loc, disp));
        lemma_record_line_one_line(r.name, r.sphinx_type, r.priority, loc, disp);
    } else {
        let loc = r.expanded_location();
        let disp = r.expanded_display_name();
        assert(r.expanded_line() =~= record_line(r.name, r.sphinx_type, r.priority, loc, disp));
        lemma_record_line_one_line(r.name, r.sphinx_type, r.priority, loc, disp);
    }
}

/// The priority of a record line is fixed by how it is spelled: a priority field `0`
/// reads as `High`, `1` as `Standard`, `2` as `Low` and `-1` as `Omit`, whatever the
/// name, type, location and display name around it (when those read back).
pub proof fn law_record_priority_spelling(
    name: Seq<char>,
    sphinx_type: SphinxType,
    text: Seq<char>,
    location: Seq<char>,
    display_name: Seq<char>,
)
    requires
        name_reads_back(name),
        all_in_class(location, CharClass::NonSpace),
        all_in_class(display_name, CharClass::NotLineEnd),
        text == seq!['-', '1'] || text == seq!['1'] || text == seq!['0'] || text == seq!['2'],
    ensures
        parse_record(
            name + seq![' '] + sphinx_type.name() + seq![' '] + text + seq![' '] + location + seq![' ']
                + display_name,
        ) matches Ok(parts) && {
            &&& text == seq!['0'] ==> parts.priority == SphinxPriority::High
            &&& text == seq!['1'] ==> parts.priority == SphinxPriority::Standard
            &&& text == seq!['2'] ==> parts.priority == SphinxPriority::Low
            &&& text == seq!['-', '1'] ==> parts.priority == SphinxPriority::Omit
        },
{
    let p = if text == seq!['0'] {
        SphinxPriority::High
    } else if text == seq!['1'] {
        SphinxPriority::Standard
    } else if text == seq!['2'] {
        SphinxPriority::Low
    } else {
        SphinxPriority::Omit
    };
    assert(p.name() == text);
    assert(seq!['0'] != seq!['1']) by {
        assert(seq!['0'][0] != seq!['1'][0]);
    }
    assert(seq!['0'] != seq!['2']) by {
        assert(seq!['0'][0] != seq!['2'][0]);
    }
    assert(seq!['1'] != seq!['2']) by {
        assert(seq!['1'][0] != seq!['2'][0]);
    }
    law_record_line_reads_back(name, sphinx_type, p, location, display_name, 0);
}

} // verus!
