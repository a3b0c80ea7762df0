//! The four header lines of an inventory:
//!
//! ```txt
//! # Sphinx inventory version 2
//! # Project: <project name>
//! # Version: <project version>
//! # The remainder of this file is compressed using zlib.
//! ```
//!
//! Sphinx itself skips a fixed number of bytes on each line; the rules here are a
//! little more lenient and report what is wrong with a line.

use vstd::prelude::*;

use crate::error::{MissingHeaderComponent, ParseErrorView, SphinxInvError, SphinxParseError};
use crate::text::{
    lemma_decimal, lemma_run_end_region, lemma_split_lines_first, lemma_trimmed_ends,
    is_whitespace,
    byte_offset, byte_offset_of, chars_of, in_class, contains_seq, contains_str, decimal, digits_value,
    lemma_run_end, lines_of, push_char, push_decimal, run_end, scan_run, split_lines, starts_with_at,
    strip_cr, text_lines, trim, trimmed_string, CharClass,
};

verus! {

/// The metadata of an inventory: the project it documents and how its body is stored.
#[derive(Debug, Clone)]
pub struct InventoryHeader {
    /// The display name of the project (it may hold blanks inside).
    pub project_name: String,
    /// The version of the project, without a leading `v`.
    pub project_version: String,
    /// The version of the inventory format; only 2 is supported.
    pub inventory_version: u8,
    /// How the body is stored: `zlib` or `plain-text`.
    pub compression_method_description: String,
}

/// The contents of an [`InventoryHeader`].
pub struct HeaderView {
    pub project_name: Seq<char>,
    pub project_version: Seq<char>,
    pub inventory_version: u8,
    pub compression_method_description: Seq<char>,
}

impl View for InventoryHeader {
    type V = HeaderView;

    open spec fn view(&self) -> HeaderView {
        HeaderView {
            project_name: self.project_name@,
            project_version: self.project_version@,
            inventory_version: self.inventory_version,
            compression_method_description: self.compression_method_description@,
        }
    }
}

/// The first header line: the format version.
pub open spec fn version_line_text(h: HeaderView) -> Seq<char> {
    "# Sphinx inventory version "@ + decimal(h.inventory_version as nat)
}

/// The second header line: the project name.
pub open spec fn project_line_text(h: HeaderView) -> Seq<char> {
    "# Project: "@ + h.project_name
}

/// The third header line: the project version.
pub open spec fn project_version_line_text(h: HeaderView) -> Seq<char> {
    "# Version: "@ + h.project_version
}

/// The fourth header line: how the body is stored.
pub open spec fn compression_line_text(h: HeaderView) -> Seq<char> {
    "# The remainder of this file is compressed using "@ + h.compression_method_description + "."@
}

/// The text that the four header lines make, each ended by `\n`.
pub open spec fn header_text(h: HeaderView) -> Seq<char> {
    version_line_text(h) + seq!['\n'] + project_line_text(h) + seq!['\n']
        + project_version_line_text(h) + seq!['\n'] + compression_line_text(h) + seq!['\n']
}

impl InventoryHeader {
    /// A header for version 2 of the format with a zlib-compressed body.
    pub fn new(name: &str, version: &str) -> (h: Self)
        ensures
            h@ == (HeaderView {
                project_name: name@,
                project_version: version@,
                inventory_version: 2,
                compression_method_description: "zlib"@,
            }),
    {
        InventoryHeader {
            project_name: name.to_owned(),
            project_version: version.to_owned(),
            inventory_version: 2,
            compression_method_description: "zlib".to_owned(),
        }
    }

    /// The four header lines, each ended by `\n`.
    pub fn to_string(&self) -> (s: String)
        ensures
            s@ == header_text(self@),
    {
        let mut s = String::new();
        s.append("# Sphinx inventory version ");
        push_decimal(&mut s, self.inventory_version as usize);
        push_char(&mut s, '\n');
        s.append("# Project: ");
        s.append(self.project_name.as_str());
        push_char(&mut s, '\n');
        s.append("# Version: ");
        s.append(self.project_version.as_str());
        push_char(&mut s, '\n');
        s.append("# The remainder of this file is compressed using ");
        s.append(self.compression_method_description.as_str());
        s.append(".");
        push_char(&mut s, '\n');
        proof {
            assert(s@ =~= header_text(self@));
        }
        s
    }
}

impl PartialEq for InventoryHeader {
    fn eq(&self, other: &Self) -> (b: bool) {
        self.project_name == other.project_name && self.project_version == other.project_version
            && self.inventory_version == other.inventory_version
            && self.compression_method_description == other.compression_method_description
    }
}

impl vstd::std_specs::cmp::PartialEqSpecImpl for InventoryHeader {
    open spec fn obeys_eq_spec() -> bool {
        true
    }

    open spec fn eq_spec(&self, other: &InventoryHeader) -> bool {
        self@ == other@
    }
}

/// The message for a first line with text after the version number.
pub open spec fn extra_input_message() -> Seq<char> {
    "invalid unexpected extra input\nexpected line ending"@
}

/// The message for a second line without its `# Project: ` prefix.
pub open spec fn project_prefix_message() -> Seq<char> {
    "invalid project name line prefix\nexpected `# Project: `"@
}

/// The message for a third line without its `# Version: ` prefix.
pub open spec fn version_prefix_message() -> Seq<char> {
    "invalid project version line prefix\nexpected `# Version: `"@
}

/// The message for a fourth line that names no known body encoding.
pub open spec fn compression_message() -> Seq<char> {
    "invalid compression method\nexpected `zlib`"@
}

/// The first line: some text without digits, the format version in decimal (up to
/// 255), and nothing after it but blanks. The error gives the message and the
/// character at which reading stopped.
pub open spec fn version_line(s: Seq<char>) -> Result<u8, (Seq<char>, int)> {
    let a = run_end(s, 0, CharClass::NotDigit);
    let b = run_end(s, a, CharClass::Digit);
    let c = run_end(s, b, CharClass::Blank);
    if a == 0 {
        Err((Seq::empty(), 0))
    } else if b == a {
        Err((Seq::empty(), a))
    } else if c < s.len() {
        Err((extra_input_message(), c))
    } else if digits_value(s.subrange(a, b)) > 255 {
        Err((Seq::empty(), 0))
    } else {
        Ok(digits_value(s.subrange(a, b)) as u8)
    }
}

/// A line that starts with `prefix`: the rest of it without surrounding white space.
pub open spec fn prefixed_line(s: Seq<char>, prefix: Seq<char>, message: Seq<char>) -> Result<
    Seq<char>,
    (Seq<char>, int),
> {
    if prefix.len() <= s.len() && s.take(prefix.len() as int) == prefix {
        Ok(trim(s.skip(prefix.len() as int)))
    } else {
        Err((message, 0))
    }
}

/// The fourth line: `zlib` when it mentions `zlib`, else `plain-text` when it
/// mentions `plain-text`.
pub open spec fn compression_line(s: Seq<char>) -> Result<Seq<char>, (Seq<char>, int)> {
    if contains_seq(s, "zlib"@) {
        Ok("zlib"@)
    } else if contains_seq(s, "plain-text"@) {
        Ok("plain-text"@)
    } else {
        Err((compression_message(), 0))
    }
}

/// Why the header lines could not be read.
pub enum HeaderFailure {
    /// The input ended before the given line.
    Incomplete(MissingHeaderComponent),
    /// A line was malformed.
    Line(ParseErrorView),
}

/// The error for line `line_num`, which was refused with `message` at character `at`.
pub open spec fn line_failure(line: Seq<char>, line_num: usize, message: Seq<char>, at: int) -> HeaderFailure {
    HeaderFailure::Line(
        ParseErrorView { input: line, message, location: byte_offset(line, at) as usize, line_num },
    )
}

/// The header that the first four lines describe, read line by line: a missing line
/// or a malformed one stops the reading.
pub open spec fn header_from_lines(lines: Seq<Seq<char>>) -> Result<HeaderView, HeaderFailure> {
    if lines.len() < 1 {
        Err(HeaderFailure::Incomplete(MissingHeaderComponent::InvVersion))
    } else {
        match version_line(lines[0]) {
            Err((m, at)) => Err(line_failure(lines[0], 1, m, at)),
            Ok(version) => if lines.len() < 2 {
                Err(HeaderFailure::Incomplete(MissingHeaderComponent::ProjectName))
            } else {
                match prefixed_line(lines[1], "# Project: "@, project_prefix_message()) {
                    Err((m, at)) => Err(line_failure(lines[1], 2, m, at)),
                    Ok(name) => if lines.len() < 3 {
                        Err(HeaderFailure::Incomplete(MissingHeaderComponent::ProjectVersion))
                    } else {
                        match prefixed_line(lines[2], "# Version: "@, version_prefix_message()) {
                            Err((m, at)) => Err(line_failure(lines[2], 3, m, at)),
                            Ok(project_version) => if lines.len() < 4 {
                                Err(
                                    HeaderFailure::Incomplete(
                                        MissingHeaderComponent::CompressionDescription,
                                    ),
                                )
                            } else {
                                match compression_line(lines[3]) {
                                    Err((m, at)) => Err(line_failure(lines[3], 4, m, at)),
                                    Ok(description) => Ok(
                                        HeaderView {
                                            project_name: name,
                                            project_version,
                                            inventory_version: version,
                                            compression_method_description: description,
                                        },
                                    ),
                                }
                            }
                        }
                    }
                }
            }
        }
    }
}

/// Whether `r` is what [`header_from_lines`] says.
pub open spec fn header_result_matches(
    r: Result<InventoryHeader, SphinxInvError>,
    expected: Result<HeaderView, HeaderFailure>,
) -> bool {
    match expected {
        Ok(h) => r matches Ok(header) && header@ == h,
        Err(HeaderFailure::Incomplete(c)) => r matches Err(SphinxInvError::IncompleteHeader(c2))
            && c2 == c,
        Err(HeaderFailure::Line(v)) => r matches Err(SphinxInvError::ParseError(e)) && e@ == v,
    }
}

/// Reads the first header line.
fn read_version_line(v: &Vec<char>) -> (r: Result<u8, (String, usize)>)
    ensures
        match version_line(v@) {
            Ok(n) => r == Ok::<u8, (String, usize)>(n),
            Err((m, at)) => r matches Err((m2, at2)) && m2@ == m && at2 == at && at <= v@.len(),
        },
{
    let a = scan_run(v, 0, CharClass::NotDigit);
    let b = scan_run(v, a, CharClass::Digit);
    let c = scan_run(v, b, CharClass::Blank);
    proof {
        lemma_run_end(v@, a as int, CharClass::Digit);
    }
    if a == 0 {
        return Err((String::new(), 0));
    }
    if b == a {
        return Err((String::new(), a));
    }
    if c < v.len() {
        let m = "invalid unexpected extra input\nexpected line ending".to_owned();
        return Err((m, c));
    }
    let mut value: u64 = 0;
    let mut i = a;
    while i < b
        invariant
            a <= i <= b <= v@.len(),
            0 < a < b <= c,
            c >= v@.len(),
            a == run_end(v@, 0, CharClass::NotDigit),
            b == run_end(v@, a as int, CharClass::Digit),
            c == run_end(v@, b as int, CharClass::Blank),
            forall|j: int| a <= j < b ==> in_class(#[trigger] v@[j], CharClass::Digit),
            value == digits_value(v@.subrange(a as int, i as int)),
            value <= 255,
        decreases b - i,
    {
        let d = (v[i] as u32 - '0' as u32) as u64;
        proof {
            assert(v@.subrange(a as int, i + 1).drop_last() =~= v@.subrange(a as int, i as int));
            assert(in_class(v@[i as int], CharClass::Digit));
        }
        value = value * 10 + d;
        i = i + 1;
        proof {
            let t = v@.subrange(a as int, i as int);
            assert(t.drop_last() =~= v@.subrange(a as int, i - 1));
            assert(t.last() == v@[i - 1]);
            assert(value == digits_value(t));
        }
        if value > 255 {
            proof {
                lemma_digits_value_grows(v@.subrange(a as int, b as int), i - a);
                assert(v@.subrange(a as int, b as int).take(i - a) =~= v@.subrange(
                    a as int,
                    i as int,
                ));
            }
            return Err((String::new(), 0));
        }
    }
    Ok(value as u8)
}

/// The value of a digit string is at least the value of any of its prefixes.
pub proof fn lemma_digits_value_grows(s: Seq<char>, k: int)
    requires
        0 <= k <= s.len(),
    ensures
        digits_value(s.take(k)) <= digits_value(s),
    decreases s.len() - k,
{
    if k < s.len() {
        lemma_digits_value_grows(s, k + 1);
        assert(s.take(k + 1).drop_last() =~= s.take(k));
    } else {
        assert(s.take(k) =~= s);
    }
}

/// Reads a line that starts with `prefix`.
fn read_prefixed_line(v: &Vec<char>, prefix: &str, message: &str) -> (r: Result<String, (String, usize)>)
    ensures
        match prefixed_line(v@, prefix@, message@) {
            Ok(value) => r matches Ok(s) && s@ == value,
            Err((m, at)) => r matches Err((m2, at2)) && m2@ == m && at2 == at && at <= v@.len(),
        },
{
    if starts_with_at(v, 0, prefix) {
        let n = prefix.unicode_len();
        proof {
            assert(v@.subrange(0, n as int) =~= v@.take(n as int));
            assert(v@.subrange(n as int, v@.len() as int) =~= v@.skip(n as int));
        }
        Ok(trimmed_string(v, n, v.len()))
    } else {
        proof {
            assert(v@.subrange(0, prefix@.len() as int) == v@.take(prefix@.len() as int));
        }
        Err((message.to_owned(), 0))
    }
}

/// Reads the fourth header line.
fn read_compression_line(v: &Vec<char>) -> (r: Result<String, (String, usize)>)
    ensures
        match compression_line(v@) {
            Ok(value) => r matches Ok(s) && s@ == value,
            Err((m, at)) => r matches Err((m2, at2)) && m2@ == m && at2 == at && at <= v@.len(),
        },
{
    if contains_str(v, "zlib") {
        Ok("zlib".to_owned())
    } else if contains_str(v, "plain-text") {
        Ok("plain-text".to_owned())
    } else {
        Err(("invalid compression method\nexpected `zlib`".to_owned(), 0))
    }
}

/// The error for header line `line_num`, refused with `message` at character `at`.
fn line_error(line: &String, v: &Vec<char>, line_num: usize, message: String, at: usize) -> (e: SphinxInvError)
    requires
        v@ == line@,
        at <= v@.len(),
    ensures
        e matches SphinxInvError::ParseError(p) && (HeaderFailure::Line(p@) == line_failure(
            line@,
            line_num,
            message@,
            at as int,
        )),
{
    let nbytes = line.as_str().as_bytes().len();
    let location = byte_offset_of(v, at);
    SphinxInvError::ParseError(
        SphinxParseError { input: line.clone(), message, location, line_num },
    )
}

/// Reads the header from the first four of `lines`, line by line: a missing line or
/// a malformed one stops the reading.
pub fn parse_header_lines(lines: &Vec<String>) -> (r: Result<InventoryHeader, SphinxInvError>)
    ensures
        header_result_matches(r, header_from_lines(lines@.map_values(|l: String| l@))),
{
    let ghost views = lines@.map_values(|l: String| l@);
    if lines.len() < 1 {
        return Err(SphinxInvError::IncompleteHeader(MissingHeaderComponent::InvVersion));
    }
    let v0 = chars_of(lines[0].as_str());
    let version = match read_version_line(&v0) {
        Ok(n) => n,
        Err((m, at)) => {
            return Err(line_error(&lines[0], &v0, 1, m, at));
        },
    };
    if lines.len() < 2 {
        return Err(SphinxInvError::IncompleteHeader(MissingHeaderComponent::ProjectName));
    }
    let v1 = chars_of(lines[1].as_str());
    let name = match read_prefixed_line(
        &v1,
        "# Project: ",
        "invalid project name line prefix\nexpected `# Project: `",
    ) {
        Ok(s) => s,
        Err((m, at)) => {
            return Err(line_error(&lines[1], &v1, 2, m, at));
        },
    };
    if lines.len() < 3 {
        return Err(SphinxInvError::IncompleteHeader(MissingHeaderComponent::ProjectVersion));
    }
    let v2 = chars_of(lines[2].as_str());
    let version_text = match read_prefixed_line(
        &v2,
        "# Version: ",
        "invalid project version line prefix\nexpected `# Version: `",
    ) {
        Ok(s) => s,
        Err((m, at)) => {
            return Err(line_error(&lines[2], &v2, 3, m, at));
        },
    };
    if lines.len() < 4 {
        return Err(
            SphinxInvError::IncompleteHeader(MissingHeaderComponent::CompressionDescription),
        );
    }
    let v3 = chars_of(lines[3].as_str());
    let description = match read_compression_line(&v3) {
        Ok(s) => s,
        Err((m, at)) => {
            return Err(line_error(&lines[3], &v3, 4, m, at));
        },
    };
    Ok(
        InventoryHeader {
            project_name: name,
            project_version: version_text,
            inventory_version: version,
            compression_method_description: description,
        },
    )
}

/// Reads the header at the start of `text`: the first four lines, read line by line.
pub fn parse_header(text: &str) -> (r: Result<InventoryHeader, SphinxInvError>)
    ensures
        header_result_matches(r, header_from_lines(text_lines(text@))),
{
    let lines = lines_of(text);
    parse_header_lines(&lines)
}

/// Whether a project name or version written in a header line reads back as
/// itself: it holds no line break and has no white space at either end.
pub open spec fn header_field_reads_back(s: Seq<char>) -> bool {
    &&& trim(s) == s
    &&& forall|i: int| 0 <= i < s.len() ==> #[trigger] s[i] != '\n'
}

/// Whether a header can be written and read back: its project name and version read
/// back (no line break, no white space at either end) and its body is described as
/// `zlib` or `plain-text`.
pub open spec fn header_reads_back(h: HeaderView) -> bool {
    &&& header_field_reads_back(h.project_name)
    &&& header_field_reads_back(h.project_version)
    &&& (h.compression_method_description == "zlib"@ || h.compression_method_description
        == "plain-text"@)
}

/// The four lines of a header that reads back hold no line break and do not end
/// with a carriage return.
pub proof fn lemma_header_line_texts(h: HeaderView)
    requires
        header_reads_back(h),
    ensures
        forall|i: int| 0 <= i < version_line_text(h).len() ==> #[trigger] version_line_text(h)[i] != '\n',
        forall|i: int| 0 <= i < project_line_text(h).len() ==> #[trigger] project_line_text(h)[i] != '\n',
        forall|i: int|
            0 <= i < project_version_line_text(h).len() ==> #[trigger] project_version_line_text(h)[i]
                != '\n',
        forall|i: int|
            0 <= i < compression_line_text(h).len() ==> #[trigger] compression_line_text(h)[i] != '\n',
        strip_cr(version_line_text(h)) == version_line_text(h),
        strip_cr(project_line_text(h)) == project_line_text(h),
        strip_cr(project_version_line_text(h)) == project_version_line_text(h),
        strip_cr(compression_line_text(h)) == compression_line_text(h),
{
    reveal_strlit("# Sphinx inventory version ");
    reveal_strlit("# Project: ");
    reveal_strlit("# Version: ");
    reveal_strlit("# The remainder of this file is compressed using ");
    reveal_strlit(".");
    reveal_strlit("zlib");
    reveal_strlit("plain-text");
    let l0 = version_line_text(h);
    let l1 = project_line_text(h);
    let l2 = project_version_line_text(h);
    let l3 = compression_line_text(h);
    lemma_decimal(h.inventory_version as nat);
    let p0 = "# Sphinx inventory version "@;
    let d = decimal(h.inventory_version as nat);
    assert forall|i: int| 0 <= i < l0.len() implies #[trigger] l0[i] != '\n' by {
        if i >= p0.len() {
            assert(l0[i] == d[i - p0.len()]);
            assert(in_class(d[i - p0.len()], CharClass::Digit));
        }
    }
    assert(l0.last() == d.last());
    assert(in_class(d[d.len() - 1], CharClass::Digit));
    assert forall|i: int| 0 <= i < l1.len() implies #[trigger] l1[i] != '\n' by {
        if i >= 11 {
            assert(l1[i] == h.project_name[i - 11]);
        }
    }
    assert forall|i: int| 0 <= i < l2.len() implies #[trigger] l2[i] != '\n' by {
        if i >= 11 {
            assert(l2[i] == h.project_version[i - 11]);
        }
    }
    let p3 = "# The remainder of this file is compressed using "@;
    assert forall|i: int| 0 <= i < l3.len() implies #[trigger] l3[i] != '\n' by {
        if p3.len() <= i < l3.len() - 1 {
            assert(l3[i] == h.compression_method_description[i - p3.len()]);
        }
    }
    if h.project_name.len() > 0 {
        lemma_trimmed_ends(h.project_name);
        assert(l1.last() == h.project_name.last());
    }
    if h.project_version.len() > 0 {
        lemma_trimmed_ends(h.project_version);
        assert(l2.last() == h.project_version.last());
    }
}

/// Lines that begin with the four lines of a header that reads back describe that
/// header.
pub proof fn lemma_header_lines_read(h: HeaderView, lines: Seq<Seq<char>>)
    requires
        header_reads_back(h),
        lines.len() >= 4,
        lines[0] == version_line_text(h),
        lines[1] == project_line_text(h),
        lines[2] == project_version_line_text(h),
        lines[3] == compression_line_text(h),
    ensures
        header_from_lines(lines) == Ok::<HeaderView, HeaderFailure>(h),
{
    reveal_strlit("# Sphinx inventory version ");
    reveal_strlit("# Project: ");
    reveal_strlit("# Version: ");
    reveal_strlit("# The remainder of this file is compressed using ");
    reveal_strlit(".");
    reveal_strlit("zlib");
    reveal_strlit("plain-text");
    let l0 = version_line_text(h);
    let l1 = project_line_text(h);
    let l2 = project_version_line_text(h);
    let l3 = compression_line_text(h);
    lemma_decimal(h.inventory_version as nat);
    let p0 = "# Sphinx inventory version "@;
    let d = decimal(h.inventory_version as nat);
    // the version line
    assert forall|m: int| 0 <= m < p0.len() implies in_class(#[trigger] l0[m], CharClass::NotDigit) by {
        assert(l0[m] == p0[m]);
    }
    assert(l0[p0.len() as int] == d[0]);
    lemma_run_end_region(l0, 0, p0.len() as int, CharClass::NotDigit);
    assert forall|m: int| p0.len() <= m < l0.len() implies in_class(#[trigger] l0[m], CharClass::Digit) by {
        assert(l0[m] == d[m - p0.len()]);
    }
    lemma_run_end_region(l0, p0.len() as int, l0.len() as int, CharClass::Digit);
    assert(l0.subrange(p0.len() as int, l0.len() as int) =~= d);
    assert(version_line(l0) == Ok::<u8, (Seq<char>, int)>(h.inventory_version));
    // the name and version lines
    assert(l1.take(11) =~= "# Project: "@);
    assert(l1.skip(11) =~= h.project_name);
    assert(l2.take(11) =~= "# Version: "@);
    assert(l2.skip(11) =~= h.project_version);
    // the compression line
    let p3 = "# The remainder of this file is compressed using "@;
    if h.compression_method_description == "zlib"@ {
        assert(l3.subrange(p3.len() as int, p3.len() as int + 4) =~= "zlib"@);
    } else {
        assert(l3.subrange(p3.len() as int, p3.len() as int + 10) =~= "plain-text"@);
        assert forall|m: int| 0 <= m < l3.len() implies #[trigger] l3[m] != 'z' by {
            if m < p3.len() {
                assert(l3[m] == p3[m]);
            } else if m < p3.len() + 10 {
                assert(l3[m] == h.compression_method_description[m - p3.len()]);
            }
        }
        assert forall|i: int| 0 <= i && i + 4 <= l3.len() implies #[trigger] l3.subrange(i, i + 4) != "zlib"@ by {
            assert(l3.subrange(i, i + 4)[0] == l3[i]);
        }
    }
}

/// The header lines that [`InventoryHeader::to_string`] writes, whatever follows
/// them, read back as the header written, provided that the project name and
/// version read back (no line break, no white space at either end) and the body is
/// described as `zlib` or `plain-text`.
pub proof fn law_header_text_reads_back(h: HeaderView, rest: Seq<char>)
    requires
        header_reads_back(h),
    ensures
        header_from_lines(text_lines(header_text(h) + rest)) == Ok::<HeaderView, HeaderFailure>(h),
{
    let l0 = version_line_text(h);
    let l1 = project_line_text(h);
    let l2 = project_version_line_text(h);
    let l3 = compression_line_text(h);
    let nl = seq!['\n'];
    assert(header_text(h) + rest =~= l0 + nl + (l1 + nl + (l2 + nl + (l3 + nl + rest))));
    lemma_header_line_texts(h);
    lemma_split_lines_first(l3, '\n', rest);
    lemma_split_lines_first(l2, '\n', l3 + nl + rest);
    lemma_split_lines_first(l1, '\n', l2 + nl + (l3 + nl + rest));
    lemma_split_lines_first(l0, '\n', l1 + nl + (l2 + nl + (l3 + nl + rest)));
    let lines = text_lines(header_text(h) + rest);
    assert(lines[0] == l0);
    assert(lines[1] == l1);
    assert(lines[2] == l2);
    assert(lines[3] == l3);
    lemma_header_lines_read(h, lines);
}

} // verus!
