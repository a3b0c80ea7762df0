//! The errors that reading and parsing inventories report.

use vstd::prelude::*;

use crate::text::{decimal, push_char, push_decimal};

verus! {

/// `std::io::Error`, declared so that I/O errors can be carried through the
/// library; nothing is known of what one holds.
#[verifier::external_type_specification]
#[verifier::external_body]
pub struct ExIoError(std::io::Error);

/// The main error type of this crate.
#[derive(Debug)]
pub enum SphinxInvError {
    /// Reading the underlying input failed.
    IoError(std::io::Error),
    /// A header line or a record line could not be parsed.
    ParseError(SphinxParseError),
    /// The input ended before the header was complete; this is about the number of
    /// lines only, a malformed header line is a [`SphinxInvError::ParseError`].
    IncompleteHeader(MissingHeaderComponent),
    /// The inventory declares a format version other than 2.
    UnsupportedInventoryVersion(u8),
    /// The header declares a body encoding other than `zlib` and `plain-text`.
    UnsupportedCompressionMethod(String),
}

/// The header line that was missing when the input ended too early.
#[derive(Clone, Copy, Debug, PartialEq, Eq, Structural)]
pub enum MissingHeaderComponent {
    /// There was no input at all; the first line names the inventory format version.
    InvVersion,
    /// The second line, `# Project: <project name>`, was missing.
    ProjectName,
    /// The third line, `# Version: <project version>`, was missing.
    ProjectVersion,
    /// The fourth line, which names the body encoding, was missing.
    CompressionDescription,
}

/// A line that could not be parsed, where, and why.
#[derive(Debug, Clone)]
pub struct SphinxParseError {
    /// The line as it was read.
    pub input: String,
    /// What was wrong with it.
    pub message: String,
    /// The byte offset in the line at which parsing stopped.
    pub location: usize,
    /// The number of the line in the inventory, counting from 1.
    pub line_num: usize,
}

/// The contents of a [`SphinxParseError`].
pub struct ParseErrorView {
    pub input: Seq<char>,
    pub message: Seq<char>,
    pub location: usize,
    pub line_num: usize,
}

impl View for SphinxParseError {
    type V = ParseErrorView;

    open spec fn view(&self) -> ParseErrorView {
        ParseErrorView {
            input: self.input@,
            message: self.message@,
            location: self.location,
            line_num: self.line_num,
        }
    }
}

/// The rendering of a parse error: the line number, the line, a caret under the
/// offending position, and the message.
pub open spec fn render_parse_error(e: ParseErrorView) -> Seq<char> {
    "Parsing error on line "@ + decimal(e.line_num as nat) + ": \n"@ + e.input + "\n"@
        + Seq::new(e.location as nat, |i: int| ' ') + "^\n"@ + e.message
}

impl SphinxParseError {
    /// Builds a parse error from its parts.
    pub fn from_str(line: &str, message: &str, location: usize, line_num: usize) -> (e: Self)
        ensures
            e@ == (ParseErrorView { input: line@, message: message@, location, line_num }),
    {
        SphinxParseError {
            input: line.to_owned(),
            message: message.to_owned(),
            location,
            line_num,
        }
    }

    /// Renders the error for people: the line number, the line itself, a caret under
    /// the position at which parsing stopped, and the message.
    pub fn to_string(&self) -> (s: String)
        ensures
            s@ == render_parse_error(self@),
    {
        let mut s = String::new();
        s.append("Parsing error on line ");
        push_decimal(&mut s, self.line_num);
        s.append(": \n");
        s.append(self.input.as_str());
        s.append("\n");
        let ghost before = s@;
        let mut i: usize = 0;
        while i < self.location
            invariant
                0 <= i <= self.location,
                s@ == before + Seq::new(i as nat, |j: int| ' '),
            decreases self.location - i,
        {
            push_char(&mut s, ' ');
            i = i + 1;
            proof {
                assert(s@ =~= before + Seq::new(i as nat, |j: int| ' '));
            }
        }
        s.append("^\n");
        s.append(self.message.as_str());
        proof {
            assert(s@ =~= render_parse_error(self@));
        }
        s
    }
}

impl PartialEq for SphinxParseError {
    fn eq(&self, other: &Self) -> (b: bool) {
        self.input == other.input && self.message == other.message && self.location
            == other.location && self.line_num == other.line_num
    }
}

impl vstd::std_specs::cmp::PartialEqSpecImpl for SphinxParseError {
    open spec fn obeys_eq_spec() -> bool {
        true
    }

    open spec fn eq_spec(&self, other: &SphinxParseError) -> bool {
        self@ == other@
    }
}

/// Two errors are equal when they are of the same kind and carry equal values;
/// any two I/O errors count as equal.
pub open spec fn inv_error_eq(a: &SphinxInvError, b: &SphinxInvError) -> bool {
    match (a, b) {
        (SphinxInvError::IoError(_), SphinxInvError::IoError(_)) => true,
        (SphinxInvError::ParseError(x), SphinxInvError::ParseError(y)) => x@ == y@,
        (SphinxInvError::IncompleteHeader(x), SphinxInvError::IncompleteHeader(y)) => x == y,
        (
            SphinxInvError::UnsupportedInventoryVersion(x),
            SphinxInvError::UnsupportedInventoryVersion(y),
        ) => x == y,
        (
            SphinxInvError::UnsupportedCompressionMethod(x),
            SphinxInvError::UnsupportedCompressionMethod(y),
        ) => x@ == y@,
        _ => false,
    }
}

impl PartialEq for SphinxInvError {
    fn eq(&self, other: &Self) -> (b: bool) {
        match (self, other) {
            (SphinxInvError::IoError(_), SphinxInvError::IoError(_)) => true,
            (SphinxInvError::ParseError(x), SphinxInvError::ParseError(y)) => x.input == y.input
                && x.message == y.message && x.location == y.location && x.line_num
                == y.line_num,
            (SphinxInvError::IncompleteHeader(x), SphinxInvError::IncompleteHeader(y)) => *x == *y,
            (
                SphinxInvError::UnsupportedInventoryVersion(x),
                SphinxInvError::UnsupportedInventoryVersion(y),
            ) => *x == *y,
            (
                SphinxInvError::UnsupportedCompressionMethod(x),
                SphinxInvError::UnsupportedCompressionMethod(y),
            ) => *x == *y,
            _ => false,
        }
    }
}

impl vstd::std_specs::cmp::PartialEqSpecImpl for SphinxInvError {
    open spec fn obeys_eq_spec() -> bool {
        true
    }

    open spec fn eq_spec(&self, other: &SphinxInvError) -> bool {
        inv_error_eq(self, other)
    }
}

impl From<SphinxParseError> for SphinxInvError {
    fn from(e: SphinxParseError) -> (r: SphinxInvError) {
        SphinxInvError::ParseError(e)
    }
}

impl vstd::std_specs::convert::FromSpecImpl<SphinxParseError> for SphinxInvError {
    open spec fn obeys_from_spec() -> bool {
        true
    }

    open spec fn from_spec(e: SphinxParseError) -> SphinxInvError {
        SphinxInvError::ParseError(e)
    }
}

impl From<std::io::Error> for SphinxInvError {
    fn from(e: std::io::Error) -> (r: SphinxInvError) {
        SphinxInvError::IoError(e)
    }
}

impl vstd::std_specs::convert::FromSpecImpl<std::io::Error> for SphinxInvError {
    open spec fn obeys_from_spec() -> bool {
        true
    }

    open spec fn from_spec(e: std::io::Error) -> SphinxInvError {
        SphinxInvError::IoError(e)
    }
}

/// The error of reading a role from text that names no role of its domain.
#[derive(Clone, Copy, Debug, PartialEq, Eq, Structural)]
pub struct UnknownRole;

/// Why a `{domain}:{role}` text does not name a known type.
#[derive(Debug, Clone)]
pub enum MalformedReference {
    /// The text before the first `:` is not a known domain.
    InvalidDomain(String),
    /// The text has no `:` at all.
    MalformedDomainField(String),
    /// The text after the first `:` is not a role of the domain.
    InvalidRole(String),
}

} // verus!
