//! Reading inventories: the header, then the records one line at a time.
//!
//! The body is read as plain text or zlib-decoded, as the fourth header line says.
//! Lines are cut as `BufRead::lines` cuts them, at each line feed, with a carriage
//! return dropped only just before a line feed; a line that is not UTF-8, or a
//! failure of the zlib decoder, is reported as an I/O error in its place.

use vstd::prelude::*;
use vstd::slice::{slice_subrange, slice_to_vec};
use vstd::utf8::{decode_utf8, encode_utf8, valid_utf8};

use crate::error::{ParseErrorView, SphinxInvError, SphinxParseError};
use crate::header::{
    compression_line_text, header_field_reads_back, header_from_lines, header_result_matches,
    header_reads_back, header_text, lemma_header_line_texts, lemma_header_lines_read, parse_header_lines,
    project_line_text, project_version_line_text, version_line_text, HeaderFailure, HeaderView,
    InventoryHeader,
};
use crate::record::{
    law_expanded_line_reads_back, law_minified_line_reads_back, lemma_written_line_one_line,
    parse_reference, record_outcome, written_reads_back,
};
use crate::reference::{ReferenceView, SphinxReference};
use crate::text::{
    chars_of, contains_seq, contains_str, find_first, find_newline_byte, lemma_encode_line,
    lemma_encode_last_newline, lemma_encode_no_newline, lemma_encode_split_lines, lemma_find_first, lemma_line_ended_first,
    lemma_line_ended_suffix, line_ended, read_line, split_lines, string_of, strip_cr, text_lines,
    utf8_to_string,
};
use crate::writer::{body_text, inventory_bytes, lemma_body_text_lines, written_header, WriteFormat};
use crate::zlib::{inflate, zlib_deflate, zlib_inflate};

verus! {

/// One line of an inventory body, as the reader meets it.
pub enum BodyLine {
    /// A line of text, without its line ending.
    Text(Seq<char>),
    /// A line whose bytes are not UTF-8.
    Undecodable,
    /// The point at which the zlib decoder failed.
    ReadFailure,
}

/// A line of bytes as `BufRead::lines` hands it on: decoded, and without one
/// trailing carriage return when a line feed ended it.
pub open spec fn decode_line(bytes: Seq<u8>, ended: bool) -> BodyLine {
    if valid_utf8(bytes) {
        BodyLine::Text(read_line(decode_utf8(bytes), ended))
    } else {
        BodyLine::Undecodable
    }
}

/// The lines of a body, followed by the failure of the decoder when it failed.
pub open spec fn body_lines(body: Seq<u8>, failed: bool) -> Seq<BodyLine> {
    split_lines(body, 10u8).map(|i: int, l: Seq<u8>| decode_line(l, line_ended(body, 10u8, i)))
        + if failed {
        seq![BodyLine::ReadFailure]
    } else {
        Seq::empty()
    }
}

/// The first `k` lines of `data`, cut at `\n` bytes, each with whether a `\n` ended
/// it.
pub open spec fn head_lines(data: Seq<u8>, k: nat) -> Seq<(Seq<u8>, bool)>
    decreases k,
{
    if k == 0 || data.len() == 0 {
        seq![]
    } else {
        let e = find_first(data, 10u8);
        if e >= data.len() {
            seq![(data, false)]
        } else {
            seq![(data.take(e), true)] + head_lines(data.skip(e + 1), (k - 1) as nat)
        }
    }
}

/// What follows the first `k` lines of `data`.
pub open spec fn after_lines(data: Seq<u8>, k: nat) -> Seq<u8>
    decreases k,
{
    if k == 0 || data.len() == 0 {
        data
    } else {
        let e = find_first(data, 10u8);
        if e >= data.len() {
            seq![]
        } else {
            after_lines(data.skip(e + 1), (k - 1) as nat)
        }
    }
}

/// The lines up to the first one that is not UTF-8, decoded as `BufRead::lines`
/// hands them on.
pub open spec fn decoded_prefix(lines: Seq<(Seq<u8>, bool)>) -> Seq<Seq<char>>
    decreases lines.len(),
{
    if lines.len() == 0 || !valid_utf8(lines[0].0) {
        seq![]
    } else {
        seq![read_line(decode_utf8(lines[0].0), lines[0].1)] + decoded_prefix(lines.drop_first())
    }
}

/// No more than `k` lines are taken.
proof fn lemma_head_lines_len(d: Seq<u8>, k: nat)
    ensures
        head_lines(d, k).len() <= k,
    decreases k,
{
    if k > 0 && d.len() > 0 {
        lemma_find_first(d, 10u8);
        let e = find_first(d, 10u8);
        if e < d.len() {
            lemma_head_lines_len(d.skip(e + 1), (k - 1) as nat);
        }
    }
}

/// What is left of `d` after its first line.
pub open spec fn after_first_line(d: Seq<u8>) -> Seq<u8> {
    if find_first(d, 10u8) < d.len() {
        d.skip(find_first(d, 10u8) + 1)
    } else {
        Seq::empty()
    }
}

/// Taking one more line: the first line of `d` comes first, and the rest are those
/// of what follows it.
proof fn lemma_head_lines_step(d: Seq<u8>, j: nat)
    requires
        d.len() > 0,
        j > 0,
    ensures
        head_lines(d, j).len() > 0,
        head_lines(d, j)[0] == (d.take(find_first(d, 10u8)), find_first(d, 10u8) < d.len()),
        head_lines(d, j).drop_first() == head_lines(after_first_line(d), (j - 1) as nat),
        after_lines(d, j) == after_lines(after_first_line(d), (j - 1) as nat),
{
    lemma_find_first(d, 10u8);
    let e = find_first(d, 10u8);
    if e >= d.len() {
        assert(d.take(e) =~= d);
        assert(head_lines(Seq::<u8>::empty(), (j - 1) as nat) =~= Seq::<(Seq<u8>, bool)>::empty());
        assert(head_lines(d, j).drop_first() =~= Seq::<(Seq<u8>, bool)>::empty());
        assert(after_lines(Seq::<u8>::empty(), (j - 1) as nat) =~= Seq::<u8>::empty());
    } else {
        assert(head_lines(d, j).drop_first() =~= head_lines(d.skip(e + 1), (j - 1) as nat));
    }
}

/// Reading one line of a body: the first pending line is that line, decoded, and
/// the lines after it are those of what follows it.
proof fn lemma_body_lines_step(d: Seq<u8>, failed: bool)
    requires
        d.len() > 0,
    ensures
        body_lines(d, failed).len() > 0,
        body_lines(d, failed)[0] == decode_line(
            d.take(find_first(d, 10u8)),
            find_first(d, 10u8) < d.len(),
        ),
        body_lines(d, failed).drop_first() == body_lines(after_first_line(d), failed),
{
    lemma_find_first(d, 10u8);
    lemma_line_ended_first(d, 10u8);
    let e = find_first(d, 10u8);
    let tail: Seq<BodyLine> = if failed {
        seq![BodyLine::ReadFailure]
    } else {
        Seq::empty()
    };
    let md = split_lines(d, 10u8).map(|i: int, l: Seq<u8>| decode_line(l, line_ended(d, 10u8, i)));
    assert(body_lines(d, failed) == md + tail);
    if e >= d.len() {
        assert(d.take(e) =~= d);
        assert(split_lines(Seq::<u8>::empty(), 10u8) =~= Seq::<Seq<u8>>::empty());
        assert(split_lines(d, 10u8) =~= seq![d]);
        assert(md =~= seq![decode_line(d, false)]);
        assert(body_lines(d, failed) =~= seq![decode_line(d, false)] + tail);
        assert(body_lines(Seq::<u8>::empty(), failed) =~= tail);
    } else {
        let rest = d.skip(e + 1);
        let first = d.take(e);
        assert(split_lines(d, 10u8) =~= seq![first] + split_lines(rest, 10u8));
        let mr = split_lines(rest, 10u8).map(
            |i: int, l: Seq<u8>| decode_line(l, line_ended(rest, 10u8, i)),
        );
        assert(body_lines(rest, failed) == mr + tail);
        assert forall|j: int| 0 <= j < mr.len() implies #[trigger] md[j + 1] == mr[j] by {
            assert(rest.len() > 0);
            assert(rest.last() == d.last());
            lemma_line_ended_suffix(d, 10u8, seq![first], rest, j);
            assert(split_lines(d, 10u8)[j + 1] == split_lines(rest, 10u8)[j]);
        }
        assert(md.drop_first() =~= mr);
        assert(md[0] == decode_line(first, true));
        assert(body_lines(d, failed).drop_first() =~= md.drop_first() + tail);
    }
}

/// `s` up to and including its last `\n`.
pub open spec fn through_last_newline(s: Seq<u8>) -> Seq<u8>
    decreases s.len(),
{
    if s.len() == 0 || s.last() == 10u8 {
        s
    } else {
        through_last_newline(s.drop_last())
    }
}

/// Why an inventory could not be opened.
pub enum OpenFailure {
    /// A header line is not UTF-8.
    Undecodable,
    /// The header is incomplete or malformed.
    Header(HeaderFailure),
    /// The format version is not 2.
    Version(u8),
    /// The body encoding is neither `zlib` nor `plain-text`.
    Compression(Seq<char>),
}

/// The state of a reader: its header, how the body was stored, the body lines still
/// to read, and the number of the last line read.
pub struct ReaderView {
    pub header: HeaderView,
    pub format: WriteFormat,
    pub pending: Seq<BodyLine>,
    pub current_line: usize,
}

/// The header of `data` after the checks of the version and the encoding.
pub open spec fn checked_header(data: Seq<u8>) -> Result<HeaderView, OpenFailure> {
    let lines = head_lines(data, 4);
    let decoded = decoded_prefix(lines);
    match header_from_lines(decoded) {
        Err(HeaderFailure::Incomplete(c)) => if decoded.len() < lines.len() {
            Err(OpenFailure::Undecodable)
        } else {
            Err(OpenFailure::Header(HeaderFailure::Incomplete(c)))
        },
        Err(f) => Err(OpenFailure::Header(f)),
        Ok(h) => if h.inventory_version != 2 {
            Err(OpenFailure::Version(h.inventory_version))
        } else if !contains_seq(h.compression_method_description, "zlib"@) && !contains_seq(
            h.compression_method_description,
            "plain-text"@,
        ) {
            Err(OpenFailure::Compression(h.compression_method_description))
        } else {
            Ok(h)
        },
    }
}

/// A reader opened on `data`: the checked header, the body lines after it (decoded
/// from zlib when the header says `zlib`), and line number 4.
pub open spec fn open_inventory(data: Seq<u8>) -> Result<ReaderView, OpenFailure> {
    match checked_header(data) {
        Err(f) => Err(f),
        Ok(h) => {
            let raw = after_lines(data, 4);
            if contains_seq(h.compression_method_description, "zlib"@) {
                let (out, ok) = zlib_inflate(raw);
                Ok(
                    ReaderView {
                        header: h,
                        format: WriteFormat::Zlib,
                        pending: body_lines(
                            if ok {
                                out
                            } else {
                                through_last_newline(out)
                            },
                            !ok,
                        ),
                        current_line: 4,
                    },
                )
            } else {
                Ok(
                    ReaderView {
                        header: h,
                        format: WriteFormat::Plain,
                        pending: body_lines(raw, false),
                        current_line: 4,
                    },
                )
            }
        },
    }
}

/// Whether `e` is the error that `f` describes.
pub open spec fn open_error_matches(e: SphinxInvError, f: OpenFailure) -> bool {
    match f {
        OpenFailure::Undecodable => e is IoError,
        OpenFailure::Header(HeaderFailure::Incomplete(c)) => e matches SphinxInvError::IncompleteHeader(
            c2,
        ) && c2 == c,
        OpenFailure::Header(HeaderFailure::Line(v)) => e matches SphinxInvError::ParseError(p)
            && p@ == v,
        OpenFailure::Version(v) => e matches SphinxInvError::UnsupportedInventoryVersion(v2) && v2
            == v,
        OpenFailure::Compression(d) => e matches SphinxInvError::UnsupportedCompressionMethod(d2)
            && d2@ == d,
    }
}

/// Whether `r` is what reading line `line` numbered `line_num` gives.
pub open spec fn line_result_matches(
    line: Seq<char>,
    line_num: usize,
    r: Result<SphinxReference, SphinxInvError>,
) -> bool {
    match record_outcome(line, line_num) {
        Ok(view) => r matches Ok(reference) && reference@ == view,
        Err(view) => r matches Err(SphinxInvError::ParseError(e)) && e@ == view,
    }
}

/// Calls `std::io::Error::new` with `ErrorKind::InvalidData` and the message that
/// `BufRead::lines` reports for a line that is not UTF-8. Nothing is stated of the
/// error value.
#[verifier::external_body]
fn invalid_utf8_error() -> std::io::Error {
    std::io::Error::new(std::io::ErrorKind::InvalidData, "stream did not contain valid UTF-8")
}

/// Turns one line, as read, into a record: a line of text is parsed as line
/// `num_line`, a read error becomes an I/O error, and no line gives nothing.
pub fn parse_line(maybe_line: Option<Result<String, std::io::Error>>, num_line: usize) -> (r: Option<
    Result<SphinxReference, SphinxInvError>,
>)
    ensures
        match maybe_line {
            None => r is None,
            Some(Err(e)) => r matches Some(Err(SphinxInvError::IoError(e2))) && e2 == e,
            Some(Ok(line)) => r matches Some(x) && line_result_matches(line@, num_line, x),
        },
{
    match maybe_line {
        Some(read_line) => match read_line {
            Ok(line) => Some(
                match parse_reference(line.as_str(), num_line) {
                    Ok(reference) => Ok(reference),
                    Err(e) => Err(SphinxInvError::ParseError(e)),
                },
            ),
            Err(err) => Some(Err(SphinxInvError::IoError(err))),
        },
        None => None,
    }
}

/// Calls `std::io::Error::new` with the kind and the message of `e`: a fresh error
/// that reports what `e` reports. Nothing is stated of the error value.
#[verifier::external_body]
fn copy_io_error(e: &std::io::Error) -> std::io::Error {
    std::io::Error::new(e.kind(), e.to_string())
}

/// Whether `r` is what reading the body line `line` as line `line_num` gives: a line
/// of text is parsed, a line that is not UTF-8 or a failure of the decoder is an
/// I/O error.
pub open spec fn item_result_matches(
    line: BodyLine,
    line_num: usize,
    r: Option<Result<SphinxReference, SphinxInvError>>,
) -> bool {
    match line {
        BodyLine::Text(t) => r matches Some(x) && line_result_matches(t, line_num, x),
        _ => r matches Some(Err(e)) && e is IoError,
    }
}

/// Whether `r` is what one call of `next` gives in state `v`: nothing once no line
/// is pending, else the first pending line read as the line after the last one read.
pub open spec fn next_result_matches(
    v: ReaderView,
    r: Option<Result<SphinxReference, SphinxInvError>>,
) -> bool {
    if v.pending.len() == 0 {
        r is None
    } else {
        item_result_matches(v.pending[0], (v.current_line + 1) as usize, r)
    }
}

/// The state after one call of `next`: one more line read, and the first pending
/// line gone, except a failure of the decoder, which stays and is reported again
/// and again, as the decoder reports it on every later read.
pub open spec fn after_next(v: ReaderView) -> ReaderView {
    ReaderView {
        current_line: (v.current_line + 1) as usize,
        pending: if v.pending.len() == 0 || v.pending[0] is ReadFailure {
            v.pending
        } else {
            v.pending.drop_first()
        },
        ..v
    }
}

/// The state after `k` calls of `next`.
pub open spec fn after_calls(v: ReaderView, k: nat) -> ReaderView
    decreases k,
{
    if k == 0 {
        v
    } else {
        after_next(after_calls(v, (k - 1) as nat))
    }
}

/// Whether none of the first `k` pending lines is a failure of the decoder.
pub open spec fn no_failure_before(pending: Seq<BodyLine>, k: int) -> bool {
    forall|j: int| 0 <= j < k && j < pending.len() ==> !(#[trigger] pending[j] is ReadFailure)
}

/// Reads inventories: first the header, then the records one by one.
#[derive(Debug)]
pub struct SphinxInventoryReader {
    header: InventoryHeader,
    format: WriteFormat,
    body: Vec<u8>,
    position: usize,
    failure: Option<std::io::Error>,
    current_line: usize,
}

impl View for SphinxInventoryReader {
    type V = ReaderView;

    closed spec fn view(&self) -> ReaderView {
        ReaderView {
            header: self.header@,
            format: self.format,
            pending: body_lines(self.body@.skip(self.position as int), self.failure is Some),
            current_line: self.current_line,
        }
    }
}

/// A line of `bytes`, decoded and without one trailing carriage return when `ended`
/// holds, or `None` when the bytes are not UTF-8.
fn decode_line_bytes(bytes: Vec<u8>, ended: bool) -> (r: Option<String>)
    ensures
        match decode_line(bytes@, ended) {
            BodyLine::Text(t) => r matches Some(s) && s@ == t,
            _ => r is None,
        },
{
    match utf8_to_string(bytes) {
        Some(s) => {
            let v = chars_of(s.as_str());
            let n = v.len();
            if ended && n > 0 && v[n - 1] == '\r' {
                proof {
                    assert(v@.subrange(0, n - 1) =~= v@.drop_last());
                }
                Some(string_of(&v, 0, n - 1))
            } else {
                proof {
                    assert(v@.subrange(0, n as int) =~= v@);
                }
                Some(string_of(&v, 0, n))
            }
        },
        None => None,
    }
}

impl SphinxInventoryReader {
    #[verifier::type_invariant]
    closed spec fn position_in_body(self) -> bool {
        self.position <= self.body@.len()
    }

    /// Opens an inventory held in `data`: reads and checks its header, and prepares
    /// the body for reading, decoding it from zlib when the header says `zlib`.
    pub fn from_bytes(data: &[u8]) -> (r: Result<SphinxInventoryReader, SphinxInvError>)
        ensures
            match open_inventory(data@) {
                Ok(view) => r matches Ok(reader) && reader@ == view,
                Err(f) => r matches Err(e) && open_error_matches(e, f),
            },
    {
        let mut lines: Vec<String> = Vec::new();
        let mut pos: usize = 0;
        let mut k: usize = 0;
        let mut undecodable = false;
        proof {
            assert(data@.skip(0) =~= data@);
        }
        loop
            invariant_except_break
                0 <= k <= 4,
                pos <= data@.len(),
                !undecodable,
                decoded_prefix(head_lines(data@, 4)) == lines@.map_values(|l: String| l@)
                    + decoded_prefix(head_lines(data@.skip(pos as int), (4 - k) as nat)),
                head_lines(data@, 4).len() == k + head_lines(
                    data@.skip(pos as int),
                    (4 - k) as nat,
                ).len(),
                lines@.len() == k,
                after_lines(data@, 4) == after_lines(data@.skip(pos as int), (4 - k) as nat),
            ensures
                pos <= data@.len(),
                lines@.len() <= 4,
                decoded_prefix(head_lines(data@, 4)) == lines@.map_values(|l: String| l@),
                undecodable ==> lines@.len() < head_lines(data@, 4).len(),
                !undecodable ==> lines@.len() == head_lines(data@, 4).len(),
                !undecodable ==> after_lines(data@, 4) == data@.subrange(
                    pos as int,
                    data@.len() as int,
                ),
            decreases 4 - k,
        {
            if !(k < 4 && pos < data.len()) {
                proof {
                    let rest = data@.skip(pos as int);
                    if k == 4 {
                        assert(head_lines(rest, 0) =~= Seq::<(Seq<u8>, bool)>::empty());
                    } else {
                        assert(rest =~= Seq::<u8>::empty());
                        assert(head_lines(rest, (4 - k) as nat) =~= Seq::<(Seq<u8>, bool)>::empty());
                        assert(after_lines(rest, (4 - k) as nat) =~= rest);
                    }
                    assert(decoded_prefix(Seq::<(Seq<u8>, bool)>::empty()) =~= Seq::<Seq<char>>::empty());
                    assert(lines@.map_values(|l: String| l@) + Seq::<Seq<char>>::empty()
                        =~= lines@.map_values(|l: String| l@));
                    assert(rest =~= data@.subrange(pos as int, data@.len() as int));
                }
                break ;
            }
            let e = find_newline_byte(data, pos);
            let ghost rest = data@.skip(pos as int);
            proof {
                lemma_find_first(rest, 10u8);
                lemma_head_lines_step(rest, (4 - k) as nat);
                assert(data@.subrange(pos as int, e as int) =~= rest.take(e - pos));
            }
            let segment = slice_to_vec(slice_subrange(data, pos, e));
            let next_pos = if e < data.len() {
                e + 1
            } else {
                e
            };
            proof {
                if e < data@.len() {
                    assert(after_first_line(rest) =~= data@.skip(next_pos as int));
                } else {
                    assert(data@.skip(next_pos as int) =~= Seq::<u8>::empty());
                    assert(after_first_line(rest) =~= data@.skip(next_pos as int));
                }
            }
            match decode_line_bytes(segment, e < data.len()) {
                Some(text) => {
                    let ghost before = lines@;
                    lines.push(text);
                    proof {
                        let h = head_lines(rest, (4 - k) as nat);
                        assert(decoded_prefix(h) == seq![text@] + decoded_prefix(h.drop_first()));
                        assert(lines@.map_values(|l: String| l@) =~= before.map_values(
                            |l: String| l@,
                        ).push(text@));
                        assert(before.map_values(|l: String| l@) + decoded_prefix(h) =~= lines@.map_values(
                            |l: String| l@,
                        ) + decoded_prefix(h.drop_first()));
                    }
                },
                None => {
                    undecodable = true;
                    proof {
                        let h = head_lines(rest, (4 - k) as nat);
                        assert(decoded_prefix(h) =~= Seq::<Seq<char>>::empty());
                        assert(lines@.map_values(|l: String| l@) + Seq::<Seq<char>>::empty()
                            =~= lines@.map_values(|l: String| l@));
                    }
                    break ;
                },
            }
            pos = next_pos;
            k = k + 1;
        }
        proof {
            lemma_head_lines_len(data@, 4);
        }
        let header = match parse_header_lines(&lines) {
            Ok(h) => h,
            Err(SphinxInvError::IncompleteHeader(c)) => {
                if undecodable {
                    return Err(SphinxInvError::IoError(invalid_utf8_error()));
                }
                return Err(SphinxInvError::IncompleteHeader(c));
            },
            Err(e) => {
                return Err(e);
            },
        };
        if header.inventory_version != 2 {
            return Err(SphinxInvError::UnsupportedInventoryVersion(header.inventory_version));
        }
        let dv = chars_of(header.compression_method_description.as_str());
        let zlib = contains_str(&dv, "zlib");
        if !zlib && !contains_str(&dv, "plain-text") {
            return Err(
                SphinxInvError::UnsupportedCompressionMethod(
                    header.compression_method_description.clone(),
                ),
            );
        }
        let raw = slice_to_vec(slice_subrange(data, pos, data.len()));
        if zlib {
            let (out, failure) = inflate(raw.as_slice());
            let body = if failure.is_none() {
                out
            } else {
                let mut n = out.len();
                proof {
                    assert(out@.take(n as int) =~= out@);
                }
                while n > 0 && out[n - 1] != 10u8
                    invariant
                        n <= out@.len(),
                        through_last_newline(out@) == through_last_newline(out@.take(n as int)),
                    decreases n,
                {
                    proof {
                        assert(out@.take(n as int).drop_last() =~= out@.take(n - 1));
                    }
                    n = n - 1;
                }
                proof {
                    assert(through_last_newline(out@.take(n as int)) == out@.take(n as int));
                    assert(out@.subrange(0, n as int) =~= out@.take(n as int));
                }
                slice_to_vec(slice_subrange(out.as_slice(), 0, n))
            };
            proof {
                assert(body@.skip(0) =~= body@);
            }
            Ok(
                SphinxInventoryReader {
                    header,
                    format: WriteFormat::Zlib,
                    body,
                    position: 0,
                    failure,
                    current_line: 4,
                },
            )
        } else {
            proof {
                assert(raw@.skip(0) =~= raw@);
            }
            Ok(
                SphinxInventoryReader {
                    header,
                    format: WriteFormat::Plain,
                    body: raw,
                    position: 0,
                    failure: None,
                    current_line: 4,
                },
            )
        }
    }

    /// The number of the last line read; the header takes lines 1 to 4.
    pub fn current_line(&self) -> (n: usize)
        ensures
            n == self@.current_line,
    {
        self.current_line
    }

    /// The header of the inventory.
    pub fn header(&self) -> (h: &InventoryHeader)
        ensures
            h@ == self@.header,
    {
        &self.header
    }

    /// Reads the next body line and parses it as the line after the last one read:
    /// `None` once the body is exhausted.
    pub fn next(&mut self) -> (r: Option<Result<SphinxReference, SphinxInvError>>)
        requires
            old(self)@.current_line < usize::MAX,
        ensures
            final(self)@ == after_next(old(self)@),
            next_result_matches(old(self)@, r),
    {
        proof {
            use_type_invariant(&*self);
        }
        self.current_line = self.current_line + 1;
        let ghost rest = self.body@.skip(self.position as int);
        let ghost failed = self.failure is Some;
        let item: Option<Result<String, std::io::Error>> = if self.position < self.body.len() {
            let e = find_newline_byte(self.body.as_slice(), self.position);
            proof {
                lemma_find_first(rest, 10u8);
                lemma_body_lines_step(rest, failed);
                assert(self.body@.subrange(self.position as int, e as int) =~= rest.take(e - self.position));
                if e < self.body@.len() {
                    assert(after_first_line(rest) =~= self.body@.skip(e + 1));
                } else {
                    assert(after_first_line(rest) =~= self.body@.skip(e as int));
                }
            }
            let segment = slice_to_vec(slice_subrange(self.body.as_slice(), self.position, e));
            if e < self.body.len() {
                self.position = e + 1;
            } else {
                self.position = e;
            }
            match decode_line_bytes(segment, e < self.body.len()) {
                Some(text) => Some(Ok(text)),
                None => Some(Err(invalid_utf8_error())),
            }
        } else {
            proof {
                assert(rest =~= Seq::<u8>::empty());
                assert(split_lines(rest, 10u8) =~= Seq::<Seq<u8>>::empty());
                assert(body_lines(rest, failed) =~= (if failed {
                    seq![BodyLine::ReadFailure]
                } else {
                    Seq::<BodyLine>::empty()
                }));
            }
            match &self.failure {
                Some(err) => Some(Err(copy_io_error(err))),
                None => None,
            }
        };
        parse_line(item, self.current_line)
    }
}

impl PartialEq for SphinxInventoryReader {
    fn eq(&self, other: &Self) -> (b: bool) {
        self.header == other.header && self.format == other.format && self.current_line
            == other.current_line
    }
}

impl vstd::std_specs::cmp::PartialEqSpecImpl for SphinxInventoryReader {
    open spec fn obeys_eq_spec() -> bool {
        true
    }

    open spec fn eq_spec(&self, other: &SphinxInventoryReader) -> bool {
        self@.header == other@.header && self@.format == other@.format && self@.current_line
            == other@.current_line
    }
}

/// Taking lines from a text that starts with a line free of the byte 10: that line
/// comes first, then the lines of what follows its `\n`.
proof fn lemma_head_lines_first(a: Seq<u8>, b: Seq<u8>, k: nat)
    requires
        forall|i: int| 0 <= i < a.len() ==> #[trigger] a[i] != 10u8,
        k > 0,
    ensures
        head_lines(a + seq![10u8] + b, k) == seq![(a, true)] + head_lines(b, (k - 1) as nat),
        after_lines(a + seq![10u8] + b, k) == after_lines(b, (k - 1) as nat),
{
    let d = a + seq![10u8] + b;
    lemma_find_first(d, 10u8);
    assert(d[a.len() as int] == 10u8);
    assert forall|j: int| 0 <= j < a.len() implies d[j] != 10u8 by {
        assert(d[j] == a[j]);
    }
    assert(find_first(d, 10u8) == a.len());
    assert(d.take(a.len() as int) =~= a);
    assert(d.skip(a.len() as int + 1) =~= b);
}

/// The body lines of a text: its lines as `BufRead::lines` yields them, each as a
/// line of text.
pub open spec fn text_body_lines(t: Seq<char>) -> Seq<BodyLine> {
    text_lines(t).map_values(|l: Seq<char>| BodyLine::Text(l))
}

/// Reading the UTF-8 encoding of a text as a body gives the text's lines.
pub proof fn lemma_encoded_body_lines(t: Seq<char>)
    ensures
        body_lines(encode_utf8(t), false) == text_body_lines(t),
{
    broadcast use vstd::utf8::encode_utf8_valid_utf8, vstd::utf8::encode_utf8_decode_utf8;

    lemma_encode_split_lines(t);
    lemma_encode_last_newline(t);
    let b = encode_utf8(t);
    let pieces = split_lines(t, '\n');
    let encoded = pieces.map_values(|l: Seq<char>| encode_utf8(l));
    let decoded = encoded.map(|i: int, l: Seq<u8>| decode_line(l, line_ended(b, 10u8, i)));
    assert(body_lines(b, false) =~= decoded);
    assert forall|i: int| 0 <= i < pieces.len() implies #[trigger] decoded[i] == text_body_lines(t)[i] by {
        assert(encoded[i] == encode_utf8(pieces[i]));
        assert(line_ended(b, 10u8, i) == line_ended(t, '\n', i));
    }
    assert(decoded =~= text_body_lines(t));
}

/// Decoding the UTF-8 encodings of lines that do not end with a carriage return
/// gives the lines back.
proof fn lemma_decoded_lines(ls: Seq<Seq<char>>)
    requires
        forall|i: int| 0 <= i < ls.len() ==> strip_cr(#[trigger] ls[i]) == ls[i],
    ensures
        decoded_prefix(ls.map_values(|l: Seq<char>| (encode_utf8(l), true))) == ls,
    decreases ls.len(),
{
    broadcast use vstd::utf8::encode_utf8_valid_utf8, vstd::utf8::encode_utf8_decode_utf8;

    let es = ls.map_values(|l: Seq<char>| (encode_utf8(l), true));
    if ls.len() > 0 {
        assert(es[0] == (encode_utf8(ls[0]), true));
        assert(strip_cr(ls[0]) == ls[0]);
        let rest = ls.drop_first();
        assert forall|i: int| 0 <= i < rest.len() implies strip_cr(#[trigger] rest[i]) == rest[i] by {
            assert(rest[i] == ls[i + 1]);
        }
        lemma_decoded_lines(rest);
        assert(es.drop_first() =~= rest.map_values(|l: Seq<char>| (encode_utf8(l), true)));
        assert(decoded_prefix(es) =~= ls);
    } else {
        assert(es.len() == 0);
        assert(decoded_prefix(es) =~= ls);
    }
}

/// The bytes of a header that reads back, followed by anything: the first four
/// lines are the encoded header lines, and what follows them is the rest.
proof fn lemma_header_bytes(h: HeaderView, rest: Seq<u8>)
    requires
        header_reads_back(h),
    ensures
        head_lines(encode_utf8(header_text(h)) + rest, 4) == seq![
            version_line_text(h),
            project_line_text(h),
            project_version_line_text(h),
            compression_line_text(h),
        ].map_values(|l: Seq<char>| (encode_utf8(l), true)),
        after_lines(encode_utf8(header_text(h)) + rest, 4) == rest,
{
    let l0 = version_line_text(h);
    let l1 = project_line_text(h);
    let l2 = project_version_line_text(h);
    let l3 = compression_line_text(h);
    let nl = seq!['\n'];
    let nb = seq![10u8];
    let empty = Seq::<char>::empty();
    assert(header_text(h) =~= l0 + nl + (l1 + nl + (l2 + nl + (l3 + nl + empty))));
    lemma_encode_line(l3, empty);
    lemma_encode_line(l2, l3 + nl + empty);
    lemma_encode_line(l1, l2 + nl + (l3 + nl + empty));
    lemma_encode_line(l0, l1 + nl + (l2 + nl + (l3 + nl + empty)));
    assert(encode_utf8(empty) =~= Seq::<u8>::empty());
    let e0 = encode_utf8(l0);
    let e1 = encode_utf8(l1);
    let e2 = encode_utf8(l2);
    let e3 = encode_utf8(l3);
    let data = encode_utf8(header_text(h)) + rest;
    assert(data =~= e0 + nb + (e1 + nb + (e2 + nb + (e3 + nb + rest))));
    lemma_header_line_texts(h);
    lemma_encode_no_newline(l0);
    lemma_encode_no_newline(l1);
    lemma_encode_no_newline(l2);
    lemma_encode_no_newline(l3);
    lemma_head_lines_first(e3, rest, 1);
    lemma_head_lines_first(e2, e3 + nb + rest, 2);
    lemma_head_lines_first(e1, e2 + nb + (e3 + nb + rest), 3);
    lemma_head_lines_first(e0, e1 + nb + (e2 + nb + (e3 + nb + rest)), 4);
    assert(head_lines(data, 4) =~= seq![(e0, true), (e1, true), (e2, true), (e3, true)]);
    assert(seq![l0, l1, l2, l3].map_values(|l: Seq<char>| (encode_utf8(l), true)) =~= seq![
        (e0, true),
        (e1, true),
        (e2, true),
        (e3, true),
    ]);
}

/// An inventory written by [`crate::writer::SphinxInventoryWriter::finalize`] opens
/// as a reader with the header as written (naming the format), the format written,
/// and, still to read from line 4 on, the lines of the body written; provided that
/// the header's name and version read back and its format version is 2, and, for a
/// compressed body, that the encoder made a stream and decoding it gives the body
/// back (as `finalize` states of any stream it made).
pub proof fn law_written_inventory_opens(
    h: HeaderView,
    references: Seq<ReferenceView>,
    format: WriteFormat,
    minimize: bool,
)
    requires
        h.inventory_version == 2,
        header_field_reads_back(h.project_name),
        header_field_reads_back(h.project_version),
        format == WriteFormat::Zlib ==> (zlib_deflate(encode_utf8(body_text(references, minimize)))
            matches Some(z) && zlib_inflate(z) == (encode_utf8(body_text(references, minimize)), true)),
    ensures
        inventory_bytes(h, references, format, minimize) matches Some(bytes) && open_inventory(bytes)
            == Ok::<ReaderView, OpenFailure>(
            ReaderView {
                header: written_header(h, format),
                format,
                pending: text_body_lines(body_text(references, minimize)),
                current_line: 4,
            },
        ),
{
    reveal_strlit("zlib");
    reveal_strlit("plain-text");
    let wh = written_header(h, format);
    let body = encode_utf8(body_text(references, minimize));
    let stored = match format {
        WriteFormat::Plain => body,
        WriteFormat::Zlib => zlib_deflate(body)->0,
    };
    let data = inventory_bytes(h, references, format, minimize)->0;
    assert(data == encode_utf8(header_text(wh)) + stored);
    let ls = seq![
        version_line_text(wh),
        project_line_text(wh),
        project_version_line_text(wh),
        compression_line_text(wh),
    ];
    lemma_header_bytes(wh, stored);
    lemma_header_line_texts(wh);
    lemma_decoded_lines(ls);
    lemma_header_lines_read(wh, ls);
    let desc = wh.compression_method_description;
    if format == WriteFormat::Zlib {
        assert(desc.subrange(0, 0int + "zlib"@.len()) =~= "zlib"@);
    } else {
        assert(desc.subrange(0, 0int + "plain-text"@.len()) =~= "plain-text"@);
        assert forall|i: int| 0 <= i && i + 4 <= desc.len() implies #[trigger] desc.subrange(i, i + 4)
            != "zlib"@ by {
            assert(desc.subrange(i, i + 4)[0] == desc[i]);
        }
    }
    assert(decoded_prefix(head_lines(data, 4)) == ls);
    assert(header_from_lines(decoded_prefix(head_lines(data, 4))) == Ok::<HeaderView, HeaderFailure>(wh));
    assert(wh.inventory_version == 2);
    assert(contains_seq(desc, "zlib"@) || contains_seq(desc, "plain-text"@));
    assert(checked_header(data) == Ok::<HeaderView, OpenFailure>(wh));
    lemma_encoded_body_lines(body_text(references, minimize));
}

/// What a reader gives back of an inventory that a writer wrote: the header as
/// written and, one line per record in the order the records were added, each record
/// the same as the one written, record `i` (from 0) being read as line `5 + i`;
/// provided that the header's name and version read back and its format version is
/// 2, that each record reads back from the form in which it is written, and, for a
/// compressed body, that the encoder made a stream and decoding it gives the body
/// back (as `finalize` states of any stream it made).
pub proof fn law_written_records_read_back(
    h: HeaderView,
    references: Seq<ReferenceView>,
    format: WriteFormat,
    minimize: bool,
)
    requires
        h.inventory_version == 2,
        header_field_reads_back(h.project_name),
        header_field_reads_back(h.project_version),
        format == WriteFormat::Zlib ==> (zlib_deflate(encode_utf8(body_text(references, minimize)))
            matches Some(z) && zlib_inflate(z) == (encode_utf8(body_text(references, minimize)), true)),
        forall|i: int| 0 <= i < references.len() ==> written_reads_back(#[trigger] references[i], minimize),
    ensures
        inventory_bytes(h, references, format, minimize) matches Some(bytes) && open_inventory(bytes)
            matches Ok(reader) && {
            &&& reader.header == written_header(h, format)
            &&& reader.format == format
            &&& reader.current_line == 4
            &&& reader.pending.len() == references.len()
            &&& forall|i: int|
                0 <= i < references.len() ==> (#[trigger] reader.pending[i] matches BodyLine::Text(line)
                    && (record_outcome(line, (5 + i) as usize) matches Ok(back) && back.same_as(references[i])))
        },
{
    law_written_inventory_opens(h, references, format, minimize);
    let body = body_text(references, minimize);
    assert forall|i: int, j: int|
        0 <= i < references.len() && 0 <= j < references[i].written_line(minimize).len() implies #[trigger] references[i].written_line(
        minimize,
    )[j] != '\n' by {
        lemma_written_line_one_line(references[i], minimize);
    }
    lemma_body_text_lines(references, minimize);
    let pending = text_body_lines(body);
    let lines = references.map_values(|r: ReferenceView| r.written_line(minimize));
    assert(pending.len() == references.len());
    assert forall|i: int| 0 <= i < references.len() implies (#[trigger] pending[i] matches BodyLine::Text(line)
        && (record_outcome(line, (5 + i) as usize) matches Ok(back) && back.same_as(references[i]))) by {
        let r = references[i];
        lemma_written_line_one_line(r, minimize);
        assert(lines[i] == r.written_line(minimize));
        assert(pending[i] == BodyLine::Text(strip_cr(r.written_line(minimize))));
        assert(strip_cr(r.written_line(minimize)) == r.written_line(minimize));
        if minimize {
            law_minified_line_reads_back(r, (5 + i) as usize);
        } else {
            law_expanded_line_reads_back(r, (5 + i) as usize);
        }
    }
}

/// Reading call by call: after `k` calls of `next` the reader is `k` lines further,
/// and, while no failure of the decoder came first, call `k + 1` reads pending line
/// `k` (from 0) as line `current_line + k + 1`, or gives nothing once the lines are
/// used up; once the decoder's failure is reached, every later call reports it.
pub proof fn law_next_reads_lines_in_order(v: ReaderView, k: nat)
    requires
        v.current_line + k <= usize::MAX,
    ensures
        after_calls(v, k).header == v.header,
        after_calls(v, k).format == v.format,
        after_calls(v, k).current_line == v.current_line + k,
        no_failure_before(v.pending, k as int) && k < v.pending.len() ==> after_calls(v, k).pending
            == v.pending.skip(k as int),
        no_failure_before(v.pending, k as int) && k >= v.pending.len() ==> after_calls(
            v,
            k,
        ).pending.len() == 0,
        forall|f: int|
            0 <= f < k && f < v.pending.len() && no_failure_before(v.pending, f)
                && #[trigger] v.pending[f] is ReadFailure ==> after_calls(v, k).pending
                == v.pending.skip(f),
        forall|r: Option<Result<SphinxReference, SphinxInvError>>|
            no_failure_before(v.pending, k as int) && k < v.pending.len() ==> (
            #[trigger] next_result_matches(after_calls(v, k), r) == item_result_matches(
                v.pending[k as int],
                (v.current_line + k + 1) as usize,
                r,
            )),
        forall|r: Option<Result<SphinxReference, SphinxInvError>>|
            no_failure_before(v.pending, k as int) && k >= v.pending.len() ==> (
            #[trigger] next_result_matches(after_calls(v, k), r) == (r is None)),
    decreases k,
{
    if k > 0 {
        let k1 = (k - 1) as nat;
        law_next_reads_lines_in_order(v, k1);
        let w = after_calls(v, k1);
        assert(after_calls(v, k) == after_next(w));
        if no_failure_before(v.pending, k as int) {
            assert(no_failure_before(v.pending, k1 as int));
            if k1 < v.pending.len() {
                assert(w.pending[0] == v.pending[k1 as int]);
                assert(!(v.pending[k1 as int] is ReadFailure));
                assert(w.pending.drop_first() =~= v.pending.skip(k as int));
            }
        }
        assert forall|f: int|
            0 <= f < k && f < v.pending.len() && no_failure_before(v.pending, f)
                && #[trigger] v.pending[f] is ReadFailure implies after_calls(v, k).pending
                == v.pending.skip(f) by {
            if f < k1 {
                assert(w.pending == v.pending.skip(f));
                assert(w.pending[0] == v.pending[f]);
            } else {
                assert(f == k1);
                assert(no_failure_before(v.pending, k1 as int));
                assert(w.pending == v.pending.skip(k1 as int));
                assert(w.pending[0] == v.pending[f]);
            }
        }
    }
}

} // verus!
