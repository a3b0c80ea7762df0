//! Writing inventories: the header followed by one line per record, the body either
//! as plain text or zlib-compressed.

use vstd::prelude::*;
use vstd::slice::slice_to_vec;
use vstd::utf8::encode_utf8;

use crate::header::{header_text, HeaderView, InventoryHeader};
use crate::reference::{ReferenceView, SphinxReference};
use crate::text::{lemma_split_lines_append, push_char, split_lines};
use crate::zlib::{deflate, zlib_deflate, zlib_inflate};

verus! {

/// How the body of an inventory is stored.
#[derive(Debug, PartialEq, Eq, Clone, Copy, Structural)]
pub enum WriteFormat {
    /// As plain text; the header says `plain-text`.
    Plain,
    /// Compressed with zlib; the header says `zlib`.
    Zlib,
}

impl WriteFormat {
    /// The word that the fourth header line uses for the format.
    pub open spec fn description(self) -> Seq<char> {
        match self {
            WriteFormat::Plain => "plain-text"@,
            WriteFormat::Zlib => "zlib"@,
        }
    }
}

/// Collects records and writes them out as an inventory.
pub struct SphinxInventoryWriter {
    header: InventoryHeader,
    buffer: Vec<SphinxReference>,
}

/// The contents of a [`SphinxInventoryWriter`]: the header and the records in the
/// order they were added.
pub struct WriterView {
    pub header: HeaderView,
    pub references: Seq<ReferenceView>,
}

impl View for SphinxInventoryWriter {
    type V = WriterView;

    closed spec fn view(&self) -> WriterView {
        WriterView {
            header: self.header@,
            references: self.buffer@.map_values(|r: SphinxReference| r@),
        }
    }
}

/// The body: one line per record, each ended by `\n`, abbreviated or written out.
pub open spec fn body_text(references: Seq<ReferenceView>, minimize: bool) -> Seq<char>
    decreases references.len(),
{
    if references.len() == 0 {
        seq![]
    } else {
        body_text(references.drop_last(), minimize) + references.last().written_line(minimize)
            + seq!['\n']
    }
}

/// The header as written: the given one, with the fourth line naming the format.
pub open spec fn written_header(h: HeaderView, format: WriteFormat) -> HeaderView {
    HeaderView { compression_method_description: format.description(), ..h }
}

/// The bytes of an inventory with header `h` and the given records: the header text
/// in UTF-8, then the body in UTF-8, compressed when the format says so; `None` when
/// the zlib encoder fails on the body.
pub open spec fn inventory_bytes(
    h: HeaderView,
    references: Seq<ReferenceView>,
    format: WriteFormat,
    minimize: bool,
) -> Option<Seq<u8>> {
    let head = encode_utf8(header_text(written_header(h, format)));
    let body = encode_utf8(body_text(references, minimize));
    match format {
        WriteFormat::Plain => Some(head + body),
        WriteFormat::Zlib => match zlib_deflate(body) {
            Some(z) => Some(head + z),
            None => None,
        },
    }
}

/// A body whose record lines hold no line break cuts into those lines, one per
/// record, in order.
pub proof fn lemma_body_text_lines(references: Seq<ReferenceView>, minimize: bool)
    requires
        forall|i: int, j: int|
            0 <= i < references.len() && 0 <= j < references[i].written_line(minimize).len()
                ==> #[trigger] references[i].written_line(minimize)[j] != '\n',
    ensures
        split_lines(body_text(references, minimize), '\n') == references.map_values(
            |r: ReferenceView| r.written_line(minimize),
        ),
    decreases references.len(),
{
    if references.len() == 0 {
        assert(split_lines(Seq::<char>::empty(), '\n') =~= Seq::<Seq<char>>::empty());
        assert(references.map_values(|r: ReferenceView| r.written_line(minimize)) =~= Seq::<
            Seq<char>,
        >::empty());
    } else {
        let init = references.drop_last();
        let last = references.last();
        assert forall|i: int, j: int|
            0 <= i < init.len() && 0 <= j < init[i].written_line(minimize).len() implies #[trigger] init[i].written_line(
            minimize,
        )[j] != '\n' by {
            assert(init[i] == references[i]);
        }
        lemma_body_text_lines(init, minimize);
        let p = body_text(init, minimize);
        assert(p.len() == 0 || p.last() == '\n') by {
            if init.len() > 0 {
                assert(p.last() == '\n');
            }
        }
        assert forall|j: int| 0 <= j < last.written_line(minimize).len() implies last.written_line(
            minimize,
        )[j] != '\n' by {
            assert(last == references[references.len() - 1]);
        }
        lemma_split_lines_append(p, last.written_line(minimize), '\n');
        assert(references.map_values(|r: ReferenceView| r.written_line(minimize)) =~= init.map_values(
            |r: ReferenceView| r.written_line(minimize),
        ).push(last.written_line(minimize)));
    }
}

impl SphinxInventoryWriter {
    /// A writer for an inventory with this header and no records yet; `capacity`
    /// only preallocates room for records.
    pub fn from_header(header: InventoryHeader, capacity: usize) -> (w: Self)
        ensures
            w@.header == header@,
            w@.references == Seq::<ReferenceView>::empty(),
    {
        let w = SphinxInventoryWriter { header, buffer: Vec::with_capacity(capacity) };
        proof {
            assert(w@.references =~= Seq::<ReferenceView>::empty());
        }
        w
    }

    /// Adds a record after those added before; nothing is written yet.
    pub fn add_reference(&mut self, reference: SphinxReference)
        ensures
            final(self)@.header == old(self)@.header,
            final(self)@.references == old(self)@.references.push(reference@),
    {
        self.buffer.push(reference);
        proof {
            assert(self@.references =~= old(self)@.references.push(reference@));
        }
    }

    /// The body text: each record's line, abbreviated when `minimize` holds.
    fn body(&self, minimize: bool) -> (s: String)
        ensures
            s@ == body_text(self@.references, minimize),
    {
        let mut s = String::new();
        let mut i: usize = 0;
        proof {
            assert(self@.references.take(0) =~= Seq::<ReferenceView>::empty());
        }
        while i < self.buffer.len()
            invariant
                0 <= i <= self.buffer@.len(),
                self@.references.len() == self.buffer@.len(),
                s@ == body_text(self@.references.take(i as int), minimize),
            decreases self.buffer@.len() - i,
        {
            let line = if minimize {
                self.buffer[i].fmt_minified()
            } else {
                self.buffer[i].fmt_expanded()
            };
            s.append(line.as_str());
            push_char(&mut s, '\n');
            proof {
                let refs = self@.references;
                assert(refs.take(i + 1).drop_last() =~= refs.take(i as int));
                assert(refs.take(i + 1).last() == self.buffer@[i as int]@);
                assert(s@ =~= body_text(refs.take(i + 1), minimize));
            }
            i = i + 1;
        }
        proof {
            assert(self@.references.take(i as int) =~= self@.references);
        }
        s
    }

    /// The bytes of the inventory: the header, naming the format on its fourth line,
    /// then one line per record, abbreviated when `minimize` holds, the lines
    /// compressed with zlib when the format says so. Only compressing can fail.
    pub fn finalize(self, format: &WriteFormat, minimize: bool) -> (r: Result<
        Vec<u8>,
        std::io::Error,
    >)
        ensures
            match inventory_bytes(self@.header, self@.references, *format, minimize) {
                Some(b) => r matches Ok(bytes) && bytes@ == b,
                None => r is Err,
            },
            *format == WriteFormat::Zlib ==> (zlib_deflate(
                encode_utf8(body_text(self@.references, minimize)),
            ) matches Some(z) ==> zlib_inflate(z) == (
                encode_utf8(body_text(self@.references, minimize)),
                true,
            )),
    {
        let body = self.body(minimize);
        let mut header = self.header;
        header.compression_method_description = match format {
            WriteFormat::Plain => "plain-text".to_owned(),
            WriteFormat::Zlib => "zlib".to_owned(),
        };
        let head = header.to_string();
        proof {
            assert(header@ == written_header(self@.header, *format));
        }
        match format {
            WriteFormat::Plain => {
                let mut text = head;
                text.append(body.as_str());
                let bytes = slice_to_vec(text.as_str().as_bytes());
                proof {
                    crate::text::lemma_encode_utf8_concat(
                        header_text(header@),
                        body_text(self@.references, minimize),
                    );
                }
                Ok(bytes)
            },
            WriteFormat::Zlib => {
                let compressed = match deflate(body.as_str().as_bytes()) {
                    Ok(c) => c,
                    Err(e) => {
                        return Err(e);
                    },
                };
                let mut bytes = slice_to_vec(head.as_str().as_bytes());
                let mut tail = compressed;
                bytes.append(&mut tail);
                Ok(bytes)
            },
        }
    }
}

} // verus!
