use vstd::prelude::*;
use vstd::slice::{slice_subrange, slice_to_vec};
use vstd::string::StringSliceAdditionalSpecFns;
use vstd::utf8::{decode_utf8, is_char_boundary, valid_utf8};
use flate2::bufread::ZlibDecoder;
use std::io::{BufRead, Read};
use crate::error::{HeaderErrorView, InvErrorView, InvalidHeaderError, SphinxInvError};
use crate::text::{
    chars_of, drop_chars, find_byte, find_char, find_text, lemma_next_index_of, line_text,
    lines, lines_from, next_index_of, parse_usize, parse_usize_spec, string_of, string_of_range,
    trim, trim_bounds, contains_text,
};
use crate::types::{outcome, parse_record_chars, parse_record_spec, ExternalSphinxRef, SphinxRefView};

verus! {

/// The format version that an inventory's first line announces.
#[derive(Debug, Clone, Copy, PartialEq, Eq, Structural)]
pub enum SphinxInvVersion {
    V1,
    V2,
}

/// What zlib decompression of `data` gives, as `flate2`'s `ZlibDecoder` reads
/// it to the end; `None` when the decoder reports an error.
pub uninterp spec fn zlib_inflate(data: Seq<u8>) -> Option<Seq<u8>>;

/// Decompresses `data` with `flate2::bufread::ZlibDecoder`, reading it to the
/// end. The result, and whether there is one, depend on `data` alone; this
/// is all that is claimed of the decoder.
#[verifier::external_body]
fn zlib_decompress(data: &[u8]) -> (r: Result<Vec<u8>, std::io::Error>)
    ensures
        match r {
            Ok(v) => zlib_inflate(data@) == Some(v@),
            Err(_) => zlib_inflate(data@) is None,
        },
{
    let mut decoder = ZlibDecoder::new(data);
    let mut out = Vec::new();
    decoder.read_to_end(&mut out).map(|_| out)
}

/// `String::from_utf8`: the text that `bytes` encode in UTF-8, or an error
/// when they are not valid UTF-8.
#[verifier::external_body]
fn string_from_utf8(bytes: Vec<u8>) -> (r: Result<String, std::string::FromUtf8Error>)
    ensures
        match r {
            Ok(s) => valid_utf8(bytes@) && s@ == decode_utf8(bytes@),
            Err(_) => !valid_utf8(bytes@),
        },
{
    String::from_utf8(bytes)
}

/// `BufRead::read_line` over the bytes of one line, whose only `\n` can be
/// its last byte: the line as text, or, when the bytes are not valid UTF-8,
/// the `io::Error` (of kind `InvalidData`) that `read_line` reports. Reading
/// from a byte slice fails in no other way.
#[verifier::external_body]
fn read_line_of(line: &[u8]) -> (r: Result<String, std::io::Error>)
    requires
        forall|i: int| 0 <= i < line@.len() - 1 ==> line@[i] != 10u8,
    ensures
        match r {
            Ok(s) => valid_utf8(line@) && s@ == decode_utf8(line@),
            Err(_) => !valid_utf8(line@),
        },
{
    let mut text = String::new();
    let mut source = line;
    source.read_line(&mut text).map(|_| text)
}

/// The bytes of an inventory file with a read position: the lines of its
/// header are read one by one, the compressed rest in one piece.
pub struct InvReader {
    data: Vec<u8>,
    pos: usize,
}

impl InvReader {
    #[verifier::type_invariant]
    spec fn inv(self) -> bool {
        self.pos <= self.data@.len()
    }

    /// A reader at the start of `data`.
    pub fn new(data: Vec<u8>) -> (r: InvReader)
        ensures
            r@ == data@,
    {
        let r = InvReader { data, pos: 0 };
        assert(r.data@.subrange(0, r.data@.len() as int) =~= r.data@);
        r
    }

    /// Reads one line, its `\n` included, with `BufRead::read_line`; at the
    /// end of the data the line is empty, and a line that is not valid UTF-8
    /// gives `read_line`'s `io::Error`. The line is consumed either way.
    pub fn read_line(&mut self) -> (r: Result<String, SphinxInvError>)
        ensures
            final(self)@ == old(self)@.skip(line_len(old(self)@)),
            match r {
                Ok(s) => first_line(old(self)@) == Some(s@),
                Err(e) => first_line(old(self)@) is None && e@ == InvErrorView::IoError,
            },
    {
        proof {
            use_type_invariant(&*self);
        }
        let ghost rest = self@;
        let n = self.data.len();
        let k = find_byte(self.data.as_slice(), 10u8, self.pos);
        let end = if k < n { k + 1 } else { n };
        proof {
            lemma_next_index_of(self.data@, 10u8, self.pos as int);
            lemma_rest_line_end(self.data@, self.pos as int);
        }
        let bytes = slice_subrange(self.data.as_slice(), self.pos, end);
        assert(bytes@ =~= rest.take(line_len(rest)));
        assert forall|i: int| 0 <= i < bytes@.len() - 1 implies bytes@[i] != 10u8 by {
            assert(bytes@[i] == self.data@[self.pos + i]);
        }
        let r = read_line_of(bytes);
        self.pos = end;
        assert(self@ =~= rest.skip(line_len(rest)));
        match r {
            Ok(s) => Ok(s),
            Err(e) => Err(SphinxInvError::IoError(e)),
        }
    }

    /// A second reader over a copy of the remaining bytes.
    fn probe(&self) -> (r: InvReader)
        ensures
            r@ == self@,
    {
        proof {
            use_type_invariant(self);
        }
        InvReader::new(slice_to_vec(slice_subrange(self.data.as_slice(), self.pos, self.data.len())))
    }

    /// Reads all the remaining bytes.
    fn read_rest(&mut self) -> (r: Vec<u8>)
        ensures
            r@ == old(self)@,
            final(self)@ == Seq::<u8>::empty(),
    {
        proof {
            use_type_invariant(&*self);
        }
        let n = self.data.len();
        let r = slice_to_vec(slice_subrange(self.data.as_slice(), self.pos, n));
        self.pos = n;
        r
    }
}

impl View for InvReader {
    type V = Seq<u8>;

    /// The bytes not read yet.
    closed spec fn view(&self) -> Seq<u8> {
        self.data@.subrange(self.pos as int, self.data@.len() as int)
    }
}

proof fn lemma_rest_line_end(data: Seq<u8>, pos: int)
    requires
        0 <= pos <= data.len(),
    ensures
        ({
            let rest = data.subrange(pos, data.len() as int);
            let k = next_index_of(data, 10u8, pos);
            &&& next_index_of(rest, 10u8, 0) == k - pos
            &&& line_len(rest) == if k < data.len() { k + 1 - pos } else { data.len() - pos }
        }),
    decreases data.len() - pos,
{
    let rest = data.subrange(pos, data.len() as int);
    lemma_next_index_of(data, 10u8, pos);
    lemma_next_index_of(rest, 10u8, 0);
    let k = next_index_of(data, 10u8, pos);
    let j = next_index_of(rest, 10u8, 0);
    if j < k - pos {
        assert(data[pos + j] == rest[j]);
    } else if j > k - pos {
        assert(rest[k - pos] == data[k]);
    }
}

/// The length of the first line of `rest`, its `\n` included.
pub open spec fn line_len(rest: Seq<u8>) -> int {
    let k = next_index_of(rest, 10u8, 0);
    if k < rest.len() {
        k + 1
    } else {
        rest.len() as int
    }
}

/// The bytes of the first line of `rest`, its `\n` included.
pub open spec fn line_bytes(rest: Seq<u8>) -> Seq<u8> {
    rest.take(line_len(rest))
}

/// `rest` after its first line.
pub open spec fn after_line(rest: Seq<u8>) -> Seq<u8> {
    rest.skip(line_len(rest))
}

/// The first line of `rest` as text, when it is valid UTF-8.
pub open spec fn first_line(rest: Seq<u8>) -> Option<Seq<char>> {
    if valid_utf8(line_bytes(rest)) {
        Some(decode_utf8(line_bytes(rest)))
    } else {
        None
    }
}

/// The version text of a first line: what follows its first 27 characters
/// (`# Sphinx inventory version `), trimmed.
pub open spec fn version_text(line: Seq<char>) -> Seq<char> {
    trim(drop_chars(line, 27))
}

/// What the first line `line` of an inventory says of its version.
pub open spec fn version_of(line: Seq<char>) -> Result<SphinxInvVersion, InvErrorView> {
    let n = parse_usize_spec(version_text(line));
    if n == Some(1usize) {
        Ok(SphinxInvVersion::V1)
    } else if n == Some(2usize) {
        Ok(SphinxInvVersion::V2)
    } else {
        Err(InvErrorView::InvalidHeaderError(HeaderErrorView::InvalidSphinxVerison(version_text(line))))
    }
}

/// What reading the version line at the start of `rest` gives.
pub open spec fn version_spec(rest: Seq<u8>) -> Result<SphinxInvVersion, InvErrorView> {
    match first_line(rest) {
        None => Err(InvErrorView::IoError),
        Some(line) => version_of(line),
    }
}

/// Reads the line that announces the format version.
pub fn parse_inv_version(reader: &mut InvReader) -> (r: Result<SphinxInvVersion, SphinxInvError>)
    ensures
        final(reader)@ == after_line(old(reader)@),
        match r {
            Ok(v) => version_spec(old(reader)@) == Ok::<SphinxInvVersion, InvErrorView>(v),
            Err(e) => version_spec(old(reader)@) == Err::<SphinxInvVersion, InvErrorView>(e@),
        },
{
    let line = match reader.read_line() {
        Ok(l) => l,
        Err(e) => return Err(e),
    };
    let cs = chars_of(line.as_str());
    let n = cs.len();
    let start = if n <= 27 { n } else { 27 };
    let tail = slice_subrange(cs.as_slice(), start, n);
    assert(tail@ =~= drop_chars(line@, 27));
    let (lo, hi) = trim_bounds(tail);
    let v = slice_subrange(tail, lo, hi);
    match parse_usize(v) {
        Some(1) => Ok(SphinxInvVersion::V1),
        Some(2) => Ok(SphinxInvVersion::V2),
        _ => Err(SphinxInvError::InvalidHeaderError(InvalidHeaderError::InvalidSphinxVerison(string_of(v)))),
    }
}

/// The first line of `rest` can be cut after its first 11 bytes (the width
/// of `# Project: ` and of `# Version: `), when it is valid UTF-8.
pub open spec fn field_line_splits(rest: Seq<u8>) -> bool {
    valid_utf8(line_bytes(rest)) ==> line_bytes(rest).len() >= 11 && is_char_boundary(
        line_bytes(rest),
        11,
    )
}

/// What reading a `# Project: ` or `# Version: ` line at the start of `rest`
/// gives: the text after its first 11 bytes, trimmed.
pub open spec fn field_spec(rest: Seq<u8>) -> Result<Seq<char>, InvErrorView> {
    if valid_utf8(line_bytes(rest)) {
        Ok(trim(decode_utf8(line_bytes(rest).skip(11))))
    } else {
        Err(InvErrorView::IoError)
    }
}

fn parse_inv_field(reader: &mut InvReader) -> (r: Result<String, SphinxInvError>)
    requires
        field_line_splits(old(reader)@),
    ensures
        final(reader)@ == after_line(old(reader)@),
        match r {
            Ok(s) => field_spec(old(reader)@) == Ok::<Seq<char>, InvErrorView>(s@),
            Err(e) => field_spec(old(reader)@) == Err::<Seq<char>, InvErrorView>(e@),
        },
{
    let ghost rest = reader@;
    let line = match reader.read_line() {
        Ok(l) => l,
        Err(e) => return Err(e),
    };
    let s = line.as_str();
    proof {
        vstd::utf8::decode_utf8_encode_utf8(line_bytes(rest));
    }
    assert(s.spec_bytes() == line_bytes(rest));
    let (_, tail) = s.split_at(11);
    proof {
        vstd::utf8::encode_utf8_decode_utf8(tail@);
        assert(tail.spec_bytes() =~= line_bytes(rest).skip(11));
    }
    let cs = chars_of(tail);
    let (lo, hi) = trim_bounds(cs.as_slice());
    Ok(string_of_range(cs.as_slice(), lo, hi))
}

/// Reads the `# Project: ` line.
pub fn parse_inv_project_name(reader: &mut InvReader) -> (r: Result<String, SphinxInvError>)
    requires
        field_line_splits(old(reader)@),
    ensures
        final(reader)@ == after_line(old(reader)@),
        match r {
            Ok(s) => field_spec(old(reader)@) == Ok::<Seq<char>, InvErrorView>(s@),
            Err(e) => field_spec(old(reader)@) == Err::<Seq<char>, InvErrorView>(e@),
        },
{
    parse_inv_field(reader)
}

/// Reads the `# Version: ` line.
pub fn parse_inv_project_version(reader: &mut InvReader) -> (r: Result<String, SphinxInvError>)
    requires
        field_line_splits(old(reader)@),
    ensures
        final(reader)@ == after_line(old(reader)@),
        match r {
            Ok(s) => field_spec(old(reader)@) == Ok::<Seq<char>, InvErrorView>(s@),
            Err(e) => field_spec(old(reader)@) == Err::<Seq<char>, InvErrorView>(e@),
        },
{
    parse_inv_field(reader)
}

/// The header of `rest` can be read without a cut inside a character: when
/// the version line announces version 2, the project line can be cut, and so
/// can the version line that follows when the project line is valid UTF-8.
pub open spec fn header_splits(rest: Seq<u8>) -> bool {
    version_spec(rest) == Ok::<SphinxInvVersion, InvErrorView>(SphinxInvVersion::V2) ==> {
        &&& field_line_splits(after_line(rest))
        &&& valid_utf8(line_bytes(after_line(rest))) ==> field_line_splits(
            after_line(after_line(rest)),
        )
    }
}

/// Whether the first line of the reader's rest can be cut as
/// `field_line_splits` asks; nothing is consumed.
fn field_line_fits(reader: &InvReader) -> (r: bool)
    ensures
        r == field_line_splits(reader@),
{
    proof {
        use_type_invariant(reader);
    }
    let n = reader.data.len();
    assert(reader@.len() <= n);
    let mut p = reader.probe();
    let ghost rest = p@;
    proof {
        lemma_next_index_of(rest, 10u8, 0);
    }
    match p.read_line() {
        Err(_) => true,
        Ok(line) => {
            let s = line.as_str();
            proof {
                vstd::utf8::decode_utf8_encode_utf8(line_bytes(rest));
            }
            assert(s.spec_bytes() == line_bytes(rest));
            s.len() >= 11 && s.is_char_boundary(11)
        },
    }
}

/// Whether the header at the start of the reader's rest meets
/// `header_splits`; nothing is consumed.
pub fn header_fits(reader: &InvReader) -> (r: bool)
    ensures
        r == header_splits(reader@),
{
    let mut p = reader.probe();
    match parse_inv_version(&mut p) {
        Ok(SphinxInvVersion::V2) => {},
        _ => return true,
    }
    if !field_line_fits(&p) {
        return false;
    }
    let ghost r1 = p@;
    match p.read_line() {
        Err(_) => true,
        Ok(_) => field_line_fits(&p),
    }
}

/// What reading the four header lines at the start of `rest` gives: the
/// version, which must be 2, the project's name and version, and a line that
/// must mention `zlib`.
pub open spec fn header_spec(rest: Seq<u8>) -> Result<
    (SphinxInvVersion, Seq<char>, Seq<char>),
    InvErrorView,
> {
    let r1 = after_line(rest);
    let r2 = after_line(r1);
    let r3 = after_line(r2);
    match version_spec(rest) {
        Err(e) => Err(e),
        Ok(v) => if v != SphinxInvVersion::V2 {
            Err(InvErrorView::InvalidHeaderError(HeaderErrorView::UnsupportedSphinxVersion(v)))
        } else {
            match field_spec(r1) {
                Err(e) => Err(e),
                Ok(name) => match field_spec(r2) {
                    Err(e) => Err(e),
                    Ok(version) => match first_line(r3) {
                        None => Err(InvErrorView::IoError),
                        Some(w) => if contains_text(w, "zlib"@) {
                            Ok((v, name, version))
                        } else {
                            Err(
                                InvErrorView::InvalidHeaderError(
                                    HeaderErrorView::InvalidCompressionMethod(w),
                                ),
                            )
                        },
                    },
                },
            }
        },
    }
}

/// What is left of `rest` once the header has been read, or once reading it
/// stopped at a refused line.
pub open spec fn header_rest(rest: Seq<u8>) -> Seq<u8> {
    let r1 = after_line(rest);
    let r2 = after_line(r1);
    let r3 = after_line(r2);
    if version_spec(rest) != Ok::<SphinxInvVersion, InvErrorView>(SphinxInvVersion::V2) {
        r1
    } else if field_spec(r1) is Err {
        r2
    } else if field_spec(r2) is Err {
        r3
    } else {
        after_line(r3)
    }
}

/// Reads the four lines of the header.
pub fn parse_sphinx_inv_header(reader: &mut InvReader) -> (r: Result<
    (SphinxInvVersion, String, String),
    SphinxInvError,
>)
    requires
        header_splits(old(reader)@),
    ensures
        final(reader)@ == header_rest(old(reader)@),
        match r {
            Ok((v, name, version)) => header_spec(old(reader)@) == Ok::<
                (SphinxInvVersion, Seq<char>, Seq<char>),
                InvErrorView,
            >((v, name@, version@)),
            Err(e) => header_spec(old(reader)@) == Err::<
                (SphinxInvVersion, Seq<char>, Seq<char>),
                InvErrorView,
            >(e@),
        },
{
    let inv_version = match parse_inv_version(reader) {
        Ok(v) => v,
        Err(e) => return Err(e),
    };
    if inv_version != SphinxInvVersion::V2 {
        return Err(
            SphinxInvError::InvalidHeaderError(
                InvalidHeaderError::UnsupportedSphinxVersion(inv_version),
            ),
        );
    }
    let inv_project_name = match parse_inv_project_name(reader) {
        Ok(s) => s,
        Err(e) => return Err(e),
    };
    let inv_project_version = match parse_inv_project_version(reader) {
        Ok(s) => s,
        Err(e) => return Err(e),
    };
    let warning_header = match reader.read_line() {
        Ok(s) => s,
        Err(e) => return Err(e),
    };
    let w = chars_of(warning_header.as_str());
    if !find_text(w.as_slice(), "zlib") {
        return Err(
            SphinxInvError::InvalidHeaderError(
                InvalidHeaderError::InvalidCompressionMethod(warning_header),
            ),
        );
    }
    Ok((inv_version, inv_project_name, inv_project_version))
}

/// What decompressing and decoding the bytes `rest` gives.
pub open spec fn inflate_spec(rest: Seq<u8>) -> Result<Seq<char>, InvErrorView> {
    match zlib_inflate(rest) {
        None => Err(InvErrorView::IoError),
        Some(b) => if valid_utf8(b) {
            Ok(decode_utf8(b))
        } else {
            Err(InvErrorView::Utf8ParseError)
        },
    }
}

/// Reads all the remaining bytes, decompresses them with zlib and decodes
/// them as UTF-8 text.
pub fn decompress_remaining_zlib_data(reader: &mut InvReader) -> (r: Result<String, SphinxInvError>)
    ensures
        final(reader)@ == Seq::<u8>::empty(),
        match r {
            Ok(s) => inflate_spec(old(reader)@) == Ok::<Seq<char>, InvErrorView>(s@),
            Err(e) => inflate_spec(old(reader)@) == Err::<Seq<char>, InvErrorView>(e@),
        },
{
    let compressed_data = reader.read_rest();
    let decompressed_data = match zlib_decompress(compressed_data.as_slice()) {
        Ok(d) => d,
        Err(e) => return Err(SphinxInvError::IoError(e)),
    };
    match string_from_utf8(decompressed_data) {
        Ok(s) => Ok(s),
        Err(e) => Err(SphinxInvError::Utf8ParseError(e)),
    }
}

/// The entries of the records that were read.
pub open spec fn ok_records(rs: Seq<Result<SphinxRefView, crate::error::RecordErrorView>>) -> Seq<SphinxRefView>
    decreases rs.len(),
{
    if rs.len() == 0 {
        Seq::empty()
    } else {
        let before = ok_records(rs.drop_last());
        match rs.last() {
            Ok(v) => before.push(v),
            Err(_) => before,
        }
    }
}

/// Reads every line of `text` as a record, in order.
pub fn parse_records(text: &str) -> (r: Vec<Result<ExternalSphinxRef, crate::error::RecordParseError>>)
    ensures
        r@.map_values(|x: Result<ExternalSphinxRef, crate::error::RecordParseError>| outcome(x))
            == lines(text@).map_values(|l: Seq<char>| parse_record_spec(l)),
{
    let cs = chars_of(text);
    let s = cs.as_slice();
    let n = s.len();
    let mut out: Vec<Result<ExternalSphinxRef, crate::error::RecordParseError>> = Vec::new();
    let mut pos: usize = 0;
    while pos < n
        invariant
            s@ == text@,
            n == s@.len(),
            pos <= n,
            out@.map_values(|x: Result<ExternalSphinxRef, crate::error::RecordParseError>| outcome(x))
                + lines_from(s@, pos as int).map_values(|l: Seq<char>| parse_record_spec(l))
                == lines(s@).map_values(|l: Seq<char>| parse_record_spec(l)),
        decreases n - pos,
    {
        let e = find_char(s, '\n', pos);
        proof {
            lemma_next_index_of(s@, '\n', pos as int);
        }
        let hi = if e < n && e > pos && s[e - 1] == '\r' { e - 1 } else { e };
        let line = slice_subrange(s, pos, hi);
        assert(line@ =~= line_text(s@, pos as int));
        let rec = parse_record_chars(line);
        let ghost before = out@;
        out.push(rec);
        proof {
            let f = |x: Result<ExternalSphinxRef, crate::error::RecordParseError>| outcome(x);
            let g = |l: Seq<char>| parse_record_spec(l);
            assert(out@.map_values(f) =~= before.map_values(f).push(outcome(rec)));
            assert(lines_from(s@, pos as int) =~= seq![line_text(s@, pos as int)] + lines_from(s@, e + 1));
            assert(lines_from(s@, pos as int).map_values(g) =~= seq![g(line_text(s@, pos as int))]
                + lines_from(s@, e + 1).map_values(g));
            assert(out@.map_values(f) + lines_from(s@, e + 1).map_values(g) =~= before.map_values(f)
                + lines_from(s@, pos as int).map_values(g));
        }
        assert(lines_from(s@, e + 1) =~= lines_from(s@, if e < n { e + 1 } else { n as int }));
        pos = if e < n { e + 1 } else { n };
    }
    proof {
        assert(lines_from(s@, pos as int) =~= Seq::<Seq<char>>::empty());
        let g = |l: Seq<char>| parse_record_spec(l);
        assert(lines_from(s@, pos as int).map_values(g) =~= Seq::<Result<SphinxRefView, crate::error::RecordErrorView>>::empty());
        let f = |x: Result<ExternalSphinxRef, crate::error::RecordParseError>| outcome(x);
        assert(out@.map_values(f) + lines_from(s@, pos as int).map_values(g) =~= out@.map_values(f));
    }
    out
}

/// What reading a whole inventory from `rest` gives: the entries of the lines
/// that read as records, in order, once the header was accepted and the rest
/// decompressed; lines that do not read as records are left out.
pub open spec fn objects_spec(rest: Seq<u8>) -> Result<Seq<SphinxRefView>, InvErrorView> {
    match header_spec(rest) {
        Err(e) => Err(e),
        Ok(_) => match inflate_spec(header_rest(rest)) {
            Err(e) => Err(e),
            Ok(text) => Ok(ok_records(lines(text).map_values(|l: Seq<char>| parse_record_spec(l)))),
        },
    }
}

/// Reads a whole inventory: the header, then every record of the
/// compressed body.
pub fn parse_objects_inv(reader: InvReader) -> (r: Result<Vec<ExternalSphinxRef>, SphinxInvError>)
    requires
        header_splits(reader@),
    ensures
        match r {
            Ok(refs) => objects_spec(reader@) == Ok::<Seq<SphinxRefView>, InvErrorView>(
                refs@.map_values(|x: ExternalSphinxRef| x@),
            ),
            Err(e) => objects_spec(reader@) == Err::<Seq<SphinxRefView>, InvErrorView>(e@),
        },
{
    let ghost rest = reader@;
    let mut reader = reader;
    match parse_sphinx_inv_header(&mut reader) {
        Ok(_) => {},
        Err(e) => return Err(e),
    }
    let decompressed = match decompress_remaining_zlib_data(&mut reader) {
        Ok(s) => s,
        Err(e) => return Err(e),
    };
    let results = parse_records(decompressed.as_str());
    let ghost all = results@.map_values(|x: Result<ExternalSphinxRef, crate::error::RecordParseError>| outcome(x));
    let mut references: Vec<ExternalSphinxRef> = Vec::new();
    for rec in it: results.into_iter()
        invariant
            it.seq().map_values(|x: Result<ExternalSphinxRef, crate::error::RecordParseError>| outcome(x)) == all,
            references@.map_values(|x: ExternalSphinxRef| x@) == ok_records(all.take(it.index())),
    {
        let ghost i = it.index();
        assert(all.take(i + 1).drop_last() =~= all.take(i));
        assert(all.take(i + 1).last() == outcome(rec));
        let ghost before = references@;
        match rec {
            Ok(sr) => {
                references.push(sr);
                assert(references@.map_values(|x: ExternalSphinxRef| x@) =~= before.map_values(
                    |x: ExternalSphinxRef| x@,
                ).push(sr@));
            },
            Err(_) => {},
        }
    }
    assert(all.take(all.len() as int) =~= all);
    Ok(references)
}


/// Whether a record was read.
pub open spec fn is_read(r: Result<SphinxRefView, crate::error::RecordErrorView>) -> bool {
    r is Ok
}

/// The entry of a record that was read.
pub open spec fn entry_of(r: Result<SphinxRefView, crate::error::RecordErrorView>) -> SphinxRefView {
    r->Ok_0
}

/// Keeping the records that were read drops nothing else and changes no
/// order: it is the read ones, in order, whatever they hold; so there are as
/// many as there were read records, and each read record is among them.
pub proof fn lemma_ok_records_keeps_every_read_record(
    rs: Seq<Result<SphinxRefView, crate::error::RecordErrorView>>,
)
    ensures
        ok_records(rs) == rs.filter(|r: Result<SphinxRefView, crate::error::RecordErrorView>| is_read(r)).map_values(
            |r: Result<SphinxRefView, crate::error::RecordErrorView>| entry_of(r),
        ),
        ok_records(rs).len() == rs.filter(
            |r: Result<SphinxRefView, crate::error::RecordErrorView>| is_read(r),
        ).len(),
        forall|i: int| 0 <= i < rs.len() && #[trigger] rs[i] is Ok ==> ok_records(rs).contains(rs[i]->Ok_0),
    decreases rs.len(),
{
    let p = |r: Result<SphinxRefView, crate::error::RecordErrorView>| is_read(r);
    let m = |r: Result<SphinxRefView, crate::error::RecordErrorView>| entry_of(r);
    reveal(Seq::filter);
    if rs.len() > 0 {
        lemma_ok_records_keeps_every_read_record(rs.drop_last());
        if rs.last() is Ok {
            assert(rs.filter(p) == rs.drop_last().filter(p).push(rs.last()));
            assert(rs.filter(p).map_values(m) =~= rs.drop_last().filter(p).map_values(m).push(
                rs.last()->Ok_0,
            ));
        } else {
            assert(rs.filter(p) == rs.drop_last().filter(p));
        }
        assert forall|i: int| 0 <= i < rs.len() && #[trigger] rs[i] is Ok implies ok_records(
            rs,
        ).contains(rs[i]->Ok_0) by {
            if i == rs.len() - 1 {
                assert(ok_records(rs).last() == rs[i]->Ok_0);
            } else {
                assert(rs[i] == rs.drop_last()[i]);
                let j = choose|j: int|
                    0 <= j < ok_records(rs.drop_last()).len() && ok_records(rs.drop_last())[j]
                        == rs[i]->Ok_0;
                assert(ok_records(rs)[j] == ok_records(rs.drop_last())[j]);
            }
        }
    } else {
        assert(rs.filter(p).map_values(m) =~= Seq::<SphinxRefView>::empty());
    }
}

/// A whole inventory gives exactly the entries of the body's lines that read
/// as records, in order and whatever their priority: as many entries as such
/// lines, and each such line's entry among them.
pub proof fn lemma_inventory_keeps_every_record(rest: Seq<u8>)
    ensures
        objects_spec(rest) matches Ok(refs) ==> inflate_spec(header_rest(rest)) matches Ok(text) && {
            let rs = lines(text).map_values(|l: Seq<char>| parse_record_spec(l));
            &&& refs == rs.filter(|r: Result<SphinxRefView, crate::error::RecordErrorView>| is_read(r)).map_values(
                |r: Result<SphinxRefView, crate::error::RecordErrorView>| entry_of(r),
            )
            &&& refs.len() == rs.filter(
                |r: Result<SphinxRefView, crate::error::RecordErrorView>| is_read(r),
            ).len()
            &&& forall|i: int|
                0 <= i < lines(text).len() && #[trigger] parse_record_spec(lines(text)[i]) is Ok
                    ==> refs.contains(parse_record_spec(lines(text)[i])->Ok_0)
        },
{
    if objects_spec(rest) is Ok {
        let text = inflate_spec(header_rest(rest))->Ok_0;
        let rs = lines(text).map_values(|l: Seq<char>| parse_record_spec(l));
        lemma_ok_records_keeps_every_read_record(rs);
        assert forall|i: int|
            0 <= i < lines(text).len() && #[trigger] parse_record_spec(lines(text)[i]) is Ok
                implies objects_spec(rest)->Ok_0.contains(parse_record_spec(lines(text)[i])->Ok_0) by {
            assert(rs[i] == parse_record_spec(lines(text)[i]));
        }
    }
}

/// A header that is read gives the version 2, the project's name and
/// version as the text after the first 11 bytes of the second and third
/// lines with only the white space at their ends cut off (any inner spaces,
/// and an empty text, kept), and a fourth line that mentions `zlib`; and it
/// is read whenever the first line announces version 2 and the next three
/// lines are valid UTF-8 with the fourth mentioning `zlib`.
pub proof fn lemma_header_fields(rest: Seq<u8>)
    ensures
        ({
            let r1 = after_line(rest);
            let r2 = after_line(r1);
            let r3 = after_line(r2);
            &&& header_spec(rest) matches Ok((v, name, version)) ==> {
                &&& v == SphinxInvVersion::V2
                &&& version_spec(rest) == Ok::<SphinxInvVersion, InvErrorView>(SphinxInvVersion::V2)
                &&& name == trim(decode_utf8(line_bytes(r1).skip(11)))
                &&& version == trim(decode_utf8(line_bytes(r2).skip(11)))
                &&& valid_utf8(line_bytes(r3)) && contains_text(decode_utf8(line_bytes(r3)), "zlib"@)
            }
            &&& (version_spec(rest) == Ok::<SphinxInvVersion, InvErrorView>(SphinxInvVersion::V2)
                && valid_utf8(line_bytes(r1)) && valid_utf8(line_bytes(r2)) && valid_utf8(
                line_bytes(r3),
            ) && contains_text(decode_utf8(line_bytes(r3)), "zlib"@)) ==> header_spec(
                rest,
            ) == Ok::<(SphinxInvVersion, Seq<char>, Seq<char>), InvErrorView>(
                (
                    SphinxInvVersion::V2,
                    trim(decode_utf8(line_bytes(r1).skip(11))),
                    trim(decode_utf8(line_bytes(r2).skip(11))),
                ),
            )
        }),
{
}

/// A field line that is valid UTF-8 is always read, even when its field is
/// empty: it gives the text after the first 11 bytes with the white space at
/// its ends cut off.
pub proof fn lemma_field_line_is_read(rest: Seq<u8>)
    ensures
        valid_utf8(line_bytes(rest)) ==> field_spec(rest) == Ok::<Seq<char>, InvErrorView>(
            trim(decode_utf8(line_bytes(rest).skip(11))),
        ),
        !valid_utf8(line_bytes(rest)) ==> field_spec(rest) == Err::<Seq<char>, InvErrorView>(
            InvErrorView::IoError,
        ),
{
}

/// The body's text is the whole decompressed output, of any length: it is
/// read exactly when the decompression succeeds with valid UTF-8, and then
/// its UTF-8 encoding is the decompressed output, byte for byte.
pub proof fn lemma_body_is_whole_output(rest: Seq<u8>)
    ensures
        zlib_inflate(rest) matches Some(b) ==> (valid_utf8(b) ==> inflate_spec(rest) == Ok::<
            Seq<char>,
            InvErrorView,
        >(decode_utf8(b))),
        inflate_spec(rest) matches Ok(text) ==> zlib_inflate(rest) == Some(
            vstd::utf8::encode_utf8(text),
        ) && text.len() == decode_utf8(zlib_inflate(rest)->Some_0).len(),
{
    match zlib_inflate(rest) {
        Some(b) => {
            if valid_utf8(b) {
                vstd::utf8::decode_utf8_encode_utf8(b);
            }
        },
        None => {},
    }
}

} // verus!
