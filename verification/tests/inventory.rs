use flate2::write::ZlibEncoder;
use flate2::Compression;
use sphinx_inv::error::{InvalidHeaderError, RecordParseError, SphinxInvError};
use sphinx_inv::inv_file::{
    decompress_remaining_zlib_data, header_fits, parse_inv_project_name, parse_inv_version,
    parse_objects_inv, parse_records, parse_sphinx_inv_header, InvReader, SphinxInvVersion,
};
use sphinx_inv::types::{PyRole, SphinxPriority, SphinxType};
use std::io::Write;

fn reader_of(text: &str) -> InvReader {
    InvReader::new(text.as_bytes().to_vec())
}

fn zlib(text: &str) -> Vec<u8> {
    let mut e = ZlibEncoder::new(Vec::new(), Compression::default());
    e.write_all(text.as_bytes()).unwrap();
    e.finish().unwrap()
}

const NUMPY_HEADER: &str = "# Sphinx inventory version 2
# Project: NumPy
# Version: 2.3
# The remainder of this file is compressed using zlib.
";

#[test]
fn test_numpy_header() {
    let header = "# Sphinx inventory version 2
# Project: NumPy
# Version: 2.3
# The remainder of this file is compressed using zlib.";
    let mut reader = reader_of(header);
    assert!(header_fits(&reader));
    let (inv_ver, proj_name, proj_ver) = parse_sphinx_inv_header(&mut reader).unwrap();
    assert_eq!(inv_ver, SphinxInvVersion::V2);
    assert_eq!(proj_name, "NumPy".to_string());
    assert_eq!(proj_ver, "2.3".to_string());
}

#[test]
fn test_garbange_header() {
    let header = "# Sphinx inventory version 3.14...
# Project: asdfasdf
# Version: ll.3
# The remainder of this file is compressed using my butt.";
    let mut reader = reader_of(header);
    assert!(header_fits(&reader));
    let result = parse_sphinx_inv_header(&mut reader);
    assert!(result.is_err());
}

#[test]
fn test_short_header() {
    let header = "# Sphinx inventory version 2
# Project: NumPy
# Version: 2.3";
    let mut reader = reader_of(header);
    assert!(header_fits(&reader));
    let result = parse_sphinx_inv_header(&mut reader);
    assert!(result.is_err());
}

#[test]
fn test_no_zlib_header() {
    let header = "# Sphinx inventory version 2
# Project: NumPy
# Version: 2.3
# The remainder of this file is compressed using gzip.";
    let mut reader = reader_of(header);
    assert!(header_fits(&reader));
    let result = parse_sphinx_inv_header(&mut reader);
    assert!(result.is_err());
    match result {
        Err(SphinxInvError::InvalidHeaderError(InvalidHeaderError::InvalidCompressionMethod(line))) => {
            assert_eq!(line, "# The remainder of this file is compressed using gzip.")
        }
        other => panic!("unexpected {:?}", other),
    }
}

#[test]
fn test_old_inv_version() {
    let header = "# Sphinx inventory version 1";
    let mut reader = reader_of(header);
    let inv_ver = parse_inv_version(&mut reader).unwrap();
    assert_eq!(inv_ver, SphinxInvVersion::V1);
}

#[test]
fn test_unknown_inv_version() {
    let header = "# Sphinx inventory version 3.14";
    let mut reader = reader_of(header);
    let inv_ver = parse_inv_version(&mut reader);
    assert!(inv_ver.is_err());
}

#[test]
fn test_garbage_inv_version() {
    let header = "# asdfasdfsadf";
    let mut reader = reader_of(header);
    let inv_ver = parse_inv_version(&mut reader);
    assert!(inv_ver.is_err());
}

#[test]
fn version_line_is_trimmed_and_read_as_a_number() {
    let mut reader = reader_of("# Sphinx inventory version  +2 \r\n");
    assert_eq!(parse_inv_version(&mut reader).unwrap(), SphinxInvVersion::V2);
    let mut reader = reader_of("# Sphinx inventory version 3\n");
    match parse_inv_version(&mut reader) {
        Err(SphinxInvError::InvalidHeaderError(InvalidHeaderError::InvalidSphinxVerison(v))) => {
            assert_eq!(v, "3")
        }
        other => panic!("unexpected {:?}", other),
    }
    let mut reader = reader_of("# Sphinx inventory version 99999999999999999999999\n");
    assert!(parse_inv_version(&mut reader).is_err());
    let mut reader = reader_of("");
    assert!(parse_inv_version(&mut reader).is_err());
}

#[test]
fn version_one_is_not_supported() {
    let mut reader = reader_of("# Sphinx inventory version 1\n# Project: X\n");
    match parse_sphinx_inv_header(&mut reader) {
        Err(SphinxInvError::InvalidHeaderError(InvalidHeaderError::UnsupportedSphinxVersion(v))) => {
            assert_eq!(v, SphinxInvVersion::V1)
        }
        other => panic!("unexpected {:?}", other),
    }
}

#[test]
fn project_field_is_cut_after_eleven_bytes() {
    let mut reader = reader_of("# Project:   Sphinx docs  \nrest");
    assert_eq!(parse_inv_project_name(&mut reader).unwrap(), "Sphinx docs");
    let mut reader = reader_of("0123456789ABCDEF\n");
    assert_eq!(parse_inv_project_name(&mut reader).unwrap(), "BCDEF");
}

#[test]
fn header_that_cannot_be_cut_is_flagged() {
    let reader = reader_of("# Sphinx inventory version 2\n");
    assert!(!header_fits(&reader));
    let reader = reader_of("# Sphinx inventory version 2\n# Project: X\n# Vé\n");
    assert!(!header_fits(&reader));
    let reader = reader_of("# Sphinx inventory version 1\n");
    assert!(header_fits(&reader));
}

#[test]
fn invalid_utf8_line_is_refused() {
    let mut reader = InvReader::new(vec![0xff, 0xfe, b'\n']);
    match reader.read_line() {
        Err(SphinxInvError::IoError(e)) => assert_eq!(e.kind(), std::io::ErrorKind::InvalidData),
        other => panic!("unexpected {:?}", other),
    }
    assert_eq!(reader.read_line().unwrap(), "");
    let mut reader = InvReader::new(b"# Sphinx inventory version 2\n# Project: \xff\n".to_vec());
    match parse_sphinx_inv_header(&mut reader) {
        Err(SphinxInvError::IoError(e)) => assert_eq!(e.kind(), std::io::ErrorKind::InvalidData),
        other => panic!("unexpected {:?}", other),
    }
}

#[test]
fn reads_lines_one_by_one() {
    let mut reader = reader_of("one\ntwo\r\nthree");
    assert_eq!(reader.read_line().unwrap(), "one\n");
    assert_eq!(reader.read_line().unwrap(), "two\r\n");
    assert_eq!(reader.read_line().unwrap(), "three");
    assert_eq!(reader.read_line().unwrap(), "");
}

#[test]
fn body_is_decompressed() {
    let mut data = NUMPY_HEADER.as_bytes().to_vec();
    data.extend(zlib("hello\nworld\n"));
    let mut reader = InvReader::new(data);
    parse_sphinx_inv_header(&mut reader).unwrap();
    assert_eq!(decompress_remaining_zlib_data(&mut reader).unwrap(), "hello\nworld\n");
}

#[test]
fn corrupt_body_is_an_io_error() {
    let mut data = NUMPY_HEADER.as_bytes().to_vec();
    data.extend(b"not zlib at all");
    let mut reader = InvReader::new(data);
    parse_sphinx_inv_header(&mut reader).unwrap();
    match decompress_remaining_zlib_data(&mut reader) {
        Err(SphinxInvError::IoError(_)) => {}
        other => panic!("unexpected {:?}", other),
    }
}

#[test]
fn non_utf8_body_is_refused() {
    let mut e = ZlibEncoder::new(Vec::new(), Compression::default());
    e.write_all(&[0x61, 0xff, 0x62]).unwrap();
    let mut reader = InvReader::new(e.finish().unwrap());
    match decompress_remaining_zlib_data(&mut reader) {
        Err(SphinxInvError::Utf8ParseError(_)) => {}
        other => panic!("unexpected {:?}", other),
    }
}

#[test]
fn whole_inventory_keeps_the_records_that_read() {
    let body = "numpy.absolute py:function 1 reference/generated/numpy.absolute.html#$ -\r\n\
                this line is not a record\n\
                numpy.ndarray py:class 1 reference/generated/numpy.ndarray.html#$ -\n\
                numpy.bad go:class 1 x -\n";
    let mut data = NUMPY_HEADER.as_bytes().to_vec();
    data.extend(zlib(body));
    let reader = InvReader::new(data);
    assert!(header_fits(&reader));
    let refs = parse_objects_inv(reader).unwrap();
    assert_eq!(refs.len(), 2);
    assert_eq!(refs[0].name, "numpy.absolute");
    assert_eq!(refs[0].sphinx_type, SphinxType::Python(PyRole::Function));
    assert_eq!(refs[0].priority, SphinxPriority::Standard);
    assert_eq!(
        refs[0].location,
        "reference/generated/numpy.absolute.html#numpy.absolute"
    );
    assert_eq!(refs[0].dispname, "numpy.absolute");
    assert_eq!(refs[1].name, "numpy.ndarray");
    assert_eq!(refs[1].sphinx_type, SphinxType::Python(PyRole::Class));
}

#[test]
fn inventory_with_bad_header_is_refused() {
    let mut data = "# Sphinx inventory version 2\n# Project: NumPy\n# Version: 2.3\n# gzip\n"
        .as_bytes()
        .to_vec();
    data.extend(zlib("a py:class 1 b -\n"));
    match parse_objects_inv(InvReader::new(data)) {
        Err(SphinxInvError::InvalidHeaderError(InvalidHeaderError::InvalidCompressionMethod(_))) => {}
        other => panic!("unexpected {:?}", other),
    }
}

#[test]
fn records_come_one_per_line() {
    let rs = parse_records("a py:class 1 b -\n\nc std:label 0 d e\r\nlast");
    assert_eq!(rs.len(), 4);
    assert!(rs[0].is_ok());
    assert!(matches!(rs[1], Err(RecordParseError::MalformedRecord(ref s)) if s.is_empty()));
    assert_eq!(rs[2].as_ref().unwrap().dispname, "e");
    assert!(matches!(rs[3], Err(RecordParseError::MalformedRecord(ref s)) if s == "last"));
    assert_eq!(parse_records("x py:class 1 y -\n").len(), 1);
    assert_eq!(parse_records("").len(), 0);
}
