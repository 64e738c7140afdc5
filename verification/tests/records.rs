use lazy_regex::Regex;
use sphinx_inv::error::{RecordParseError, RoleParseError};
use sphinx_inv::types::{ExternalSphinxRef, NumpyRole, PyRole, SphinxPriority, SphinxType};

#[test]
fn plain_record() {
    let r = ExternalSphinxRef::try_from(
        "numpy.absolute py:data 1 reference/generated/numpy.absolute.html#$ -",
    )
    .unwrap();
    assert_eq!(r.name, "numpy.absolute");
    assert_eq!(r.sphinx_type, SphinxType::Python(PyRole::Data));
    assert_eq!(r.priority, SphinxPriority::Standard);
    assert_eq!(r.location, "reference/generated/numpy.absolute.html#numpy.absolute");
    assert_eq!(r.dispname, "numpy.absolute");
}

#[test]
fn display_name_with_spaces() {
    let r = ExternalSphinxRef::try_from("basics.types std:label -1 user/basics.types.html#$ Data types")
        .unwrap();
    assert_eq!(r.name, "basics.types");
    assert_eq!(r.sphinx_type, SphinxType::Std("label".to_string()));
    assert_eq!(r.priority, SphinxPriority::Omit);
    assert_eq!(r.location, "user/basics.types.html#basics.types");
    assert_eq!(r.dispname, "Data types");
}

#[test]
fn name_with_spaces() {
    let r = ExternalSphinxRef::try_from("array api std:doc 0 reference/array_api.html Array API")
        .unwrap();
    assert_eq!(r.name, "array api");
    assert_eq!(r.sphinx_type, SphinxType::Std("doc".to_string()));
    assert_eq!(r.priority, SphinxPriority::High);
    assert_eq!(r.location, "reference/array_api.html");
    assert_eq!(r.dispname, "Array API");
}

#[test]
fn empty_location_after_two_blanks() {
    let r = ExternalSphinxRef::try_from("x np:function 2  shown").unwrap();
    assert_eq!(r.sphinx_type, SphinxType::Numpy(NumpyRole::Function));
    assert_eq!(r.priority, SphinxPriority::Low);
    assert_eq!(r.location, "");
    assert_eq!(r.dispname, "shown");
}

#[test]
fn every_dollar_is_replaced() {
    let r = ExternalSphinxRef::try_from("f py:function 1 $/a/$.html -").unwrap();
    assert_eq!(r.location, "f/a/f.html");
}

#[test]
fn malformed_record() {
    match ExternalSphinxRef::try_from("just some words") {
        Err(RecordParseError::MalformedRecord(s)) => assert_eq!(s, "just some words"),
        other => panic!("unexpected {:?}", other),
    }
    match ExternalSphinxRef::try_from("") {
        Err(RecordParseError::MalformedRecord(s)) => assert_eq!(s, ""),
        other => panic!("unexpected {:?}", other),
    }
}

#[test]
fn malformed_type() {
    match ExternalSphinxRef::try_from("name label 1 loc -") {
        Err(RecordParseError::MalformedType(s)) => assert_eq!(s, "label"),
        other => panic!("unexpected {:?}", other),
    }
}

#[test]
fn invalid_domain_role_and_priority() {
    match ExternalSphinxRef::try_from("name go:func 1 loc -") {
        Err(RecordParseError::InvalidDomain(s)) => assert_eq!(s, "go"),
        other => panic!("unexpected {:?}", other),
    }
    match ExternalSphinxRef::try_from("name py:func 1 loc -") {
        Err(RecordParseError::InvalidRole(RoleParseError::VariantNotFound)) => {}
        other => panic!("unexpected {:?}", other),
    }
    match ExternalSphinxRef::try_from("name py:function 7 loc -") {
        Err(RecordParseError::InvalidRowPriority(s)) => assert_eq!(s, "7"),
        other => panic!("unexpected {:?}", other),
    }
    match ExternalSphinxRef::try_from("name py:function \u{663} loc -") {
        Err(RecordParseError::InvalidRowPriority(s)) => assert_eq!(s, "\u{663}"),
        other => panic!("unexpected {:?}", other),
    }
}

/// Reads a record line the way the grammar's regular expression describes
/// it, with a regular expression engine doing the cutting.
fn read_with_regex(re: &Regex, line: &str) -> String {
    let caps = match re.captures(line) {
        None => return format!("{:?}", Err::<(), _>(RecordParseError::MalformedRecord(line.to_string()))),
        Some(c) => c,
    };
    let name = caps.get(1).unwrap().as_str();
    let sphinx_type = caps.get(2).unwrap().as_str();
    let priority = caps.get(3).unwrap().as_str();
    let location = caps.get(4).unwrap().as_str();
    let dispname = caps.get(5).unwrap().as_str();
    if !sphinx_type.contains(':') {
        return format!("{:?}", Err::<(), _>(RecordParseError::MalformedType(sphinx_type.to_string())));
    }
    let dispname = if dispname == "-" { name.to_string() } else { dispname.to_string() };
    let location = location.replace('$', name);
    let t = match SphinxType::try_from(sphinx_type) {
        Ok(t) => t,
        Err(e) => return format!("{:?}", Err::<(), _>(e)),
    };
    let p = match SphinxPriority::try_from(priority) {
        Ok(p) => p,
        Err(e) => return format!("{:?}", Err::<(), _>(e)),
    };
    format!(
        "{:?}",
        Ok::<_, ()>(ExternalSphinxRef {
            name: name.to_owned(),
            sphinx_type: t,
            priority: p,
            location,
            dispname,
        })
    )
}

fn read_with_library(line: &str) -> String {
    match ExternalSphinxRef::try_from(line) {
        Ok(r) => format!("{:?}", Ok::<_, ()>(r)),
        Err(e) => format!("{:?}", Err::<(), _>(e)),
    }
}

#[test]
fn record_cutting_agrees_with_a_regex_engine() {
    let re = Regex::new(r"(.+?)\s+(\S+)\s+(-?\d+)\s+?(\S*)\s+(.*)").unwrap();
    let pieces = [
        "a", "bc", " ", "  ", "\t", "-", "1", "-1", "0", "2", "12", "py:function", "std:label",
        "c:macro", "x:y", "$", "a$b", "\u{3000}", "\u{663}", "\r", "\n", ":", "-2", "\u{a0}", "é",
        "rst:directive:option", "go:x",
    ];
    let mut state: u64 = 0x2545_f491_4f6c_dd1d;
    let mut next = move || {
        state ^= state << 13;
        state ^= state >> 7;
        state ^= state << 17;
        state
    };
    let mut checked = 0;
    for _ in 0..20000 {
        let len = (next() % 12) as usize;
        let mut line = String::new();
        for _ in 0..len {
            line.push_str(pieces[(next() % pieces.len() as u64) as usize]);
        }
        assert_eq!(read_with_library(&line), read_with_regex(&re, &line), "line {:?}", line);
        checked += 1;
    }
    let fixed = [
        "numpy.absolute py:data 1 reference/generated/numpy.absolute.html#$ -",
        "a b 1 c d",
        "a  b  1  c  d",
        "a b -1 c",
        "a b 1  ",
        "a\nb c 1 d e",
        "a b c 1 d e",
        "a b 1\td\te",
        "a b 12x c d",
        "a b -x c d",
    ];
    for line in fixed {
        assert_eq!(read_with_library(line), read_with_regex(&re, line), "line {:?}", line);
    }
    assert_eq!(checked, 20000);
}
