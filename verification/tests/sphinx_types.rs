use sphinx_inv::error::{RecordParseError, RoleParseError};
use sphinx_inv::types::{
    CmakeRole, HttpRole, NumpyRole, RubyRole, SphinxPriority, SphinxType, StconfRole,
};

#[test]
fn std_domain_takes_any_role() {
    assert_eq!(
        SphinxType::try_from("std:label").unwrap(),
        SphinxType::Std("label".to_string())
    );
    assert_eq!(
        SphinxType::try_from("std:cmdoption").unwrap(),
        SphinxType::Std("cmdoption".to_string())
    );
    assert_eq!(SphinxType::try_from("std:").unwrap(), SphinxType::Std(String::new()));
    assert_eq!(
        SphinxType::try_from("std:a:b").unwrap(),
        SphinxType::Std("a:b".to_string())
    );
}

#[test]
fn other_domains() {
    assert_eq!(SphinxType::try_from("np:data").unwrap(), SphinxType::Numpy(NumpyRole::Data));
    assert_eq!(SphinxType::try_from("rb:attr_reader").unwrap(), SphinxType::Ruby(RubyRole::AttrReader));
    assert_eq!(SphinxType::try_from("cmake:prop_tgt").unwrap(), SphinxType::Cmake(CmakeRole::PropTgt));
    assert_eq!(SphinxType::try_from("http:any").unwrap(), SphinxType::Http(HttpRole::Any));
    assert_eq!(SphinxType::try_from("stconf:option").unwrap(), SphinxType::StConf(StconfRole::Option));
}

#[test]
fn type_without_colon_is_malformed() {
    match SphinxType::try_from("function") {
        Err(RecordParseError::MalformedDomainField(s)) => assert_eq!(s, "function"),
        other => panic!("unexpected {:?}", other),
    }
}

#[test]
fn unknown_domain_is_invalid() {
    match SphinxType::try_from("go:func") {
        Err(RecordParseError::InvalidDomain(s)) => assert_eq!(s, "go"),
        other => panic!("unexpected {:?}", other),
    }
    match SphinxType::try_from(":x") {
        Err(RecordParseError::InvalidDomain(s)) => assert_eq!(s, ""),
        other => panic!("unexpected {:?}", other),
    }
}

#[test]
fn unknown_role_is_invalid() {
    match SphinxType::try_from("py:functions") {
        Err(RecordParseError::InvalidRole(RoleParseError::VariantNotFound)) => {}
        other => panic!("unexpected {:?}", other),
    }
    match SphinxType::try_from("rst:option") {
        Err(RecordParseError::InvalidDomain(s)) => assert_eq!(s, "option"),
        other => panic!("unexpected {:?}", other),
    }
}

#[test]
fn priorities() {
    assert_eq!(SphinxPriority::try_from("-1").unwrap(), SphinxPriority::Omit);
    assert_eq!(SphinxPriority::try_from("1").unwrap(), SphinxPriority::Standard);
    assert_eq!(SphinxPriority::try_from("0").unwrap(), SphinxPriority::High);
    assert_eq!(SphinxPriority::try_from("2").unwrap(), SphinxPriority::Low);
    for bad in ["3", "-0", "01", "", "+1", "-2", "1 "] {
        match SphinxPriority::try_from(bad) {
            Err(RecordParseError::InvalidRowPriority(s)) => assert_eq!(s, bad),
            other => panic!("unexpected {:?}", other),
        }
    }
}
