use sphinx_inv::error::{RecordParseError, RoleParseError};
use std::str::FromStr;
use sphinx_inv::types::{
    CRole, CmakeRole, CommandsRole, ConfigRole, CppRole, HttpRole, JavaRole, JsRole, LrdRole,
    LsRole, MathRole, NumpyRole, OcvRole, PhpRole, PyRole, RstRole, RubyRole, SipRole,
    StconfRole, SyntaxRole, ZeekRole,
};

#[test]
fn camel_case_role_names() {
    assert_eq!(CRole::from_str("functionParam"), Ok(CRole::FunctionParam));
    assert_eq!(CRole::from_str("enumvalue"), Ok(CRole::Enumvalue));
    assert_eq!(CppRole::from_str("templateParam"), Ok(CppRole::TemplateParam));
    assert_eq!(HttpRole::from_str("copy"), Ok(HttpRole::Copy));
    assert_eq!(LrdRole::from_str("doc"), Ok(LrdRole::Doc));
    assert_eq!(PhpRole::from_str("staticmethod"), Ok(PhpRole::Staticmethod));
    assert_eq!(NumpyRole::from_str("attribute"), Ok(NumpyRole::Attribute));
    assert_eq!(JavaRole::from_str("type"), Ok(JavaRole::Type));
    assert_eq!(ZeekRole::from_str("keyword"), Ok(ZeekRole::Keyword));
    assert_eq!(JsRole::from_str("data"), Ok(JsRole::Data));
    assert_eq!(MathRole::from_str("numref"), Ok(MathRole::Numref));
    assert_eq!(SipRole::from_str("signal"), Ok(SipRole::Signal));
    assert_eq!(SyntaxRole::from_str("grammar"), Ok(SyntaxRole::Grammar));
    assert_eq!(PyRole::from_str("namedtuple"), Ok(PyRole::Namedtuple));
    assert_eq!(PyRole::from_str("model"), Ok(PyRole::Model));
    assert_eq!(ConfigRole::from_str("option"), Ok(ConfigRole::Option));
    assert_eq!(LsRole::from_str("provide"), Ok(LsRole::Provide));
    assert_eq!(OcvRole::from_str("pyoldfunction"), Ok(OcvRole::Pyoldfunction));
    assert_eq!(CommandsRole::from_str("command"), Ok(CommandsRole::Command));
    assert_eq!(StconfRole::from_str("option"), Ok(StconfRole::Option));
}

#[test]
fn snake_case_role_names() {
    assert_eq!(CmakeRole::from_str("prop_cache"), Ok(CmakeRole::PropCache));
    assert_eq!(CmakeRole::from_str("cpack_gen"), Ok(CmakeRole::CpackGen));
    assert_eq!(CmakeRole::from_str("prop_gbl"), Ok(CmakeRole::PropGbl));
    assert_eq!(RubyRole::from_str("attr_reader"), Ok(RubyRole::AttrReader));
    assert_eq!(RubyRole::from_str("attr_accessor"), Ok(RubyRole::AttrAccessor));
    assert_eq!(CmakeRole::from_str("propCache"), Err(RoleParseError::VariantNotFound));
    assert_eq!(RubyRole::from_str("attrReader"), Err(RoleParseError::VariantNotFound));
}

#[test]
fn role_names_are_matched_exactly() {
    assert_eq!(CRole::from_str("Enum"), Err(RoleParseError::VariantNotFound));
    assert_eq!(CRole::from_str("enum "), Err(RoleParseError::VariantNotFound));
    assert_eq!(CRole::from_str(""), Err(RoleParseError::VariantNotFound));
    assert_eq!(CRole::from_str("functionparam"), Err(RoleParseError::VariantNotFound));
    assert_eq!(PyRole::from_str("classmethod"), Ok(PyRole::Classmethod));
    assert_eq!(PyRole::from_str("classmethods"), Err(RoleParseError::VariantNotFound));
}

#[test]
fn roles_parse_through_from_str_trait() {
    let r: Result<CppRole, _> = "concept".parse();
    assert_eq!(r, Ok(CppRole::Concept));
    let r: Result<OcvRole, _> = "emember".parse();
    assert_eq!(r, Ok(OcvRole::Emember));
    let r: Result<JsRole, _> = "nothing".parse();
    assert_eq!(r, Err(RoleParseError::VariantNotFound));
}

#[test]
fn rst_roles() {
    assert_eq!(RstRole::from_str("role").unwrap(), RstRole::Role);
    assert_eq!(RstRole::from_str("directive").unwrap(), RstRole::Directive);
    assert_eq!(RstRole::from_str("directive:option").unwrap(), RstRole::DirectiveOption);
    match RstRole::from_str("directive:opt") {
        Err(RecordParseError::InvalidDomain(s)) => assert_eq!(s, "directive:opt"),
        other => panic!("unexpected {:?}", other),
    }
}
