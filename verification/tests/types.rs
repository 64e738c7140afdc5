use sphinx_inv::error::RecordParseError;
use sphinx_inv::types::{CRole, CppRole, JsRole, MathRole, PyRole, RstRole, SphinxType};

#[test]
fn test_sphinx_type_parsing_c() -> Result<(), RecordParseError> {
    assert_eq!(SphinxType::try_from("c:enum")?, SphinxType::C(CRole::Enum));
    assert_eq!(
        SphinxType::try_from("c:enumerator")?,
        SphinxType::C(CRole::Enumerator)
    );
    assert_eq!(
        SphinxType::try_from("c:function")?,
        SphinxType::C(CRole::Function)
    );
    assert_eq!(
        SphinxType::try_from("c:functionParam")?,
        SphinxType::C(CRole::FunctionParam)
    );
    assert_eq!(
        SphinxType::try_from("c:macro")?,
        SphinxType::C(CRole::Macro)
    );
    assert_eq!(
        SphinxType::try_from("c:member")?,
        SphinxType::C(CRole::Member)
    );
    assert_eq!(SphinxType::try_from("c:type")?, SphinxType::C(CRole::Type));
    assert_eq!(SphinxType::try_from("c:var")?, SphinxType::C(CRole::Var));
    assert_eq!(
        SphinxType::try_from("c:struct")?,
        SphinxType::C(CRole::Struct)
    );
    assert_eq!(
        SphinxType::try_from("c:union")?,
        SphinxType::C(CRole::Union)
    );
    Ok(())
}

#[test]
fn test_sphinx_type_parsing_cpp() -> Result<(), RecordParseError> {
    assert_eq!(
        SphinxType::try_from("cpp:class")?,
        SphinxType::Cpp(CppRole::Class)
    );
    assert_eq!(
        SphinxType::try_from("cpp:function")?,
        SphinxType::Cpp(CppRole::Function)
    );
    assert_eq!(
        SphinxType::try_from("cpp:functionParam")?,
        SphinxType::Cpp(CppRole::FunctionParam)
    );
    assert_eq!(
        SphinxType::try_from("cpp:templateParam")?,
        SphinxType::Cpp(CppRole::TemplateParam)
    );
    assert_eq!(
        SphinxType::try_from("cpp:member")?,
        SphinxType::Cpp(CppRole::Member)
    );
    Ok(())
}

#[test]
fn test_sphinx_type_parsing_math() -> Result<(), RecordParseError> {
    assert_eq!(
        SphinxType::try_from("math:numref")?,
        SphinxType::Mathematics(MathRole::Numref)
    );
    Ok(())
}

#[test]
fn test_sphinx_type_parsing_js() -> Result<(), RecordParseError> {
    assert_eq!(
        SphinxType::try_from("js:module")?,
        SphinxType::JavaScript(JsRole::Module)
    );
    assert_eq!(
        SphinxType::try_from("js:function")?,
        SphinxType::JavaScript(JsRole::Function)
    );
    assert_eq!(
        SphinxType::try_from("js:method")?,
        SphinxType::JavaScript(JsRole::Method)
    );
    assert_eq!(
        SphinxType::try_from("js:class")?,
        SphinxType::JavaScript(JsRole::Class)
    );
    assert_eq!(
        SphinxType::try_from("js:data")?,
        SphinxType::JavaScript(JsRole::Data)
    );
    Ok(())
}

#[test]
fn test_sphinx_type_parsing_py() -> Result<(), RecordParseError> {
    assert_eq!(
        SphinxType::try_from("py:attribute")?,
        SphinxType::Python(PyRole::Attribute)
    );
    assert_eq!(
        SphinxType::try_from("py:data")?,
        SphinxType::Python(PyRole::Data)
    );
    assert_eq!(
        SphinxType::try_from("py:exception")?,
        SphinxType::Python(PyRole::Exception)
    );
    assert_eq!(
        SphinxType::try_from("py:function")?,
        SphinxType::Python(PyRole::Function)
    );
    assert_eq!(
        SphinxType::try_from("py:method")?,
        SphinxType::Python(PyRole::Method)
    );
    assert_eq!(
        SphinxType::try_from("py:module")?,
        SphinxType::Python(PyRole::Module)
    );
    assert_eq!(
        SphinxType::try_from("py:property")?,
        SphinxType::Python(PyRole::Property)
    );
    assert_eq!(
        SphinxType::try_from("py:class")?,
        SphinxType::Python(PyRole::Class)
    );
    Ok(())
}

#[test]
fn test_sphinx_type_parsing_rst() -> Result<(), RecordParseError> {
    assert_eq!(
        SphinxType::try_from("rst:directive:option")?,
        SphinxType::ReStructuredText(RstRole::DirectiveOption)
    );
    Ok(())
}
