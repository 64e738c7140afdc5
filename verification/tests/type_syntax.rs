use sphinx_inv::type_syntax::{sphinx_type, std_role, SphinxTypeError};

#[test]
fn winnow_std_domain_asdf() {
    let mut haystack = "std::";
    let result = sphinx_type(&mut haystack);

    assert_eq!(haystack, "std::");
    println!("{:?}", result);
    assert_eq!(result, Err(SphinxTypeError::InvalidStdRole));
}

#[test]
fn winnow_py_domain() {
    let mut haystack = "py:method";
    let result = sphinx_type(&mut haystack);

    println!("{:?}", result);
    assert_eq!(haystack, "");
    assert_eq!(result, Ok("method"));
}

#[test]
fn winnow_std_role_invalid() {
    let mut haystack = "std:asdf";
    let result = sphinx_type(&mut haystack);

    assert_eq!(haystack, "std:asdf");
    println!("{:?}", result.unwrap_err());
    assert_eq!(result, Err(SphinxTypeError::InvalidStdRole));
}

#[test]
fn winnow_std_role() {
    let mut haystack = "term";
    let result = std_role(&mut haystack);

    assert_eq!(haystack, "");
    println!("{:?}", result);
    assert_eq!(result, Ok("term"));
}

#[test]
fn winnow_std_domain() {
    let mut haystack = "std:label";
    let result = sphinx_type(&mut haystack);

    println!("{:?}", result);
    assert_eq!(haystack, "");
    assert_eq!(result, Ok("label"));
}
