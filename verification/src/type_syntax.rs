use vstd::prelude::*;
use vstd::slice::slice_subrange;
use vstd::string::StrSliceExecFns;
use crate::text::{chars_of, find_char, lemma_next_index_of, next_index_of, range_is};

verus! {

/// The roles of the `std` domain that this grammar knows.
#[derive(PartialEq, Debug, Clone, Copy, Eq, Structural)]
pub enum StdRole {
    Label,
    Term,
}

/// Why a type text was refused by `sphinx_type`.
#[derive(Debug, Clone, Copy, PartialEq, Eq, Structural)]
pub enum SphinxTypeError {
    /// There is no `:` after the domain.
    MissingSeparator,
    /// The domain is neither `std` nor `py`.
    UnknownDomain,
    /// The role after `std:` is not one of `term`, `label`.
    InvalidStdRole,
    /// The role after `py:` is not one of `class`, `method`, `function`.
    InvalidPyRole,
    /// Text follows a known role.
    TrailingInput,
}

/// Whether `s` starts with `p`.
pub open spec fn starts_with(s: Seq<char>, p: Seq<char>) -> bool {
    p.len() <= s.len() && s.take(p.len() as int) == p
}

/// The `std` role that `s` starts with: `term` is tried first, then `label`.
pub open spec fn std_role_spec(s: Seq<char>) -> Option<Seq<char>> {
    if starts_with(s, "term"@) {
        Some("term"@)
    } else if starts_with(s, "label"@) {
        Some("label"@)
    } else {
        None
    }
}

/// The `py` role that `s` starts with: `class`, `method` and `function` are
/// tried in this order.
pub open spec fn py_role_spec(s: Seq<char>) -> Option<Seq<char>> {
    if starts_with(s, "class"@) {
        Some("class"@)
    } else if starts_with(s, "method"@) {
        Some("method"@)
    } else if starts_with(s, "function"@) {
        Some("function"@)
    } else {
        None
    }
}

/// A role found at the start of `rest` must make up all of `rest`.
pub open spec fn whole_role(
    found: Option<Seq<char>>,
    rest: Seq<char>,
    missing: SphinxTypeError,
) -> Result<Seq<char>, SphinxTypeError> {
    match found {
        None => Err(missing),
        Some(role) => if role.len() == rest.len() {
            Ok(role)
        } else {
            Err(SphinxTypeError::TrailingInput)
        },
    }
}

/// What `sphinx_type` makes of the text `s`: the domain is the text before
/// the first `:`, and the rest must be exactly one role of that domain.
pub open spec fn sphinx_type_spec(s: Seq<char>) -> Result<Seq<char>, SphinxTypeError> {
    let k = next_index_of(s, ':', 0);
    if k >= s.len() {
        Err(SphinxTypeError::MissingSeparator)
    } else {
        let domain = s.take(k);
        let rest = s.skip(k + 1);
        if domain == "std"@ {
            whole_role(std_role_spec(rest), rest, SphinxTypeError::InvalidStdRole)
        } else if domain == "py"@ {
            whole_role(py_role_spec(rest), rest, SphinxTypeError::InvalidPyRole)
        } else {
            Err(SphinxTypeError::UnknownDomain)
        }
    }
}

/// Whether `s` starts with the text `lit`.
fn chars_start_with(s: &[char], lit: &str) -> (r: bool)
    ensures
        r == starts_with(s@, lit@),
{
    let l = chars_of(lit);
    if l.len() > s.len() {
        return false;
    }
    range_is(s, 0, l.len(), lit)
}

/// The length of the role that `std_role_spec` finds at the start of `s`.
fn std_role_len(s: &[char]) -> (r: Option<usize>)
    ensures
        match r {
            Some(m) => std_role_spec(s@) matches Some(p) && p.len() == m && m <= s@.len(),
            None => std_role_spec(s@) is None,
        },
{
    if chars_start_with(s, "term") {
        Some(chars_of("term").len())
    } else if chars_start_with(s, "label") {
        Some(chars_of("label").len())
    } else {
        None
    }
}

/// The length of the role that `py_role_spec` finds at the start of `s`.
fn py_role_len(s: &[char]) -> (r: Option<usize>)
    ensures
        match r {
            Some(m) => py_role_spec(s@) matches Some(p) && p.len() == m && m <= s@.len(),
            None => py_role_spec(s@) is None,
        },
{
    if chars_start_with(s, "class") {
        Some(chars_of("class").len())
    } else if chars_start_with(s, "method") {
        Some(chars_of("method").len())
    } else if chars_start_with(s, "function") {
        Some(chars_of("function").len())
    } else {
        None
    }
}

/// Takes a `std` role off the front of `input`; on failure `input` is left
/// as it was.
pub fn std_role<'s>(input: &mut &'s str) -> (r: Result<&'s str, SphinxTypeError>)
    ensures
        match r {
            Ok(role) => std_role_spec(old(input)@) == Some(role@) && final(input)@ == old(
                input,
            )@.skip(role@.len() as int),
            Err(e) => std_role_spec(old(input)@) is None && e == SphinxTypeError::InvalidStdRole
                && final(input)@ == old(input)@,
        },
{
    let s: &'s str = *input;
    let cs = chars_of(s);
    match std_role_len(cs.as_slice()) {
        None => Err(SphinxTypeError::InvalidStdRole),
        Some(m) => {
            let role = s.substring_char(0, m);
            *input = s.substring_char(m, cs.len());
            assert(role@ =~= s@.take(m as int));
            Ok(role)
        },
    }
}

/// Takes a `py` role off the front of `input`; on failure `input` is left
/// as it was.
pub fn py_role<'s>(input: &mut &'s str) -> (r: Result<&'s str, SphinxTypeError>)
    ensures
        match r {
            Ok(role) => py_role_spec(old(input)@) == Some(role@) && final(input)@ == old(
                input,
            )@.skip(role@.len() as int),
            Err(e) => py_role_spec(old(input)@) is None && e == SphinxTypeError::InvalidPyRole
                && final(input)@ == old(input)@,
        },
{
    let s: &'s str = *input;
    let cs = chars_of(s);
    match py_role_len(cs.as_slice()) {
        None => Err(SphinxTypeError::InvalidPyRole),
        Some(m) => {
            let role = s.substring_char(0, m);
            *input = s.substring_char(m, cs.len());
            assert(role@ =~= s@.take(m as int));
            Ok(role)
        },
    }
}

/// Reads a whole type text `domain:role` of the `std` or `py` domain and
/// gives its role. On success all of `input` is consumed; on failure
/// `input` is left as it was.
pub fn sphinx_type<'s>(input: &mut &'s str) -> (r: Result<&'s str, SphinxTypeError>)
    ensures
        match r {
            Ok(role) => sphinx_type_spec(old(input)@) == Ok::<Seq<char>, SphinxTypeError>(role@)
                && final(input)@ == Seq::<char>::empty(),
            Err(e) => sphinx_type_spec(old(input)@) == Err::<Seq<char>, SphinxTypeError>(e)
                && final(input)@ == old(input)@,
        },
{
    let s: &'s str = *input;
    let cs = chars_of(s);
    let n = cs.len();
    let k = find_char(cs.as_slice(), ':', 0);
    proof {
        lemma_next_index_of(cs@, ':', 0);
    }
    if k >= n {
        return Err(SphinxTypeError::MissingSeparator);
    }
    let rest = slice_subrange(cs.as_slice(), k + 1, n);
    assert(rest@ =~= s@.skip(k + 1));
    let found = if range_is(cs.as_slice(), 0, k, "std") {
        match std_role_len(rest) {
            None => return Err(SphinxTypeError::InvalidStdRole),
            Some(m) => m,
        }
    } else if range_is(cs.as_slice(), 0, k, "py") {
        match py_role_len(rest) {
            None => return Err(SphinxTypeError::InvalidPyRole),
            Some(m) => m,
        }
    } else {
        return Err(SphinxTypeError::UnknownDomain);
    };
    if found != rest.len() {
        return Err(SphinxTypeError::TrailingInput);
    }
    let role = s.substring_char(k + 1, n);
    assert(role@ =~= rest@);
    assert(rest@.take(rest@.len() as int) =~= rest@);
    *input = s.substring_char(n, n);
    Ok(role)
}

} // verus!
